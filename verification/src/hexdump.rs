//! Hexdump log decoding.
//!
//! The decoder turns captured hexdump text back into raw bytes. No line
//! format is recognized yet: well-formed input decodes to an empty byte
//! sequence, and only text that is not valid UTF-8 is rejected.

use vstd::prelude::*;
use vstd::utf8::valid_utf8;

use crate::bytes::utf8_str;
use crate::error::Error;

verus! {

/// Decoder for hexdump log text.
pub struct Decoder {}

impl Decoder {
    /// Decodes hexdump text held as bytes. Fails exactly when the bytes are
    /// not valid UTF-8.
    pub fn from_bytes(bytes: &[u8]) -> (r: Result<Vec<u8>, Error>)
        ensures
            r is Ok <==> valid_utf8(bytes@),
            r is Ok ==> r.unwrap()@ == Seq::<u8>::empty(),
    {
        match utf8_str(bytes) {
            Some(s) => Decoder::from_str(s),
            None => Err(Error::from_str("hexdump text is not valid UTF-8")),
        }
    }

    /// Decodes hexdump text. No line format is recognized yet, so every
    /// input decodes to an empty byte sequence.
    pub fn from_str(s: &str) -> (r: Result<Vec<u8>, Error>)
        ensures
            r is Ok,
            r.unwrap()@ == Seq::<u8>::empty(),
    {
        if s.is_empty() {
            return Ok(Vec::new());
        }
        Ok(Vec::new())
    }

    /// Decodes hexdump text already split into lines. No line format is
    /// recognized yet.
    pub fn from_lines(lines: &Vec<&str>) {
    }
}

} // verus!
