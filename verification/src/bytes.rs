//! Encoding and decoding between byte arrays and integers, and between byte
//! arrays and hexadecimal text.
//!
//! Integers travel big-endian: the first byte of the buffer is the most
//! significant. Hexadecimal text is written in upper case, two digits per
//! byte, and read case-insensitively, two characters per byte; a trailing
//! unpaired character is ignored.

use vstd::prelude::*;
use vstd::string::StringSliceAdditionalSpecFns;
use vstd::utf8::{decode_utf8, encode_utf8_decode_utf8, valid_utf8};

use crate::error::Error;

verus! {

/// 256 to the power `n`.
pub open spec fn pow256(n: nat) -> nat
    decreases n,
{
    if n == 0 {
        1
    } else {
        256 * pow256((n - 1) as nat)
    }
}

/// The big-endian value of a byte sequence.
pub open spec fn be_value(s: Seq<u8>) -> nat
    decreases s.len(),
{
    if s.len() == 0 {
        0
    } else {
        be_value(s.drop_last()) * 256 + s.last() as nat
    }
}

/// A big-endian value is bounded by 256 to the number of its bytes.
pub proof fn lemma_be_value_bound(s: Seq<u8>)
    ensures
        be_value(s) < pow256(s.len()),
    decreases s.len(),
{
    if s.len() > 0 {
        lemma_be_value_bound(s.drop_last());
    }
}

/// The byte at position `i` of the `len`-byte big-endian encoding of `val`.
pub open spec fn be_byte(val: u32, len: int, i: int) -> u8
    recommends
        0 <= i < len <= 4,
{
    ((val >> (((len - 1 - i) * 8) as u32)) & 0xFF) as u8
}

/// True if the character is a hexadecimal digit of either case.
pub open spec fn is_hex_digit(c: char) -> bool {
    (48 <= c as u32 && c as u32 <= 57) || (97 <= c as u32 && c as u32 <= 102) || (65 <= c as u32
        && c as u32 <= 70)
}

/// The value of a hexadecimal digit character.
pub open spec fn hex_digit_value(c: char) -> u8
    recommends
        is_hex_digit(c),
{
    if 48 <= c as u32 && c as u32 <= 57 {
        (c as u32 - 48) as u8
    } else if 97 <= c as u32 && c as u32 <= 102 {
        (c as u32 - 87) as u8
    } else {
        (c as u32 - 55) as u8
    }
}

/// True if every character belonging to a complete pair is a hex digit.
pub open spec fn all_hex_pairs(s: Seq<char>) -> bool {
    forall|k: int| 0 <= k < 2 * (s.len() / 2) ==> is_hex_digit(#[trigger] s[k])
}

/// The bytes denoted by a sequence of hexadecimal characters, two per byte.
pub open spec fn hex_pairs_bytes(s: Seq<char>) -> Seq<u8> {
    Seq::new(s.len() / 2, |k: int| (16 * hex_digit_value(s[2 * k]) + hex_digit_value(s[2 * k + 1])) as u8)
}

/// The upper-case hexadecimal digit for a value below sixteen.
pub open spec fn hex_upper(n: u8) -> char
    recommends
        n < 16,
{
    if n < 10 {
        ((48 + n) as u8) as char
    } else {
        ((55 + n) as u8) as char
    }
}

/// The upper-case hexadecimal text for a byte sequence, two digits per byte.
pub open spec fn hex_text(bytes: Seq<u8>) -> Seq<char> {
    Seq::new(
        2 * bytes.len(),
        |i: int|
            if i % 2 == 0 {
                hex_upper(bytes[i / 2] >> 4)
            } else {
                hex_upper((bytes[i / 2] & 15) as u8)
            },
    )
}

/// Writing an integer big-endian and reading the buffer back gives the
/// integer, reduced to the bytes that fit: the round trip of `from_u32`
/// and `to_u32` on a buffer of `len` bytes.
pub proof fn lemma_u32_roundtrip(val: u32, len: nat)
    requires
        len <= 4,
    ensures
        be_value(Seq::new(len, |i: int| be_byte(val, len as int, i))) == val as nat % pow256(len),
{
    let s = Seq::new(len, |i: int| be_byte(val, len as int, i));
    reveal_with_fuel(pow256, 5);
    reveal_with_fuel(be_value, 5);
    assert(((val >> 24) & 0xFF) <= 255 && ((val >> 16) & 0xFF) <= 255 && ((val >> 8) & 0xFF) <= 255
        && ((val >> 0) & 0xFF) <= 255) by (bit_vector);
    if len == 0 {
        assert(s =~= Seq::<u8>::empty());
    } else if len == 1 {
        assert(s.drop_last() =~= Seq::<u8>::empty());
        assert(s.last() == ((val >> 0) & 0xFF) as u8);
        assert((val >> 0) & 0xFF == val % 256) by (bit_vector);
    } else if len == 2 {
        assert(s.drop_last().drop_last() =~= Seq::<u8>::empty());
        assert(s.drop_last().last() == ((val >> 8) & 0xFF) as u8);
        assert(s.last() == ((val >> 0) & 0xFF) as u8);
        assert(((val >> 8) & 0xFF) * 256 + ((val >> 0) & 0xFF) == val % 0x10000) by (bit_vector);
    } else if len == 3 {
        assert(s.drop_last().drop_last().drop_last() =~= Seq::<u8>::empty());
        assert(s.drop_last().drop_last().last() == ((val >> 16) & 0xFF) as u8);
        assert(s.drop_last().last() == ((val >> 8) & 0xFF) as u8);
        assert(s.last() == ((val >> 0) & 0xFF) as u8);
        assert((((val >> 16) & 0xFF) * 256 + ((val >> 8) & 0xFF)) * 256 + ((val >> 0) & 0xFF) == val
            % 0x1000000) by (bit_vector);
    } else {
        assert(s.drop_last().drop_last().drop_last().drop_last() =~= Seq::<u8>::empty());
        assert(s.drop_last().drop_last().drop_last().last() == ((val >> 24) & 0xFF) as u8);
        assert(s.drop_last().drop_last().last() == ((val >> 16) & 0xFF) as u8);
        assert(s.drop_last().last() == ((val >> 8) & 0xFF) as u8);
        assert(s.last() == ((val >> 0) & 0xFF) as u8);
        assert(((((val >> 24) & 0xFF) * 256 + ((val >> 16) & 0xFF)) * 256 + ((val >> 8) & 0xFF))
            * 256 + ((val >> 0) & 0xFF) == val) by (bit_vector);
        assert(pow256(4) == 0x100000000);
        vstd::arithmetic::div_mod::lemma_small_mod(val as nat, pow256(4));
    }
}

/// The upper-case digit of a value below sixteen is a hexadecimal digit,
/// and decoding it gives the value back.
proof fn lemma_hex_digit_roundtrip(n: u8)
    requires
        n < 16,
    ensures
        is_hex_digit(hex_upper(n)),
        hex_digit_value(hex_upper(n)) == n,
{
}

/// Encoding bytes as hexadecimal text and decoding that text gives the
/// bytes back: the round trip of `to_hexstring` and `from_hexstr`.
pub proof fn lemma_hex_roundtrip(bytes: Seq<u8>)
    ensures
        all_hex_pairs(hex_text(bytes)),
        hex_pairs_bytes(hex_text(bytes)) == bytes,
{
    let t = hex_text(bytes);
    assert forall|k: int| 0 <= k < 2 * (t.len() / 2) implies is_hex_digit(#[trigger] t[k]) by {
        let b = bytes[k / 2];
        assert(b >> 4 < 16 && b & 15 < 16) by (bit_vector);
        if k % 2 == 0 {
            lemma_hex_digit_roundtrip(b >> 4);
        } else {
            lemma_hex_digit_roundtrip((b & 15) as u8);
        }
    }
    assert forall|i: int| 0 <= i < bytes.len() implies hex_pairs_bytes(t)[i] == bytes[i] by {
        let b = bytes[i];
        assert(b >> 4 < 16 && b & 15 < 16) by (bit_vector);
        lemma_hex_digit_roundtrip(b >> 4);
        lemma_hex_digit_roundtrip((b & 15) as u8);
        assert(t[2 * i] == hex_upper(b >> 4));
        assert(t[2 * i + 1] == hex_upper((b & 15) as u8));
        assert(16 * (b >> 4) + (b & 15) == b) by (bit_vector);
    }
    assert(hex_pairs_bytes(t) =~= bytes);
}

/// Encoding and decoding utility functions between byte arrays, integers and
/// hexadecimal text.
pub struct Bytes {}

/// Relies on `String::push`: appends exactly the given character.
#[verifier::external_body]
pub(crate) fn push_char(s: &mut String, c: char)
    ensures
        final(s)@ == old(s)@.push(c),
{
    s.push(c);
}

/// Relies on `str::from_utf8`: returns a borrowed `&str` of exactly the
/// given bytes when they are valid UTF-8, and nothing otherwise.
#[verifier::external_body]
pub(crate) fn utf8_str(bytes: &[u8]) -> (r: Option<&str>)
    ensures
        r is Some <==> valid_utf8(bytes@),
        r is Some ==> r.unwrap().spec_bytes() == bytes@,
{
    match core::str::from_utf8(bytes) {
        Ok(s) => Some(s),
        Err(_) => None,
    }
}

/// The value of one hexadecimal digit character, of either case.
fn hex_digit(c: char) -> (r: Option<u8>)
    ensures
        r is Some <==> is_hex_digit(c),
        r is Some ==> r.unwrap() == hex_digit_value(c) && r.unwrap() < 16,
{
    let u = c as u32;
    if 48 <= u && u <= 57 {
        Some((u - 48) as u8)
    } else if 97 <= u && u <= 102 {
        Some((u - 87) as u8)
    } else if 65 <= u && u <= 70 {
        Some((u - 55) as u8)
    } else {
        None
    }
}

impl Bytes {
    /// Writes the `bytes.len()`-byte big-endian encoding of `val` into
    /// `bytes`, most significant byte first.
    pub fn from_u32(val: u32, bytes: &mut [u8])
        requires
            old(bytes)@.len() <= 4,
        ensures
            final(bytes)@.len() == old(bytes)@.len(),
            forall|i: int|
                0 <= i < final(bytes)@.len() ==> final(bytes)@[i] == be_byte(
                    val,
                    old(bytes)@.len() as int,
                    i,
                ),
    {
        let bytes_size = bytes.len();
        let mut n: usize = 0;
        while n < bytes_size
            invariant
                n <= bytes_size <= 4,
                bytes@.len() == bytes_size,
                forall|j: int|
                    0 <= j < n ==> bytes@[bytes_size - 1 - j] == (((#[trigger] (val >> ((j
                        * 8) as u32))) & 0xFF) as u8),
            decreases bytes_size - n,
        {
            let idx = (bytes_size - 1) - n;
            bytes[idx] = ((val >> ((n as u32) * 8)) & 0xFF) as u8;
            n += 1;
        }
        proof {
            assert forall|i: int| 0 <= i < bytes@.len() implies bytes@[i] == be_byte(
                val,
                bytes_size as int,
                i,
            ) by {
                let j = bytes_size - 1 - i;
                assert(bytes@[bytes_size - 1 - j] == (((val >> ((j * 8) as u32)) & 0xFF) as u8));
            }
        }
    }

    /// Reads a big-endian integer from at most four bytes.
    pub fn to_u32(bytes: &[u8]) -> (val: u32)
        requires
            bytes@.len() <= 4,
        ensures
            val == be_value(bytes@),
    {
        let n = bytes.len();
        let mut val: u32 = 0;
        let mut i: usize = 0;
        while i < n
            invariant
                i <= n <= 4,
                n == bytes@.len(),
                val == be_value(bytes@.take(i as int)),
            decreases n - i,
        {
            proof {
                lemma_be_value_bound(bytes@.take(i as int));
                reveal_with_fuel(pow256, 5);
                assert(bytes@.take(i as int + 1).drop_last() =~= bytes@.take(i as int));
                assert(bytes@.take(i as int + 1).last() == bytes@[i as int]);
            }
            val = val * 256 + (bytes[i] as u32);
            i += 1;
        }
        proof {
            assert(bytes@.take(n as int) =~= bytes@);
        }
        val
    }

    /// Decodes hexadecimal text into bytes, two characters per byte; a
    /// trailing unpaired character is ignored. Fails exactly when a
    /// character of a complete pair is not a hexadecimal digit.
    pub fn from_hexstr(hex_str: &str) -> (r: Result<Vec<u8>, Error>)
        ensures
            r is Ok <==> all_hex_pairs(hex_str@),
            r is Ok ==> r.unwrap()@ == hex_pairs_bytes(hex_str@),
    {
        let len = hex_str.unicode_len();
        let pairs = len / 2;
        let mut out: Vec<u8> = Vec::new();
        let mut k: usize = 0;
        while k < pairs
            invariant
                k <= pairs,
                pairs == hex_str@.len() / 2,
                hex_str@.len() <= usize::MAX,
                out@.len() == k,
                forall|j: int| 0 <= j < 2 * k ==> is_hex_digit(#[trigger] hex_str@[j]),
                forall|j: int|
                    0 <= j < k ==> out@[j] == (16 * hex_digit_value(hex_str@[2 * j])
                        + hex_digit_value(hex_str@[2 * j + 1])) as u8,
            decreases pairs - k,
        {
            let c0 = hex_str.get_char(2 * k);
            let c1 = hex_str.get_char(2 * k + 1);
            let v0 = match hex_digit(c0) {
                Some(v) => v,
                None => {
                    return Err(Error::from_str("invalid hexadecimal digit"));
                },
            };
            let v1 = match hex_digit(c1) {
                Some(v) => v,
                None => {
                    return Err(Error::from_str("invalid hexadecimal digit"));
                },
            };
            out.push(16 * v0 + v1);
            k += 1;
        }
        proof {
            assert(out@ =~= hex_pairs_bytes(hex_str@));
        }
        Ok(out)
    }

    /// Decodes hexadecimal text held as UTF-8 bytes: the decoded text's
    /// characters are paired, two per byte, and a trailing unpaired
    /// character is ignored. Fails when the bytes are not valid UTF-8, or
    /// when a character of a complete pair is not a hexadecimal digit.
    pub fn from_hexbytes(bytes: &[u8]) -> (r: Result<Vec<u8>, Error>)
        ensures
            r is Ok <==> valid_utf8(bytes@) && all_hex_pairs(decode_utf8(bytes@)),
            r is Ok ==> r.unwrap()@ == hex_pairs_bytes(decode_utf8(bytes@)),
    {
        let s = match utf8_str(bytes) {
            Some(s) => s,
            None => {
                return Err(Error::from_str("hexadecimal text is not valid UTF-8"));
            },
        };
        proof {
            encode_utf8_decode_utf8(s@);
        }
        Bytes::from_hexstr(s)
    }

    /// Decodes hexadecimal text held in a `String`.
    pub fn from_hexstring(hex_str: &String) -> (r: Result<Vec<u8>, Error>)
        ensures
            r is Ok <==> all_hex_pairs(hex_str@),
            r is Ok ==> r.unwrap()@ == hex_pairs_bytes(hex_str@),
    {
        Bytes::from_hexstr(hex_str.as_str())
    }

    /// Encodes bytes as upper-case hexadecimal text, two digits per byte.
    pub fn to_hexstring(bytes: &[u8]) -> (r: String)
        ensures
            r@ == hex_text(bytes@),
    {
        let mut hex_str = String::new();
        let n = bytes.len();
        let mut i: usize = 0;
        while i < n
            invariant
                i <= n,
                n == bytes@.len(),
                hex_str@ == hex_text(bytes@.take(i as int)),
            decreases n - i,
        {
            let b = bytes[i];
            let hi = b >> 4;
            let lo = b & 15;
            proof {
                assert(b >> 4 < 16 && b & 15 < 16) by (bit_vector);
            }
            let hc = if hi < 10 {
                (48 + hi) as char
            } else {
                (55 + hi) as char
            };
            let lc = if lo < 10 {
                (48 + lo) as char
            } else {
                (55 + lo) as char
            };
            push_char(&mut hex_str, hc);
            push_char(&mut hex_str, lc);
            proof {
                assert(hex_str@ =~= hex_text(bytes@.take(i as int + 1)));
            }
            i += 1;
        }
        proof {
            assert(bytes@.take(n as int) =~= bytes@);
        }
        hex_str
    }
}

} // verus!
