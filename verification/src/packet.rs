//! The transport packet: an owned byte payload, and the sender's address for
//! packets produced by a receive loop. Locally built outbound packets carry
//! no source address.

use vstd::prelude::*;

use crate::addr::SocketAddr;

verus! {

/// A transport packet.
#[derive(Clone, Debug)]
pub struct Packet {
    data: Vec<u8>,
    from: Option<SocketAddr>,
}

impl Packet {
    /// The byte payload.
    pub closed spec fn payload(&self) -> Seq<u8> {
        self.data@
    }

    /// The sender's address: set exactly on packets built by a receive loop.
    pub closed spec fn source(&self) -> Option<SocketAddr> {
        self.from
    }

    /// An empty outbound packet.
    pub fn new() -> (r: Packet)
        ensures
            r.payload() == Seq::<u8>::empty(),
            r.source() is None,
    {
        Packet { data: Vec::new(), from: None }
    }

    /// An outbound packet holding `data`.
    pub fn from_bytes(data: Vec<u8>) -> (r: Packet)
        ensures
            r.payload() == data@,
            r.source() is None,
    {
        Packet { data, from: None }
    }

    /// Records the sender's address.
    pub fn set_from(&mut self, addr: SocketAddr)
        ensures
            final(self).payload() == old(self).payload(),
            final(self).source() == Some(addr),
    {
        self.from = Some(addr);
    }

    /// The sender's address, if the packet came from a receive loop.
    pub fn from(&self) -> (r: Option<SocketAddr>)
        ensures
            r == self.source(),
    {
        self.from
    }

    /// Replaces the payload.
    pub fn set_bytes(&mut self, data: Vec<u8>)
        ensures
            final(self).payload() == data@,
            final(self).source() == old(self).source(),
    {
        self.data = data;
    }

    /// The payload.
    pub fn bytes(&self) -> (r: &Vec<u8>)
        ensures
            r@ == self.payload(),
    {
        &self.data
    }
}

} // verus!
