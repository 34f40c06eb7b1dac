//! The receive side of a running server.
//!
//! Starting a server hands back a `PacketReceiver`: the value a background
//! thread loops on. Each `receive` blocks until a datagram arrives on the
//! server's socket and wraps it into a packet tagged with the sender's
//! address. The receiver holds only the socket's file descriptor, so the
//! blocking call runs without holding any lock on the server; closing the
//! socket makes the blocked call fail, which ends the loop.

use vstd::prelude::*;

use crate::error::Error;
use crate::packet::Packet;
use crate::sys::{errno_message, os_recv_from};

verus! {

/// The largest datagram a receive loop reads at once.
pub const MAX_PACKET_SIZE: usize = 8192;

/// The receive handle of a started server.
#[derive(Debug)]
pub struct PacketReceiver {
    fd: i32,
}

impl PacketReceiver {
    /// The file descriptor the receiver reads from.
    pub closed spec fn spec_fd(&self) -> i32 {
        self.fd
    }

    /// A receiver reading from the given socket handle.
    pub(crate) fn new(fd: i32) -> (r: PacketReceiver)
        ensures
            r.spec_fd() == fd,
    {
        PacketReceiver { fd }
    }

    /// Blocks until one datagram arrives, and returns it as a packet whose
    /// source is the sender's address; the payload holds at most
    /// `MAX_PACKET_SIZE` bytes. Fails when the socket has been closed or on
    /// any other OS receive error, which ends the caller's loop.
    pub fn receive(&self) -> (r: Result<Packet, Error>)
        ensures
            r is Ok ==> r->Ok_0.source() is Some && r->Ok_0.payload().len() <= MAX_PACKET_SIZE,
    {
        let mut buf: Vec<u8> = Vec::new();
        buf.resize(MAX_PACKET_SIZE, 0u8);
        let (n, src) = match os_recv_from(self.fd, buf.as_mut_slice()) {
            Ok(p) => p,
            Err(e) => {
                return Err(Error::from_string(&errno_message(e)));
            },
        };
        buf.truncate(n);
        let mut pkt = Packet::from_bytes(buf);
        pkt.set_from(src);
        Ok(pkt)
    }
}

} // verus!
