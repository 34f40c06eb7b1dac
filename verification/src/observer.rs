//! Observers and the broadcast registry.
//!
//! An observer is anything able to receive a packet; a `Notifier` keeps the
//! registered observers in insertion order and broadcasts each packet to
//! every one of them, first registered first. Observers are shared values:
//! one that keeps state does so behind its own interior mutability, so a
//! broadcast needs only shared access.

use vstd::prelude::*;

use crate::packet::Packet;

verus! {

/// A collaborator able to receive a packet upon arrival.
pub trait Observer {
    /// Called once for each packet received on a server this observer is
    /// registered with, on that server's receive thread.
    fn packet_received(&self, pkt: &Packet);
}

/// The registry of observers behind one server's receive loop.
pub struct Notifier<O: Observer> {
    observers: Vec<O>,
}

impl<O: Observer> Notifier<O> {
    /// The registered observers, in insertion order.
    pub closed spec fn observers(&self) -> Seq<O> {
        self.observers@
    }

    /// An empty registry.
    pub fn new() -> (r: Notifier<O>)
        ensures
            r.observers() == Seq::<O>::empty(),
    {
        Notifier { observers: Vec::new() }
    }

    /// Registers an observer; never loses one already registered, and
    /// always succeeds.
    pub fn add_observer(&mut self, observer: O) -> (r: bool)
        ensures
            r == true,
            final(self).observers() == old(self).observers().push(observer),
    {
        self.observers.push(observer);
        true
    }

    /// Broadcasts the packet to every registered observer, synchronously
    /// and in insertion order; returns how many observers were notified,
    /// which is exactly the number registered.
    pub fn notify(&self, pkt: &Packet) -> (n: usize)
        ensures
            n == self.observers().len(),
    {
        let len = self.observers.len();
        let mut i: usize = 0;
        while i < len
            invariant
                i <= len,
                len == self.observers().len(),
            decreases len - i,
        {
            self.observers[i].packet_received(pkt);
            i += 1;
        }
        i
    }
}

} // verus!
