//! A unicast server: one socket bound to a single local address, one
//! observer registry, and one receive loop.
//!
//! The server moves through created, bound, running and stopped states.
//! Starting hands back the [`PacketReceiver`] a background thread loops on;
//! stopping closes the socket, which makes the blocked receive fail and so
//! ends that loop. A stopped server is not restarted: a new one is created.

use vstd::prelude::*;

use crate::addr::{IpAddr, SocketAddr};
use crate::error::{already_running_msg, not_bound_msg, BindError, Error};
use crate::observer::{Notifier, Observer};
use crate::packet::Packet;
use crate::receiver::PacketReceiver;
use crate::udp_socket::{spec_close, SockView, UdpSocket};

verus! {

/// A server for one bound unicast address.
pub struct UnicastServer<O: Observer> {
    socket: UdpSocket,
    notifier: Notifier<O>,
    running: bool,
}

impl<O: Observer> Drop for UnicastServer<O> {
    /// Teardown safety net: stops the server, closing its socket,
    /// tolerating an earlier explicit stop.
    fn drop(&mut self)
        opens_invariants none
        no_unwind
    {
        let _ = self.stop();
    }
}

impl<O: Observer> UnicastServer<O> {
    /// The state of the server's socket.
    pub closed spec fn sock(&self) -> SockView {
        self.socket@
    }

    /// The registered observers, in insertion order.
    pub closed spec fn observers(&self) -> Seq<O> {
        self.notifier.observers()
    }

    /// True between a successful start and the stop of the server.
    pub closed spec fn is_running(&self) -> bool {
        self.running
    }

    /// A new server: socket unbound, no observers, not running.
    pub fn new() -> (r: UnicastServer<O>)
        ensures
            r.sock() == SockView::Unbound,
            r.observers() == Seq::<O>::empty(),
            !r.is_running(),
    {
        UnicastServer { socket: UdpSocket::new(), notifier: Notifier::new(), running: false }
    }

    /// Registers an observer; never loses one already registered, and
    /// always succeeds.
    pub fn add_observer(&mut self, observer: O) -> (r: bool)
        ensures
            r == true,
            final(self).observers() == old(self).observers().push(observer),
            final(self).sock() == old(self).sock(),
            final(self).is_running() == old(self).is_running(),
    {
        self.notifier.add_observer(observer)
    }

    /// Sends the packet's payload to `to_addr` as one datagram. Fails with
    /// a not-bound error exactly when the socket is not bound; otherwise
    /// the OS decides, and a success means the whole payload was sent.
    pub fn send(&self, to_addr: SocketAddr, msg: &Packet) -> (r: Result<usize, Error>)
        ensures
            !(self.sock() is Bound) ==> r is Err && r->Err_0@ == not_bound_msg(),
            r is Ok ==> self.sock() is Bound && r->Ok_0 == msg.payload().len(),
    {
        self.socket.send_to(msg.bytes().as_slice(), to_addr)
    }

    /// The local address the server's socket is bound to, or a not-bound
    /// error.
    pub fn ifaddr(&self) -> (r: Result<SocketAddr, Error>)
        ensures
            self.sock() is Bound ==> r is Ok && r->Ok_0 == self.sock()->Bound_0,
            !(self.sock() is Bound) ==> r is Err && r->Err_0@ == not_bound_msg(),
    {
        self.socket.addr()
    }

    /// Binds the socket to `(ifaddr, port)`. On success the socket is
    /// bound there; on failure it is left unbound. Observers and the
    /// running state are untouched.
    pub fn bind(&mut self, ifaddr: IpAddr, port: u16) -> (r: Result<(), Error>)
        ensures
            r is Ok ==> final(self).sock() == SockView::Bound(SocketAddr { ip: ifaddr, port }),
            r is Err ==> final(self).sock() == SockView::Unbound,
            final(self).observers() == old(self).observers(),
            final(self).is_running() == old(self).is_running(),
    {
        self.socket.bind(SocketAddr::new(ifaddr, port))
    }

    /// Closes the socket; a bound socket becomes closed, any other state is
    /// unchanged, and closing twice is a safe no-op.
    pub fn close(&mut self) -> (r: Result<(), Error>)
        ensures
            r is Ok,
            final(self).sock() == spec_close(old(self).sock()),
            final(self).observers() == old(self).observers(),
            final(self).is_running() == old(self).is_running(),
    {
        self.socket.close();
        Ok(())
    }

    /// Starts the server exactly once: fails with a not-bound error when
    /// the socket is not bound, rejects a second start while running, and
    /// otherwise hands back the receiver for the background loop and marks
    /// the server running. The caller runs the loop: each received packet
    /// is passed to [`Self::deliver`].
    pub fn start(&mut self) -> (r: Result<PacketReceiver, Error>)
        ensures
            !(old(self).sock() is Bound) ==> r is Err && r->Err_0@ == not_bound_msg()
                && *final(self) == *old(self),
            old(self).sock() is Bound && old(self).is_running() ==> r is Err && r->Err_0@
                == already_running_msg() && *final(self) == *old(self),
            old(self).sock() is Bound && !old(self).is_running() ==> r is Ok,
            r is Ok ==> old(self).sock() is Bound && !old(self).is_running() && final(self).sock()
                == old(self).sock() && final(self).is_running(),
            final(self).observers() == old(self).observers(),
    {
        let fd = match self.socket.fd() {
            Some(fd) => fd,
            None => {
                return Err(BindError::new());
            },
        };
        if self.running {
            return Err(Error::from_str("server is already running"));
        }
        self.running = true;
        Ok(PacketReceiver::new(fd))
    }

    /// Broadcasts a received packet to every registered observer, in
    /// insertion order; returns how many observers were notified, which is
    /// exactly the number registered.
    pub fn deliver(&self, pkt: &Packet) -> (n: usize)
        ensures
            n == self.observers().len(),
    {
        self.notifier.notify(pkt)
    }

    /// Stops the server: closes the socket, which makes the receive loop's
    /// blocked read fail and so ends it, and marks the server stopped.
    /// Always succeeds, also when called twice.
    pub fn stop(&mut self) -> (r: Result<(), Error>)
        ensures
            r is Ok,
            final(self).sock() == spec_close(old(self).sock()),
            !final(self).is_running(),
            final(self).observers() == old(self).observers(),
        opens_invariants none
        no_unwind
    {
        self.socket.close();
        self.running = false;
        Ok(())
    }
}

} // verus!
