//! A multicast server: one socket bound to a wildcard address and joined to
//! one group on one interface, one observer registry, and one receive loop.
//!
//! Binding is two steps — bind the wildcard address of the interface's
//! family at the port, then join the group on that interface — and any
//! failure of the second step closes the partially opened socket, so no
//! handle leaks. A group and an interface of different families are a
//! caller contract violation and are rejected, never joined.

use vstd::prelude::*;

use crate::addr::{same_family, IpAddr, Ipv4Addr, Ipv6Addr, SocketAddr};
use crate::error::{already_running_msg, not_bound_msg, BindError, Error};
use crate::observer::{Notifier, Observer};
use crate::packet::Packet;
use crate::receiver::PacketReceiver;
use crate::udp_socket::{spec_close, SockView, UdpSocket};

verus! {

/// A server for one multicast group on one interface.
pub struct MulticastServer<O: Observer> {
    socket: UdpSocket,
    notifier: Notifier<O>,
    maddr: IpAddr,
    port: u16,
    running: bool,
}

impl<O: Observer> Drop for MulticastServer<O> {
    /// Teardown safety net: stops the server, closing its socket,
    /// tolerating an earlier explicit stop.
    fn drop(&mut self)
        opens_invariants none
        no_unwind
    {
        let _ = self.stop();
    }
}

impl<O: Observer> MulticastServer<O> {
    /// The state of the server's socket.
    pub closed spec fn sock(&self) -> SockView {
        self.socket@
    }

    /// The registered observers, in insertion order.
    pub closed spec fn observers(&self) -> Seq<O> {
        self.notifier.observers()
    }

    /// The joined group address; the unspecified IPv4 address before a
    /// successful bind.
    pub closed spec fn group(&self) -> IpAddr {
        self.maddr
    }

    /// The port the server was bound at; zero before a successful bind.
    pub closed spec fn group_port(&self) -> u16 {
        self.port
    }

    /// True between a successful start and the stop of the server.
    pub closed spec fn is_running(&self) -> bool {
        self.running
    }

    /// A new server: socket unbound, no observers, no group, not running.
    pub fn new() -> (r: MulticastServer<O>)
        ensures
            r.sock() == SockView::Unbound,
            r.observers() == Seq::<O>::empty(),
            r.group() == IpAddr::V4(Ipv4Addr { bits: 0 }),
            r.group_port() == 0u16,
            !r.is_running(),
    {
        MulticastServer {
            socket: UdpSocket::new(),
            notifier: Notifier::new(),
            maddr: IpAddr::V4(Ipv4Addr { bits: 0 }),
            port: 0,
            running: false,
        }
    }

    /// Registers an observer; never loses one already registered, and
    /// always succeeds.
    pub fn add_observer(&mut self, observer: O) -> (r: bool)
        ensures
            r == true,
            final(self).observers() == old(self).observers().push(observer),
            final(self).sock() == old(self).sock(),
            final(self).group() == old(self).group(),
            final(self).group_port() == old(self).group_port(),
            final(self).is_running() == old(self).is_running(),
    {
        self.notifier.add_observer(observer)
    }

    /// Sends the packet's payload to the joined group at the bound port as
    /// one datagram. Fails with a not-bound error exactly when the socket
    /// is not bound; otherwise the OS decides, and a success means the
    /// whole payload was sent.
    pub fn notify(&self, msg: &Packet) -> (r: Result<usize, Error>)
        ensures
            !(self.sock() is Bound) ==> r is Err && r->Err_0@ == not_bound_msg(),
            r is Ok ==> self.sock() is Bound && r->Ok_0 == msg.payload().len(),
    {
        let to_addr = SocketAddr::new(self.maddr, self.port);
        self.socket.send_to(msg.bytes().as_slice(), to_addr)
    }

    /// The interface address the server listens on, or a not-bound error.
    pub fn ifaddr(&self) -> (r: Result<SocketAddr, Error>)
        ensures
            self.sock() is Bound ==> r is Ok && r->Ok_0 == self.sock()->Bound_0,
            !(self.sock() is Bound) ==> r is Err && r->Err_0@ == not_bound_msg(),
    {
        self.socket.addr()
    }

    /// True exactly while the socket is bound.
    pub fn is_bound(&self) -> (r: bool)
        ensures
            r == self.sock() is Bound,
    {
        match self.socket.addr() {
            Ok(_) => true,
            Err(_) => false,
        }
    }

    /// Binds the wildcard address of the interface's family at `port`,
    /// then joins `maddr` on the interface `ifaddr`. On success the socket
    /// listens on `(ifaddr, port)` and the group is recorded. A group and
    /// interface of different families are rejected. On any failure the
    /// partially opened socket is closed before returning, so no handle is
    /// left bound.
    pub fn bind(&mut self, maddr: IpAddr, port: u16, ifaddr: IpAddr) -> (r: Result<(), Error>)
        ensures
            r is Ok ==> same_family(maddr, ifaddr) && final(self).sock() == SockView::Bound(
                SocketAddr { ip: ifaddr, port },
            ) && final(self).group() == maddr && final(self).group_port() == port,
            !same_family(maddr, ifaddr) ==> r is Err,
            r is Err ==> !(final(self).sock() is Bound) && final(self).group() == old(self).group()
                && final(self).group_port() == old(self).group_port(),
            final(self).observers() == old(self).observers(),
            final(self).is_running() == old(self).is_running(),
    {
        let wildcard = if ifaddr.is_ipv6() {
            SocketAddr::new(IpAddr::V6(Ipv6Addr::unspecified()), port)
        } else {
            SocketAddr::new(IpAddr::V4(Ipv4Addr::unspecified()), port)
        };
        if let Err(e) = self.socket.bind(wildcard) {
            return Err(e);
        }
        let joined = match (ifaddr, maddr) {
            (IpAddr::V4(if4), IpAddr::V4(m4)) => self.socket.join_multicast_v4(&m4, &if4),
            (IpAddr::V6(if6), IpAddr::V6(m6)) => self.socket.join_multicast_v6(&m6, &if6),
            _ => Err(Error::from_str("multicast group and interface family mismatch")),
        };
        match joined {
            Ok(_) => {
                self.maddr = maddr;
                self.port = port;
                Ok(())
            },
            Err(e) => {
                self.socket.close();
                Err(e)
            },
        }
    }

    /// Closes the socket; a bound socket becomes closed, any other state is
    /// unchanged, and closing twice is a safe no-op.
    pub fn close(&mut self) -> (r: bool)
        ensures
            r == true,
            final(self).sock() == spec_close(old(self).sock()),
            final(self).observers() == old(self).observers(),
            final(self).group() == old(self).group(),
            final(self).group_port() == old(self).group_port(),
            final(self).is_running() == old(self).is_running(),
    {
        self.socket.close();
        true
    }

    /// Starts the server exactly once: fails with a not-bound error when
    /// the socket is not bound, rejects a second start while running, and
    /// otherwise hands back the receiver for the background loop and marks
    /// the server running. The caller runs the loop: each received packet
    /// is passed to [`Self::deliver`].
    pub fn start(&mut self) -> (r: Result<PacketReceiver, Error>)
        ensures
            !(old(self).sock() is Bound) ==> r is Err && r->Err_0@ == not_bound_msg()
                && *final(self) == *old(self),
            old(self).sock() is Bound && old(self).is_running() ==> r is Err && r->Err_0@
                == already_running_msg() && *final(self) == *old(self),
            old(self).sock() is Bound && !old(self).is_running() ==> r is Ok,
            r is Ok ==> old(self).sock() is Bound && !old(self).is_running() && final(self).sock()
                == old(self).sock() && final(self).is_running(),
            final(self).observers() == old(self).observers(),
            final(self).group() == old(self).group(),
            final(self).group_port() == old(self).group_port(),
    {
        let fd = match self.socket.fd() {
            Some(fd) => fd,
            None => {
                return Err(BindError::new());
            },
        };
        if self.running {
            return Err(Error::from_str("server is already running"));
        }
        self.running = true;
        Ok(PacketReceiver::new(fd))
    }

    /// Broadcasts a received packet to every registered observer, in
    /// insertion order; returns how many observers were notified, which is
    /// exactly the number registered.
    pub fn deliver(&self, pkt: &Packet) -> (n: usize)
        ensures
            n == self.observers().len(),
    {
        self.notifier.notify(pkt)
    }

    /// Stops the server: closes the socket, which makes the receive loop's
    /// blocked read fail and so ends it, and marks the server stopped.
    /// Always succeeds, also when called twice.
    pub fn stop(&mut self) -> (r: Result<(), Error>)
        ensures
            r is Ok,
            final(self).sock() == spec_close(old(self).sock()),
            !final(self).is_running(),
            final(self).observers() == old(self).observers(),
            final(self).group() == old(self).group(),
            final(self).group_port() == old(self).group_port(),
        opens_invariants none
        no_unwind
    {
        self.socket.close();
        self.running = false;
        Ok(())
    }
}

} // verus!
