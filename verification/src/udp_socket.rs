//! The per-socket lifecycle state machine.
//!
//! A `UdpSocket` owns at most one OS socket handle and moves through three
//! states: unbound, bound (handle present, local address recorded), closed
//! (handle released). Binding enables address and port reuse before the OS
//! bind, so several group members on one host can share a multicast port.
//! Closing is idempotent and shuts the handle down in both directions first,
//! so a thread blocked in a receive observes the closure promptly. A closed
//! handle itself is never revived: binding again after a close — which the
//! address-reuse options make possible at the same address — creates a
//! fresh handle.

use vstd::prelude::*;

use crate::addr::{sockaddr_text, IpAddr, Ipv4Addr, Ipv6Addr, SocketAddr};
use crate::error::{not_bound_msg, BindError, Error};
use crate::sys::{
    errno_message, os_bind_v4, os_bind_v6, os_close, os_join_v4, os_join_v6, os_recv_from,
    os_send_to_v4, os_send_to_v6, os_set_reuse_addr, os_set_reuse_port, os_shutdown, os_socket_v4,
    os_socket_v6,
};

verus! {

/// The observable state of a socket: unbound, bound to a local address, or
/// closed for good.
pub enum SockView {
    Unbound,
    Bound(SocketAddr),
    Closed,
}

/// The state a socket is left in by `close`: a bound socket becomes closed,
/// the other states are unchanged.
pub open spec fn spec_close(v: SockView) -> SockView {
    match v {
        SockView::Bound(_) => SockView::Closed,
        other => other,
    }
}

/// The text every failed bind's message starts with: it names the
/// attempted address.
pub open spec fn bind_error_prefix(ifaddr: SocketAddr) -> Seq<char> {
    "could not bind to "@ + sockaddr_text(ifaddr)
}

/// Closing a socket twice leaves exactly the state one close leaves.
pub proof fn lemma_close_idempotent(v: SockView)
    ensures
        spec_close(spec_close(v)) == spec_close(v),
{
}

enum SockState {
    Unbound,
    Bound { fd: i32, addr: SocketAddr },
    Closed,
}

/// A UDP socket owning at most one OS handle.
pub struct UdpSocket {
    state: SockState,
}

impl Drop for UdpSocket {
    /// Teardown safety net: releases the OS handle if the socket is still
    /// bound, tolerating an earlier explicit close.
    fn drop(&mut self)
        opens_invariants none
        no_unwind
    {
        self.close();
    }
}

/// Creates an IPv4 UDP socket with address and port reuse enabled, bound to
/// `ip:port`; on any failure the partially created handle is released.
fn create_socket_v4(ip: Ipv4Addr, port: u16) -> Result<i32, Error> {
    let fd = match os_socket_v4() {
        Ok(fd) => fd,
        Err(e) => {
            return Err(Error::from_string(&errno_message(e)));
        },
    };
    if let Err(e) = os_set_reuse_addr(fd) {
        let _ = os_close(fd);
        return Err(Error::from_string(&errno_message(e)));
    }
    if let Err(e) = os_set_reuse_port(fd) {
        let _ = os_close(fd);
        return Err(Error::from_string(&errno_message(e)));
    }
    if let Err(e) = os_bind_v4(fd, ip.octets(), port) {
        let _ = os_close(fd);
        return Err(Error::from_string(&errno_message(e)));
    }
    Ok(fd)
}

/// Creates an IPv6 UDP socket with address and port reuse enabled, bound to
/// `ip:port`; on any failure the partially created handle is released.
fn create_socket_v6(ip: Ipv6Addr, port: u16) -> Result<i32, Error> {
    let fd = match os_socket_v6() {
        Ok(fd) => fd,
        Err(e) => {
            return Err(Error::from_string(&errno_message(e)));
        },
    };
    if let Err(e) = os_set_reuse_addr(fd) {
        let _ = os_close(fd);
        return Err(Error::from_string(&errno_message(e)));
    }
    if let Err(e) = os_set_reuse_port(fd) {
        let _ = os_close(fd);
        return Err(Error::from_string(&errno_message(e)));
    }
    if let Err(e) = os_bind_v6(fd, ip.groups(), port) {
        let _ = os_close(fd);
        return Err(Error::from_string(&errno_message(e)));
    }
    Ok(fd)
}

impl View for UdpSocket {
    type V = SockView;

    closed spec fn view(&self) -> SockView {
        match self.state {
            SockState::Unbound => SockView::Unbound,
            SockState::Bound { fd, addr } => SockView::Bound(addr),
            SockState::Closed => SockView::Closed,
        }
    }
}

impl UdpSocket {
    /// A new socket, not yet bound.
    pub fn new() -> (r: UdpSocket)
        ensures
            r@ == SockView::Unbound,
    {
        UdpSocket { state: SockState::Unbound }
    }

    /// The file descriptor of the OS handle, while the socket is bound.
    pub(crate) fn fd(&self) -> (r: Option<i32>)
        ensures
            r is Some <==> self@ is Bound,
    {
        match &self.state {
            SockState::Bound { fd, addr } => Some(*fd),
            _ => None,
        }
    }

    /// The local address the socket is bound to, or a not-bound error.
    pub fn addr(&self) -> (r: Result<SocketAddr, Error>)
        ensures
            self@ is Bound ==> r is Ok && r->Ok_0 == self@->Bound_0,
            !(self@ is Bound) ==> r is Err && r->Err_0@ == not_bound_msg(),
    {
        match &self.state {
            SockState::Bound { fd, addr } => Ok(*addr),
            _ => Err(BindError::new()),
        }
    }

    /// Binds to `ifaddr`, closing any handle held before. On success the
    /// socket is bound to `ifaddr`; on failure no state is retained, the
    /// socket is unbound, and the error's message carries the attempted
    /// address, followed by the OS's description of the failure.
    pub fn bind(&mut self, ifaddr: SocketAddr) -> (r: Result<(), Error>)
        ensures
            r is Ok ==> final(self)@ == SockView::Bound(ifaddr),
            r is Err ==> final(self)@ == SockView::Unbound,
            r is Err ==> r->Err_0@.len() >= bind_error_prefix(ifaddr).len() && r->Err_0@.subrange(
                0,
                bind_error_prefix(ifaddr).len() as int,
            ) == bind_error_prefix(ifaddr),
    {
        if let SockState::Bound { .. } = self.state {
            self.close();
        }
        let created = match ifaddr.ip {
            IpAddr::V4(ip) => create_socket_v4(ip, ifaddr.port),
            IpAddr::V6(ip) => create_socket_v6(ip, ifaddr.port),
        };
        match created {
            Ok(fd) => {
                self.state = SockState::Bound { fd, addr: ifaddr };
                Ok(())
            },
            Err(e) => {
                self.state = SockState::Unbound;
                let mut msg = "could not bind to ".to_owned();
                msg.append(ifaddr.text().as_str());
                msg.append(": ");
                msg.append(e.message());
                proof {
                    assert(msg@.subrange(0, bind_error_prefix(ifaddr).len() as int)
                        =~= bind_error_prefix(ifaddr));
                }
                Err(Error::from_string(&msg))
            },
        }
    }

    /// Releases the OS handle, shutting it down in both directions first so
    /// a blocked receive fails promptly. Closing an unbound or already
    /// closed socket is a safe no-op.
    pub fn close(&mut self)
        ensures
            final(self)@ == spec_close(old(self)@),
        opens_invariants none
        no_unwind
    {
        match &self.state {
            SockState::Bound { fd, addr } => {
                let fd = *fd;
                let _ = os_shutdown(fd);
                let _ = os_close(fd);
                self.state = SockState::Closed;
            },
            _ => {},
        }
    }

    /// Sends the buffer to `to_addr` as one datagram. Fails with a
    /// not-bound error exactly when the socket is not bound; otherwise the
    /// OS decides, and a success means the whole buffer was sent.
    pub fn send_to(&self, buf: &[u8], to_addr: SocketAddr) -> (r: Result<usize, Error>)
        ensures
            !(self@ is Bound) ==> r is Err && r->Err_0@ == not_bound_msg(),
            r is Ok ==> self@ is Bound && r->Ok_0 == buf@.len(),
    {
        let fd = match &self.state {
            SockState::Bound { fd, addr } => *fd,
            _ => {
                return Err(BindError::new());
            },
        };
        let sent = match to_addr.ip {
            IpAddr::V4(ip) => os_send_to_v4(fd, buf, ip.octets(), to_addr.port),
            IpAddr::V6(ip) => os_send_to_v6(fd, buf, ip.groups(), to_addr.port),
        };
        match sent {
            Ok(n) => Ok(n),
            Err(e) => Err(Error::from_string(&errno_message(e))),
        }
    }

    /// Blocks until a datagram arrives. Fails with a not-bound error
    /// exactly when the socket is not bound, without touching the buffer;
    /// a success reports the received byte count, at most the buffer's
    /// length, and the sender's address.
    pub fn recv_from(&self, buf: &mut [u8]) -> (r: Result<(usize, SocketAddr), Error>)
        ensures
            final(buf)@.len() == old(buf)@.len(),
            !(self@ is Bound) ==> r is Err && r->Err_0@ == not_bound_msg() && final(buf)@ == old(
                buf,
            )@,
            r is Ok ==> self@ is Bound && r->Ok_0.0 <= old(buf)@.len(),
    {
        let fd = match &self.state {
            SockState::Bound { fd, addr } => *fd,
            _ => {
                return Err(BindError::new());
            },
        };
        match os_recv_from(fd, buf) {
            Ok(p) => Ok(p),
            Err(e) => Err(Error::from_string(&errno_message(e))),
        }
    }

    /// Joins the IPv4 group `maddr` on the interface `ifaddr`. Fails with a
    /// not-bound error exactly when the socket is not bound. On success the
    /// recorded local address becomes the interface address at the bound
    /// port; on failure the state is unchanged.
    pub fn join_multicast_v4(&mut self, maddr: &Ipv4Addr, ifaddr: &Ipv4Addr) -> (r: Result<
        (),
        Error,
    >)
        ensures
            !(old(self)@ is Bound) ==> r is Err && r->Err_0@ == not_bound_msg() && final(self)@
                == old(self)@,
            r is Ok ==> old(self)@ is Bound && final(self)@ == SockView::Bound(
                SocketAddr { ip: IpAddr::V4(*ifaddr), port: old(self)@->Bound_0.port },
            ),
            r is Err ==> final(self)@ == old(self)@,
    {
        let (fd, port) = match &self.state {
            SockState::Bound { fd, addr } => (*fd, addr.port),
            _ => {
                return Err(BindError::new());
            },
        };
        match os_join_v4(fd, maddr.octets(), ifaddr.octets()) {
            Ok(_) => {
                self.state = SockState::Bound {
                    fd,
                    addr: SocketAddr { ip: IpAddr::V4(*ifaddr), port },
                };
                Ok(())
            },
            Err(e) => Err(Error::from_string(&errno_message(e))),
        }
    }

    /// Joins the IPv6 group `maddr`; the OS picks the interface for the
    /// membership itself, and `ifaddr` is recorded as the effective local
    /// address. Fails with a not-bound error exactly when the socket is not
    /// bound. On success the recorded local address becomes the interface
    /// address at the bound port; on failure the state is unchanged.
    pub fn join_multicast_v6(&mut self, maddr: &Ipv6Addr, ifaddr: &Ipv6Addr) -> (r: Result<
        (),
        Error,
    >)
        ensures
            !(old(self)@ is Bound) ==> r is Err && r->Err_0@ == not_bound_msg() && final(self)@
                == old(self)@,
            r is Ok ==> old(self)@ is Bound && final(self)@ == SockView::Bound(
                SocketAddr { ip: IpAddr::V6(*ifaddr), port: old(self)@->Bound_0.port },
            ),
            r is Err ==> final(self)@ == old(self)@,
    {
        let (fd, port) = match &self.state {
            SockState::Bound { fd, addr } => (*fd, addr.port),
            _ => {
                return Err(BindError::new());
            },
        };
        match os_join_v6(fd, maddr.octets()) {
            Ok(_) => {
                self.state = SockState::Bound {
                    fd,
                    addr: SocketAddr { ip: IpAddr::V6(*ifaddr), port },
                };
                Ok(())
            },
            Err(e) => Err(Error::from_string(&errno_message(e))),
        }
    }
}

} // verus!
