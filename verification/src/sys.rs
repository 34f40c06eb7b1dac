//! Trusted boundary to the OS socket layer.
//!
//! Every function here wraps one call into the `nix` crate (or converts one
//! of its values) and is believed, not verified. Sockets are carried as
//! plain file descriptors so that the verified state machines above can own
//! and reason about them as values. Nothing is assumed about the network:
//! each wrapper's contract states only what holds of every outcome.

use vstd::prelude::*;

use crate::addr::{IpAddr, Ipv4Addr, Ipv6Addr, SocketAddr};

verus! {

/// The OS error carried by every failing call of this module.
#[verifier::external_type_specification]
#[verifier::external_body]
pub struct ExErrno(nix::errno::Errno);

/// One address of a local network interface, as enumerated by the OS.
#[verifier::external_type_specification]
#[verifier::external_body]
pub struct ExInterfaceAddress(nix::ifaddrs::InterfaceAddress);

/// Relies on `nix::errno::Errno::desc`: the OS's description of the error.
#[verifier::external_body]
pub(crate) fn errno_message(e: nix::errno::Errno) -> String {
    e.desc().to_owned()
}

/// Relies on `nix::sys::socket::socket`: creates an IPv4 UDP socket and
/// returns its file descriptor.
#[verifier::external_body]
pub(crate) fn os_socket_v4() -> Result<i32, nix::errno::Errno> {
    nix::sys::socket::socket(
        nix::sys::socket::AddressFamily::Inet,
        nix::sys::socket::SockType::Datagram,
        nix::sys::socket::SockFlag::empty(),
        None,
    )
}

/// Relies on `nix::sys::socket::socket`: creates an IPv6 UDP socket and
/// returns its file descriptor.
#[verifier::external_body]
pub(crate) fn os_socket_v6() -> Result<i32, nix::errno::Errno> {
    nix::sys::socket::socket(
        nix::sys::socket::AddressFamily::Inet6,
        nix::sys::socket::SockType::Datagram,
        nix::sys::socket::SockFlag::empty(),
        None,
    )
}

/// Relies on `nix::sys::socket::setsockopt` with `ReuseAddr`: enables
/// address reuse on the socket.
#[verifier::external_body]
pub(crate) fn os_set_reuse_addr(fd: i32) -> Result<(), nix::errno::Errno> {
    nix::sys::socket::setsockopt(fd, nix::sys::socket::sockopt::ReuseAddr, &true)
}

/// Relies on `nix::sys::socket::setsockopt` with `ReusePort`: enables port
/// reuse on the socket.
#[verifier::external_body]
pub(crate) fn os_set_reuse_port(fd: i32) -> Result<(), nix::errno::Errno> {
    nix::sys::socket::setsockopt(fd, nix::sys::socket::sockopt::ReusePort, &true)
}

/// Relies on `nix::sys::socket::bind`: binds the socket to the IPv4 address
/// given by its octets and the port.
#[verifier::external_body]
pub(crate) fn os_bind_v4(fd: i32, ip: [u8; 4], port: u16) -> Result<(), nix::errno::Errno> {
    let sa = nix::sys::socket::SockaddrIn::new(ip[0], ip[1], ip[2], ip[3], port);
    nix::sys::socket::bind(fd, &sa)
}

/// Relies on `nix::sys::socket::bind`: binds the socket to the IPv6 address
/// given by its eight 16-bit groups and the port.
#[verifier::external_body]
pub(crate) fn os_bind_v6(fd: i32, ip: [u16; 8], port: u16) -> Result<(), nix::errno::Errno> {
    let text = format!(
        "[{:x}:{:x}:{:x}:{:x}:{:x}:{:x}:{:x}:{:x}]:{}",
        ip[0], ip[1], ip[2], ip[3], ip[4], ip[5], ip[6], ip[7], port,
    );
    let sa: nix::sys::socket::SockaddrIn6 = match text.parse() {
        Ok(sa) => sa,
        Err(_) => return Err(nix::errno::Errno::EINVAL),
    };
    nix::sys::socket::bind(fd, &sa)
}

/// Relies on `nix::sys::socket::sendto` on the UDP sockets this crate
/// creates: a datagram is transmitted whole or not at all (an overlong one
/// fails with no bytes sent), so a success reports exactly the buffer's
/// length.
#[verifier::external_body]
pub(crate) fn os_send_to_v4(fd: i32, buf: &[u8], ip: [u8; 4], port: u16) -> (r: Result<
    usize,
    nix::errno::Errno,
>)
    ensures
        r is Ok ==> r->Ok_0 == buf@.len(),
{
    let sa = nix::sys::socket::SockaddrIn::new(ip[0], ip[1], ip[2], ip[3], port);
    nix::sys::socket::sendto(fd, buf, &sa, nix::sys::socket::MsgFlags::empty())
}

/// Relies on `nix::sys::socket::sendto` on the UDP sockets this crate
/// creates: a datagram is transmitted whole or not at all (an overlong one
/// fails with no bytes sent), so a success reports exactly the buffer's
/// length.
#[verifier::external_body]
pub(crate) fn os_send_to_v6(fd: i32, buf: &[u8], ip: [u16; 8], port: u16) -> (r: Result<
    usize,
    nix::errno::Errno,
>)
    ensures
        r is Ok ==> r->Ok_0 == buf@.len(),
{
    let text = format!(
        "[{:x}:{:x}:{:x}:{:x}:{:x}:{:x}:{:x}:{:x}]:{}",
        ip[0], ip[1], ip[2], ip[3], ip[4], ip[5], ip[6], ip[7], port,
    );
    let sa: nix::sys::socket::SockaddrIn6 = match text.parse() {
        Ok(sa) => sa,
        Err(_) => return Err(nix::errno::Errno::EINVAL),
    };
    nix::sys::socket::sendto(fd, buf, &sa, nix::sys::socket::MsgFlags::empty())
}

/// Relies on `nix::sys::socket::recvfrom`: blocks until a datagram arrives,
/// fills the front of the buffer and reports the byte count, never more
/// than the buffer holds, with the sender's address. A sender of an unknown
/// family is reported as the unspecified IPv4 address.
#[verifier::external_body]
pub(crate) fn os_recv_from(fd: i32, buf: &mut [u8]) -> (r: Result<
    (usize, SocketAddr),
    nix::errno::Errno,
>)
    ensures
        final(buf)@.len() == old(buf)@.len(),
        r is Ok ==> r->Ok_0.0 <= old(buf)@.len(),
{
    let (n, from) = nix::sys::socket::recvfrom::<nix::sys::socket::SockaddrStorage>(fd, buf)?;
    let mut src = SocketAddr { ip: IpAddr::V4(Ipv4Addr { bits: 0 }), port: 0 };
    if let Some(ss) = from {
        if let Some(sin) = ss.as_sockaddr_in() {
            src = SocketAddr { ip: IpAddr::V4(Ipv4Addr { bits: sin.ip() }), port: sin.port() };
        } else if let Some(sin6) = ss.as_sockaddr_in6() {
            let bits = u128::from_be_bytes(sin6.ip().octets());
            src = SocketAddr { ip: IpAddr::V6(Ipv6Addr { bits }), port: sin6.port() };
        }
    }
    Ok((n, src))
}

/// Relies on `nix::sys::socket::setsockopt` with `IpAddMembership`: joins
/// the IPv4 multicast group on the interface, both given by their octets.
#[verifier::external_body]
pub(crate) fn os_join_v4(fd: i32, group: [u8; 4], iface: [u8; 4]) -> Result<
    (),
    nix::errno::Errno,
> {
    let req = nix::sys::socket::IpMembershipRequest::new(group.into(), Some(iface.into()));
    nix::sys::socket::setsockopt(fd, nix::sys::socket::sockopt::IpAddMembership, &req)
}

/// Relies on `nix::sys::socket::setsockopt` with `Ipv6AddMembership`: joins
/// the IPv6 multicast group given by its octets. `nix` fixes the interface
/// index of the membership request at zero, so the OS picks the interface.
#[verifier::external_body]
pub(crate) fn os_join_v6(fd: i32, group: [u8; 16]) -> Result<(), nix::errno::Errno> {
    let req = nix::sys::socket::Ipv6MembershipRequest::new(group.into());
    nix::sys::socket::setsockopt(fd, nix::sys::socket::sockopt::Ipv6AddMembership, &req)
}

/// Relies on `nix::sys::socket::shutdown`: shuts down both directions of
/// the socket, so a blocked receive observes the closure promptly.
#[verifier::external_body]
pub(crate) fn os_shutdown(fd: i32) -> (r: Result<(), nix::errno::Errno>)
    opens_invariants none
    no_unwind
{
    nix::sys::socket::shutdown(fd, nix::sys::socket::Shutdown::Both)
}

/// Relies on `nix::unistd::close`: releases the file descriptor.
#[verifier::external_body]
pub(crate) fn os_close(fd: i32) -> (r: Result<(), nix::errno::Errno>)
    opens_invariants none
    no_unwind
{
    nix::unistd::close(fd)
}

/// Relies on `nix::ifaddrs::getifaddrs`: enumerates the addresses of the
/// local network interfaces as the OS currently reports them.
#[verifier::external_body]
pub(crate) fn os_interfaces() -> Result<Vec<nix::ifaddrs::InterfaceAddress>, nix::errno::Errno> {
    Ok(nix::ifaddrs::getifaddrs()?.collect())
}

/// Converts one enumerated interface address to a plain address value:
/// relies on `SockaddrStorage::as_sockaddr_in` and `as_sockaddr_in6` to
/// tell the families apart. Interfaces without an IP address yield nothing.
#[verifier::external_body]
pub(crate) fn iface_ip(ia: &nix::ifaddrs::InterfaceAddress) -> Option<IpAddr> {
    let ss = ia.address.as_ref()?;
    if let Some(sin) = ss.as_sockaddr_in() {
        return Some(IpAddr::V4(Ipv4Addr { bits: sin.ip() }));
    }
    if let Some(sin6) = ss.as_sockaddr_in6() {
        return Some(IpAddr::V6(Ipv6Addr { bits: u128::from_be_bytes(sin6.ip().octets()) }));
    }
    None
}

} // verus!
