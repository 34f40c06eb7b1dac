use std::cell::RefCell;
use std::rc::Rc;

use cybergarage::addr::{IpAddr, Ipv4Addr, Ipv6Addr, SocketAddr};
use cybergarage::error::{BindError, Error, ScoketError};
use cybergarage::interface::get_all_interfaces;
use cybergarage::multicast_manager::MulticastManager;
use cybergarage::multicast_server::MulticastServer;
use cybergarage::observer::Observer;
use cybergarage::packet::Packet;
use cybergarage::udp_socket::UdpSocket;
use cybergarage::unicast_manager::UnicastManager;
use cybergarage::unicast_server::UnicastServer;

#[derive(Clone)]
struct TestNotifyCounter {
    counter: Rc<RefCell<i32>>,
}

impl TestNotifyCounter {
    fn new(counter: Rc<RefCell<i32>>) -> TestNotifyCounter {
        TestNotifyCounter { counter }
    }
}

impl Observer for TestNotifyCounter {
    fn packet_received(&self, _pkt: &Packet) {
        *self.counter.borrow_mut() += 1;
    }
}

fn loopback() -> IpAddr {
    IpAddr::V4(Ipv4Addr::new(127, 0, 0, 1))
}

/// An address of the TEST-NET-3 block, never assigned to this host.
fn non_local() -> IpAddr {
    IpAddr::V4(Ipv4Addr::new(203, 0, 113, 1))
}

fn multicast_v4() -> IpAddr {
    IpAddr::V4(Ipv4Addr::new(224, 0, 23, 0))
}

fn multicast_v6() -> IpAddr {
    IpAddr::V6(Ipv6Addr::new(0xFF02, 0, 0, 0, 0, 0, 0, 1))
}

#[test]
fn socket_bind_close_rebind() {
    // Address reuse: bind, immediate close, bind the same address again.
    let addr = SocketAddr::new(loopback(), 35601);
    let mut sock = UdpSocket::new();
    assert!(sock.bind(addr).is_ok());
    assert_eq!(sock.addr().unwrap(), addr);
    sock.close();
    assert!(sock.bind(addr).is_ok());
    assert_eq!(sock.addr().unwrap(), addr);
    sock.close();

    // And the same with a fresh socket value.
    let mut sock2 = UdpSocket::new();
    assert!(sock2.bind(addr).is_ok());
    sock2.close();
}

#[test]
fn socket_not_bound_errors() {
    // A never-bound socket always fails with a not-bound error, without
    // blocking and without panicking.
    let sock = UdpSocket::new();
    let dest = SocketAddr::new(loopback(), 35602);
    let err = sock.send_to(&[1, 2, 3], dest).unwrap_err();
    assert_eq!(err.message(), "socket is not bound");
    let mut buf = [0u8; 16];
    let err = sock.recv_from(&mut buf).unwrap_err();
    assert_eq!(err.message(), "socket is not bound");
    assert!(sock.addr().is_err());

    // An already-closed socket fails the same way.
    let mut sock = UdpSocket::new();
    assert!(sock.bind(SocketAddr::new(loopback(), 35602)).is_ok());
    sock.close();
    let err = sock.send_to(&[1], dest).unwrap_err();
    assert_eq!(err.message(), "socket is not bound");
    let err = sock.recv_from(&mut buf).unwrap_err();
    assert_eq!(err.message(), "socket is not bound");

    // Closing twice stays a safe no-op.
    sock.close();
    sock.close();
}

#[test]
fn unicast_roundtrip_loopback() {
    // A packet built from [0x00] sent to a bound server on loopback is
    // received with the same payload, tagged with the sender's address.
    // Some build sandboxes refuse to route even loopback datagrams; there
    // the send reports the OS error and the delivery cannot be observed.
    let counter = Rc::new(RefCell::new(0));

    let mut server: UnicastServer<TestNotifyCounter> = UnicastServer::new();
    assert!(server.add_observer(TestNotifyCounter::new(counter.clone())));
    assert!(server.bind(loopback(), 35603).is_ok());
    let receiver = server.start().unwrap();

    let mut sender: UnicastServer<TestNotifyCounter> = UnicastServer::new();
    assert!(sender.bind(loopback(), 35604).is_ok());

    let mut pkt = Packet::new();
    pkt.set_bytes(vec![0u8; 1]);
    let server_addr = server.ifaddr().unwrap();
    assert_eq!(server_addr, SocketAddr::new(loopback(), 35603));
    match sender.send(server_addr, &pkt) {
        Ok(n) => {
            assert_eq!(n, 1);

            let received = receiver.receive().unwrap();
            assert_eq!(received.bytes().as_slice(), &[0x00]);
            let source = received.from().unwrap();
            assert_eq!(source, sender.ifaddr().unwrap());

            // Exactly one notification per registered observer.
            assert_eq!(server.deliver(&received), 1);
            assert_eq!(*counter.borrow(), 1);
        },
        Err(e) => {
            assert!(!e.message().is_empty());
        },
    }

    // Stopping closes the socket, and the receiver's next read fails,
    // which is how the background loop terminates.
    assert!(server.stop().is_ok());
    assert!(receiver.receive().is_err());
    assert!(sender.stop().is_ok());
}

#[test]
fn observer_fanout() {
    // Every registered observer is notified exactly once per delivery,
    // and registrations are never lost.
    let counter = Rc::new(RefCell::new(0));
    let mut server: UnicastServer<TestNotifyCounter> = UnicastServer::new();
    for _ in 0..5 {
        assert!(server.add_observer(TestNotifyCounter::new(counter.clone())));
    }
    let pkt = Packet::from_bytes(vec![7, 7]);
    assert_eq!(server.deliver(&pkt), 5);
    assert_eq!(*counter.borrow(), 5);
    assert_eq!(server.deliver(&pkt), 5);
    assert_eq!(*counter.borrow(), 10);
}

#[test]
fn start_runs_once() {
    // A server is started exactly once: a second start while running is
    // rejected, and a stopped server cannot be restarted.
    let mut server: UnicastServer<TestNotifyCounter> = UnicastServer::new();
    assert!(server.bind(loopback(), 35616).is_ok());
    assert!(server.start().is_ok());
    let err = server.start().unwrap_err();
    assert_eq!(err.message(), "server is already running");
    assert!(server.stop().is_ok());
    let err = server.start().unwrap_err();
    assert_eq!(err.message(), "socket is not bound");
}

#[test]
fn stop_is_idempotent() {
    // Stopping twice never panics and the second call still succeeds.
    let mut server: UnicastServer<TestNotifyCounter> = UnicastServer::new();
    assert!(server.bind(loopback(), 35605).is_ok());
    assert!(server.start().is_ok());
    assert!(server.stop().is_ok());
    assert!(server.stop().is_ok());

    let mut mserver: MulticastServer<TestNotifyCounter> = MulticastServer::new();
    assert!(mserver.stop().is_ok());
    assert!(mserver.stop().is_ok());

    let mut manager: MulticastManager<TestNotifyCounter> = MulticastManager::new();
    assert!(manager.stop().is_ok());
    assert!(manager.stop().is_ok());
    assert!(!manager.is_running());
}

#[test]
fn multicast_manager_no_viable_interfaces() {
    // With no interface matching any requested group's family the start
    // succeeds and the manager stays not-running.
    let mut manager: MulticastManager<TestNotifyCounter> = MulticastManager::new();
    let maddrs = vec![multicast_v6()];
    let ifaddrs = vec![loopback()];
    let receivers = manager.start_on_interfaces(&maddrs, 35606, &ifaddrs).unwrap();
    assert!(receivers.is_empty());
    assert!(!manager.is_running());

    // No requested groups at all: nothing is viable either.
    let receivers = manager.start_on_interfaces(&Vec::new(), 35606, &ifaddrs).unwrap();
    assert!(receivers.is_empty());
    assert!(!manager.is_running());

    // An idle manager sends nothing, successfully, holds no interface, and
    // still accepts observers.
    assert!(manager.notify(&Packet::new()).is_ok());
    assert!(!manager.has_interface(loopback()));
    let counter = Rc::new(RefCell::new(0));
    assert!(manager.add_observer(TestNotifyCounter::new(counter)));
}

#[test]
fn multicast_manager_on_loopback() {
    // Whether the loopback interface accepts a multicast join depends on
    // the host; the manager's state must match the outcome either way.
    let counter = Rc::new(RefCell::new(0));
    let mut manager: MulticastManager<TestNotifyCounter> = MulticastManager::new();
    let maddrs = vec![multicast_v6(), multicast_v4()];
    let ifaddrs = vec![loopback()];
    match manager.start_on_interfaces(&maddrs, 35613, &ifaddrs) {
        Ok(receivers) => {
            assert_eq!(receivers.len(), 1);
            assert!(manager.is_running());
            assert!(manager.has_interface(loopback()));
            assert!(!manager.has_interface(non_local()));

            assert!(manager.add_observer(TestNotifyCounter::new(counter.clone())));
            assert_eq!(manager.deliver(0, &Packet::new()).unwrap(), 1);
            assert_eq!(*counter.borrow(), 1);
        },
        Err(_) => {
            assert!(!manager.is_running());
        },
    }
    assert!(manager.stop().is_ok());
    assert!(!manager.is_running());
}

#[test]
fn multicast_manager_bind_failure_rollback() {
    // A join on an interface this host does not have fails, and the
    // manager ends not-running.
    let mut manager: MulticastManager<TestNotifyCounter> = MulticastManager::new();
    let maddrs = vec![multicast_v4()];
    let ifaddrs = vec![non_local()];
    assert!(manager.start_on_interfaces(&maddrs, 35607, &ifaddrs).is_err());
    assert!(!manager.is_running());
}

#[test]
fn unicast_manager_rollback_releases_sockets() {
    // On an ordinary host the second interface cannot be bound, so the
    // whole start fails, the manager ends not-running, and the first
    // server's socket was closed: the port can be bound again at once.
    // A sandbox that permits non-local binds makes the start succeed
    // instead; then the manager runs one server per interface.
    let mut manager: UnicastManager<TestNotifyCounter> = UnicastManager::new();

    // With no interfaces at all there is nothing to bind: the start
    // succeeds and the manager stays not-running.
    let receivers = manager.start_on_interfaces(35608, &Vec::new()).unwrap();
    assert!(receivers.is_empty());
    assert!(!manager.is_running());

    let ifaddrs = vec![loopback(), non_local()];
    match manager.start_on_interfaces(35608, &ifaddrs) {
        Err(_) => {
            assert!(!manager.is_running());

            let mut sock = UdpSocket::new();
            assert!(sock.bind(SocketAddr::new(loopback(), 35608)).is_ok());
            sock.close();
        },
        Ok(receivers) => {
            assert_eq!(receivers.len(), 2);
            assert!(manager.is_running());
            assert!(manager.stop().is_ok());
            assert!(!manager.is_running());
        },
    }
}

#[test]
fn unicast_manager_start_and_stop() {
    let mut manager: UnicastManager<TestNotifyCounter> = UnicastManager::new();
    let counter = Rc::new(RefCell::new(0));
    let ifaddrs = vec![loopback()];
    let receivers = manager.start_on_interfaces(35609, &ifaddrs).unwrap();
    assert_eq!(receivers.len(), 1);
    assert!(manager.is_running());

    // A second start while running is a no-op that succeeds.
    let receivers2 = manager.start_on_interfaces(35609, &ifaddrs).unwrap();
    assert!(receivers2.is_empty());

    assert!(manager.add_observer(TestNotifyCounter::new(counter.clone())));
    assert_eq!(manager.deliver(0, &Packet::new()).unwrap(), 1);
    assert_eq!(*counter.borrow(), 1);
    assert!(manager.deliver(1, &Packet::new()).is_err());

    assert!(manager.stop().is_ok());
    assert!(!manager.is_running());
}

#[test]
fn multicast_family_mismatch_rejected() {
    // A group and an interface of different families are never joined.
    let mut server: MulticastServer<TestNotifyCounter> = MulticastServer::new();
    assert!(server.bind(multicast_v6(), 35610, loopback()).is_err());
    assert!(!server.is_bound());

    let mut server: MulticastServer<TestNotifyCounter> = MulticastServer::new();
    assert!(server
        .bind(multicast_v4(), 35610, IpAddr::V6(Ipv6Addr::new(0, 0, 0, 0, 0, 0, 0, 1)))
        .is_err());
    assert!(!server.is_bound());

    // A never-bound multicast server cannot send.
    let err = server.notify(&Packet::new()).unwrap_err();
    assert_eq!(err.message(), "socket is not bound");
    assert!(server.ifaddr().is_err());
}

#[test]
fn multicast_server_on_loopback() {
    // Whether the loopback interface accepts a multicast join depends on
    // the host; either way the server's state must match the outcome.
    let mut server: MulticastServer<TestNotifyCounter> = MulticastServer::new();
    match server.bind(multicast_v4(), 35611, loopback()) {
        Ok(()) => {
            assert!(server.is_bound());
            assert_eq!(server.ifaddr().unwrap(), SocketAddr::new(loopback(), 35611));
            assert!(server.start().is_ok());
        },
        Err(_) => {
            assert!(!server.is_bound());
        },
    }
    assert!(server.stop().is_ok());
    assert!(!server.is_bound());
}

#[test]
fn packet_accessors() {
    let mut pkt = Packet::new();
    assert!(pkt.bytes().is_empty());
    assert!(pkt.from().is_none());

    pkt.set_bytes(vec![1, 2, 3]);
    assert_eq!(pkt.bytes().as_slice(), &[1, 2, 3]);

    let src = SocketAddr::new(loopback(), 8);
    pkt.set_from(src);
    assert_eq!(pkt.from(), Some(src));

    let pkt2 = Packet::from_bytes(vec![9]);
    assert_eq!(pkt2.bytes().as_slice(), &[9]);
    assert!(pkt2.from().is_none());

    let pkt3 = pkt2.clone();
    assert_eq!(pkt3.bytes().as_slice(), &[9]);
}

#[test]
fn socket_bind_v6_wildcard() {
    // Binding the IPv6 wildcard works wherever the host has IPv6 enabled;
    // the socket's recorded state must match the outcome either way.
    let addr = SocketAddr::new(IpAddr::V6(Ipv6Addr::unspecified()), 35614);
    let mut sock = UdpSocket::new();
    match sock.bind(addr) {
        Ok(()) => {
            assert_eq!(sock.addr().unwrap(), addr);
            sock.close();
            assert!(sock.addr().is_err());
        },
        Err(e) => {
            assert!(!e.message().is_empty());
            assert!(sock.addr().is_err());
        },
    }
}

#[test]
fn socket_addr_text() {
    let sa = SocketAddr::new(loopback(), 35601);
    assert_eq!(sa.text(), "127.000.000.001:35601");
    let sa = SocketAddr::new(multicast_v6(), 3610);
    assert_eq!(sa.text(), "[FF02:0000:0000:0000:0000:0000:0000:0001]:03610");
}

#[test]
fn error_constructors() {
    let e = Error::from_str("boom");
    assert_eq!(e.message(), "boom");
    let e = Error::from_string(&String::from("kaboom"));
    assert_eq!(e.message(), "kaboom");
    let e = ScoketError::new("socket trouble");
    assert_eq!(e.message(), "socket trouble");
    let e = BindError::new();
    assert_eq!(e.message(), "socket is not bound");

    // A failed bind names the attempted address; whether this host refuses
    // a non-local bind depends on its configuration.
    let mut sock = UdpSocket::new();
    if let Err(e) = sock.bind(SocketAddr::new(non_local(), 35615)) {
        assert!(e.message().starts_with("could not bind to 203.000.113.001:35615: "));
    }
    sock.close();

    // A failing OS call reports the OS's description of the error: a
    // multicast join on an interface this host does not have fails.
    let mut sock = UdpSocket::new();
    assert!(sock.bind(SocketAddr::new(loopback(), 35612)).is_ok());
    let group = Ipv4Addr::new(224, 0, 23, 0);
    let iface = Ipv4Addr::new(203, 0, 113, 1);
    let err = sock.join_multicast_v4(&group, &iface).unwrap_err();
    assert!(!err.message().is_empty());
    sock.close();
}

#[test]
fn interfaces_enumerate() {
    // The list is whatever the OS reports; every entry is one of the two
    // families.
    let ifaddrs = get_all_interfaces();
    for ifaddr in ifaddrs {
        assert!(ifaddr.is_ipv4() || ifaddr.is_ipv6());
    }
}
