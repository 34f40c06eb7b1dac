//! The coordinator owning one unicast server per local interface.
//!
//! The structural analogue of the multicast manager, thinner: starting
//! binds one unicast server to every enumerated interface address at the
//! requested port, with the same all-or-nothing rollback, and the manager
//! is running exactly while its server collection is non-empty.

use vstd::prelude::*;

use crate::addr::IpAddr;
use crate::error::Error;
use crate::interface::get_all_interfaces;
use crate::observer::Observer;
use crate::packet::Packet;
use crate::receiver::PacketReceiver;
use crate::unicast_server::UnicastServer;

verus! {

/// What a successful start establishes of each server it brought up:
/// bound to its enumerated interface at the requested port, running, and
/// with no observers yet.
pub open spec fn started_unicast_ok<O: Observer>(
    s: UnicastServer<O>,
    ifaddr: IpAddr,
    port: u16,
) -> bool {
    &&& s.sock() is Bound
    &&& s.sock()->Bound_0.ip == ifaddr
    &&& s.sock()->Bound_0.port == port
    &&& s.is_running()
    &&& s.observers().len() == 0
}

/// Stops every server in the list and empties it: the rollback used when a
/// start fails halfway, so no socket stays bound.
fn stop_all<O: Observer>(servers: &mut Vec<UnicastServer<O>>)
    ensures
        final(servers)@.len() == 0,
{
    while servers.len() > 0
        decreases servers@.len(),
    {
        let mut s = servers.pop().unwrap();
        let _ = s.stop();
    }
}

/// The coordinator owning one unicast server per interface.
pub struct UnicastManager<O: Observer> {
    ucast_servers: Vec<UnicastServer<O>>,
}

impl<O: Observer + Clone> UnicastManager<O> {
    /// The held servers, in the order their interfaces were enumerated.
    pub closed spec fn servers(&self) -> Seq<UnicastServer<O>> {
        self.ucast_servers@
    }

    /// A new manager holding no servers: not running.
    pub fn new() -> (r: UnicastManager<O>)
        ensures
            r.servers().len() == 0,
    {
        UnicastManager { ucast_servers: Vec::new() }
    }

    /// Registers the observer on every held server, in order; never loses
    /// a registration and always succeeds. Each server receives its own
    /// clone of the observer.
    pub fn add_observer(&mut self, observer: O) -> (r: bool)
        ensures
            r == true,
            final(self).servers().len() == old(self).servers().len(),
            forall|k: int|
                0 <= k < final(self).servers().len() ==> {
                    let s = #[trigger] final(self).servers()[k];
                    let os = old(self).servers()[k];
                    &&& s.observers().len() == os.observers().len() + 1
                    &&& s.sock() == os.sock()
                    &&& s.is_running() == os.is_running()
                },
    {
        let len = self.ucast_servers.len();
        let mut k: usize = 0;
        while k < len
            invariant
                k <= len,
                len == self.ucast_servers@.len(),
                forall|l: int|
                    k <= l < len ==> #[trigger] self.ucast_servers@[l] == old(self).ucast_servers@[l],
                forall|l: int|
                    0 <= l < k ==> {
                        let s = #[trigger] self.ucast_servers@[l];
                        let os = old(self).ucast_servers@[l];
                        &&& s.observers().len() == os.observers().len() + 1
                        &&& s.sock() == os.sock()
                        &&& s.is_running() == os.is_running()
                    },
            decreases len - k,
        {
            let _ = self.ucast_servers[k].add_observer(observer.clone());
            k += 1;
        }
        true
    }

    /// True exactly while the manager holds servers.
    pub fn is_running(&self) -> (r: bool)
        ensures
            r == (self.servers().len() != 0),
    {
        self.ucast_servers.len() != 0
    }

    /// Starts one server per given interface address, bound there at
    /// `port`. A start while already running is a no-op that succeeds with
    /// no new receivers. On success the returned receivers, one per new
    /// server in the same order, are what the caller's background threads
    /// loop on; received packets go back through [`Self::deliver`]. Any
    /// bind failure stops every server brought up so far and leaves the
    /// manager not-running.
    pub fn start_on_interfaces(&mut self, port: u16, ifaddrs: &Vec<IpAddr>) -> (r: Result<
        Vec<PacketReceiver>,
        Error,
    >)
        ensures
            old(self).servers().len() != 0 ==> r is Ok && r->Ok_0@.len() == 0 && *final(self)
                == *old(self),
            old(self).servers().len() == 0 && ifaddrs@.len() == 0 ==> r is Ok
                && final(self).servers().len() == 0,
            r is Ok && old(self).servers().len() == 0 ==> final(self).servers().len()
                == ifaddrs@.len() && r->Ok_0@.len() == ifaddrs@.len() && forall|k: int|
                0 <= k < ifaddrs@.len() ==> started_unicast_ok(
                    #[trigger] final(self).servers()[k],
                    ifaddrs@[k],
                    port,
                ),
            r is Err ==> final(self).servers().len() == 0,
    {
        if self.ucast_servers.len() != 0 {
            return Ok(Vec::new());
        }
        let mut servers: Vec<UnicastServer<O>> = Vec::new();
        let mut receivers: Vec<PacketReceiver> = Vec::new();
        let len = ifaddrs.len();
        let mut i: usize = 0;
        while i < len
            invariant
                i <= len,
                len == ifaddrs@.len(),
                self.ucast_servers@.len() == 0,
                servers@.len() == i,
                receivers@.len() == i,
                forall|k: int|
                    0 <= k < i ==> started_unicast_ok(#[trigger] servers@[k], ifaddrs@[k], port),
            decreases len - i,
        {
            let mut server: UnicastServer<O> = UnicastServer::new();
            if let Err(e) = server.bind(ifaddrs[i], port) {
                let _ = server.stop();
                stop_all(&mut servers);
                return Err(e);
            }
            match server.start() {
                Ok(rx) => {
                    servers.push(server);
                    receivers.push(rx);
                },
                Err(e) => {
                    let _ = server.stop();
                    stop_all(&mut servers);
                    return Err(e);
                },
            }
            i += 1;
        }
        self.ucast_servers = servers;
        Ok(receivers)
    }

    /// Starts one server per currently enumerable local interface; see
    /// [`Self::start_on_interfaces`], which this calls on the list the OS
    /// reports right now.
    pub fn start(&mut self, port: u16) -> (r: Result<Vec<PacketReceiver>, Error>)
        ensures
            old(self).servers().len() != 0 ==> r is Ok && r->Ok_0@.len() == 0 && *final(self)
                == *old(self),
            r is Ok && old(self).servers().len() == 0 ==> {
                let srvs = final(self).servers();
                r->Ok_0@.len() == srvs.len() && forall|k: int|
                    0 <= k < srvs.len() ==> (#[trigger] srvs[k]).sock() is Bound
                        && srvs[k].is_running() && srvs[k].sock()->Bound_0.port == port
            },
            r is Err ==> final(self).servers().len() == 0,
    {
        if self.ucast_servers.len() != 0 {
            return Ok(Vec::new());
        }
        let ifaddrs = get_all_interfaces();
        self.start_on_interfaces(port, &ifaddrs)
    }

    /// Broadcasts a packet received by the receive loop of the server at
    /// `index` to that server's observers; returns how many observers were
    /// notified, exactly the number registered there, or fails when no
    /// server sits at `index`.
    pub fn deliver(&self, index: usize, pkt: &Packet) -> (r: Result<usize, Error>)
        ensures
            index < self.servers().len() ==> r is Ok && r->Ok_0 == self.servers()[
                index as int
            ].observers().len(),
            index >= self.servers().len() ==> r is Err,
    {
        if index >= self.ucast_servers.len() {
            return Err(Error::from_str("no server at this index"));
        }
        Ok(self.ucast_servers[index].deliver(pkt))
    }

    /// Stops every held server — closing its socket ends its receive loop
    /// — and clears the collection, so the manager is not running
    /// afterwards. Always succeeds, also when called twice.
    pub fn stop(&mut self) -> (r: Result<(), Error>)
        ensures
            r is Ok,
            final(self).servers().len() == 0,
    {
        stop_all(&mut self.ucast_servers);
        Ok(())
    }
}

} // verus!
