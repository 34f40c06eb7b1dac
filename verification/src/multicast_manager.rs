//! The coordinator owning one multicast server per viable local interface.
//!
//! Starting enumerates the local interfaces, keeps those whose family
//! matches at least one requested group address, and brings up one server
//! per kept interface, bound to the first matching group. Any failure
//! aborts the whole start: every server brought up so far is stopped and
//! the manager stays not-running. The manager is running exactly while its
//! server collection is non-empty.

use vstd::prelude::*;

use crate::addr::{same_family, IpAddr};
use crate::error::Error;
use crate::interface::get_all_interfaces;
use crate::multicast_server::MulticastServer;
use crate::observer::Observer;
use crate::packet::Packet;
use crate::receiver::PacketReceiver;

verus! {

/// Whether any of the requested group addresses matches the family of the
/// interface address.
pub open spec fn has_match(ifaddr: IpAddr, maddrs: Seq<IpAddr>) -> bool {
    exists|j: int| 0 <= j < maddrs.len() && same_family(maddrs[j], ifaddr)
}

/// The interfaces a start keeps, in enumeration order: those with a group
/// address of matching family. A successful start brings up one server per
/// entry, in this order.
pub open spec fn viable_interfaces(ifaddrs: Seq<IpAddr>, maddrs: Seq<IpAddr>) -> Seq<IpAddr>
    decreases ifaddrs.len(),
{
    if ifaddrs.len() == 0 {
        Seq::empty()
    } else {
        let prefix = viable_interfaces(ifaddrs.drop_last(), maddrs);
        if has_match(ifaddrs.last(), maddrs) {
            prefix.push(ifaddrs.last())
        } else {
            prefix
        }
    }
}

/// `m` is the first of the group addresses whose family matches the
/// interface address.
pub open spec fn first_match_is(ifaddr: IpAddr, maddrs: Seq<IpAddr>, m: IpAddr) -> bool {
    exists|j: int|
        0 <= j < maddrs.len() && maddrs[j] == m && same_family(m, ifaddr) && (forall|l: int|
            0 <= l < j ==> !same_family(#[trigger] maddrs[l], ifaddr))
}

/// What a successful start establishes of each server it brought up: bound
/// to its interface at the requested port, running, joined to the first
/// group address whose family matches that interface, and with no
/// observers yet.
pub open spec fn started_server_ok<O: Observer>(
    s: MulticastServer<O>,
    maddrs: Seq<IpAddr>,
    ifaddr: IpAddr,
    port: u16,
) -> bool {
    &&& s.sock() is Bound
    &&& s.sock()->Bound_0.ip == ifaddr
    &&& s.sock()->Bound_0.port == port
    &&& s.is_running()
    &&& s.observers().len() == 0
    &&& s.group_port() == port
    &&& first_match_is(ifaddr, maddrs, s.group())
}

/// One step of `viable_interfaces` along a growing prefix of the
/// interfaces.
proof fn lemma_viable_interfaces_step(ifaddrs: Seq<IpAddr>, maddrs: Seq<IpAddr>, i: int)
    requires
        0 <= i < ifaddrs.len(),
    ensures
        viable_interfaces(ifaddrs.take(i + 1), maddrs) == if has_match(ifaddrs[i], maddrs) {
            viable_interfaces(ifaddrs.take(i), maddrs).push(ifaddrs[i])
        } else {
            viable_interfaces(ifaddrs.take(i), maddrs)
        },
{
    assert(ifaddrs.take(i + 1).drop_last() =~= ifaddrs.take(i));
    assert(ifaddrs.take(i + 1).last() == ifaddrs[i]);
}

/// `viable_interfaces` never shrinks as the interface list grows.
proof fn lemma_viable_interfaces_prefix(ifaddrs: Seq<IpAddr>, maddrs: Seq<IpAddr>, i: int)
    requires
        0 <= i <= ifaddrs.len(),
    ensures
        viable_interfaces(ifaddrs.take(i), maddrs).len() <= viable_interfaces(
            ifaddrs,
            maddrs,
        ).len(),
    decreases ifaddrs.len() - i,
{
    if i == ifaddrs.len() {
        assert(ifaddrs.take(i) =~= ifaddrs);
    } else {
        lemma_viable_interfaces_step(ifaddrs, maddrs, i);
        lemma_viable_interfaces_prefix(ifaddrs, maddrs, i + 1);
    }
}

/// The index of the first group address whose family matches the
/// interface, if any matches at all.
fn find_first_match(ifaddr: IpAddr, maddrs: &Vec<IpAddr>) -> (r: Option<usize>)
    ensures
        r is Some ==> r->Some_0 < maddrs@.len() && same_family(maddrs@[r->Some_0 as int], ifaddr)
            && (forall|l: int|
            0 <= l < r->Some_0 ==> !same_family(#[trigger] maddrs@[l], ifaddr)),
        r is None ==> !has_match(ifaddr, maddrs@),
{
    let len = maddrs.len();
    let mut j: usize = 0;
    while j < len
        invariant
            j <= len,
            len == maddrs@.len(),
            forall|l: int| 0 <= l < j ==> !same_family(#[trigger] maddrs@[l], ifaddr),
        decreases len - j,
    {
        if maddrs[j].is_ipv4() == ifaddr.is_ipv4() {
            return Some(j);
        }
        j += 1;
    }
    None
}

/// The coordinator owning one multicast server per viable interface.
pub struct MulticastManager<O: Observer> {
    mcast_servers: Vec<MulticastServer<O>>,
}

/// Stops every server in the list and empties it: the rollback used when a
/// start fails halfway, so no socket stays bound.
fn stop_all<O: Observer>(servers: &mut Vec<MulticastServer<O>>)
    ensures
        final(servers)@.len() == 0,
{
    while servers.len() > 0
        decreases servers@.len(),
    {
        let mut s = servers.pop().unwrap();
        let _ = s.stop();
    }
}

impl<O: Observer + Clone> MulticastManager<O> {
    /// The held servers, in the order their interfaces were enumerated.
    pub closed spec fn servers(&self) -> Seq<MulticastServer<O>> {
        self.mcast_servers@
    }

    /// A new manager holding no servers: not running.
    pub fn new() -> (r: MulticastManager<O>)
        ensures
            r.servers().len() == 0,
    {
        MulticastManager { mcast_servers: Vec::new() }
    }

    /// Registers the observer on every held server, in order; never loses
    /// a registration and always succeeds. Each server receives its own
    /// clone of the observer.
    pub fn add_observer(&mut self, observer: O) -> (r: bool)
        ensures
            r == true,
            final(self).servers().len() == old(self).servers().len(),
            forall|k: int|
                0 <= k < final(self).servers().len() ==> {
                    let s = #[trigger] final(self).servers()[k];
                    let os = old(self).servers()[k];
                    &&& s.observers().len() == os.observers().len() + 1
                    &&& s.sock() == os.sock()
                    &&& s.group() == os.group()
                    &&& s.group_port() == os.group_port()
                    &&& s.is_running() == os.is_running()
                },
    {
        let len = self.mcast_servers.len();
        let mut k: usize = 0;
        while k < len
            invariant
                k <= len,
                len == self.mcast_servers@.len(),
                forall|l: int|
                    k <= l < len ==> #[trigger] self.mcast_servers@[l] == old(self).mcast_servers@[l],
                forall|l: int|
                    0 <= l < k ==> {
                        let s = #[trigger] self.mcast_servers@[l];
                        let os = old(self).mcast_servers@[l];
                        &&& s.observers().len() == os.observers().len() + 1
                        &&& s.sock() == os.sock()
                        &&& s.group() == os.group()
                        &&& s.group_port() == os.group_port()
                        &&& s.is_running() == os.is_running()
                    },
            decreases len - k,
        {
            let _ = self.mcast_servers[k].add_observer(observer.clone());
            k += 1;
        }
        true
    }

    /// Sends the packet through every held server's send path, in order,
    /// stopping at the first failure; with no servers held there is
    /// nothing to send and the call succeeds.
    pub fn notify(&self, msg: &Packet) -> (r: Result<(), Error>)
        ensures
            self.servers().len() == 0 ==> r is Ok,
            r is Err ==> self.servers().len() != 0,
            r is Ok ==> forall|k: int|
                0 <= k < self.servers().len() ==> (#[trigger] self.servers()[k]).sock() is Bound,
    {
        let len = self.mcast_servers.len();
        let mut k: usize = 0;
        while k < len
            invariant
                k <= len,
                len == self.servers().len(),
                forall|l: int| 0 <= l < k ==> (#[trigger] self.servers()[l]).sock() is Bound,
            decreases len - k,
        {
            if let Err(e) = self.mcast_servers[k].notify(msg) {
                return Err(e);
            }
            k += 1;
        }
        Ok(())
    }

    /// True exactly while the manager holds servers.
    pub fn is_running(&self) -> (r: bool)
        ensures
            r == (self.servers().len() != 0),
    {
        self.mcast_servers.len() != 0
    }

    /// True if some held server listens on the given interface address.
    pub fn has_interface(&self, addr: IpAddr) -> (r: bool)
        ensures
            r == exists|k: int|
                0 <= k < self.servers().len() && (#[trigger] self.servers()[k]).sock() is Bound
                    && self.servers()[k].sock()->Bound_0.ip == addr,
    {
        let len = self.mcast_servers.len();
        let mut k: usize = 0;
        while k < len
            invariant
                k <= len,
                len == self.servers().len(),
                forall|l: int|
                    0 <= l < k ==> !((#[trigger] self.servers()[l]).sock() is Bound
                        && self.servers()[l].sock()->Bound_0.ip == addr),
            decreases len - k,
        {
            match self.mcast_servers[k].ifaddr() {
                Ok(sa) => {
                    if sa.ip() == addr {
                        return true;
                    }
                },
                Err(_) => {},
            }
            k += 1;
        }
        false
    }

    /// Starts one server per interface whose family some requested group
    /// address matches, using the given interface list: the k-th new
    /// server listens on the k-th such interface. A start while already
    /// running is a no-op that succeeds with no new receivers. On success
    /// the returned receivers, one per new server in the same order, are
    /// what the caller's background threads loop on; received packets go
    /// back through [`Self::deliver`]. A start over interfaces with no
    /// family match succeeds and leaves the manager not-running. Any bind
    /// or join failure stops every server brought up so far and leaves the
    /// manager not-running.
    pub fn start_on_interfaces(
        &mut self,
        maddrs: &Vec<IpAddr>,
        port: u16,
        ifaddrs: &Vec<IpAddr>,
    ) -> (r: Result<Vec<PacketReceiver>, Error>)
        ensures
            old(self).servers().len() != 0 ==> r is Ok && r->Ok_0@.len() == 0 && *final(self) == *old(self),
            old(self).servers().len() == 0 && viable_interfaces(ifaddrs@, maddrs@).len() == 0
                ==> r is Ok && final(self).servers().len() == 0,
            r is Ok && old(self).servers().len() == 0 ==> {
                let vif = viable_interfaces(ifaddrs@, maddrs@);
                &&& final(self).servers().len() == vif.len()
                &&& r->Ok_0@.len() == vif.len()
                &&& forall|k: int|
                    0 <= k < vif.len() ==> started_server_ok(
                        #[trigger] final(self).servers()[k],
                        maddrs@,
                        vif[k],
                        port,
                    )
            },
            r is Err ==> final(self).servers().len() == 0,
    {
        if self.mcast_servers.len() != 0 {
            return Ok(Vec::new());
        }
        let mut servers: Vec<MulticastServer<O>> = Vec::new();
        let mut receivers: Vec<PacketReceiver> = Vec::new();
        let len = ifaddrs.len();
        let mut i: usize = 0;
        while i < len
            invariant
                i <= len,
                len == ifaddrs@.len(),
                self.mcast_servers@.len() == 0,
                servers@.len() == viable_interfaces(ifaddrs@.take(i as int), maddrs@).len(),
                receivers@.len() == servers@.len(),
                forall|k: int|
                    0 <= k < servers@.len() ==> started_server_ok(
                        #[trigger] servers@[k],
                        maddrs@,
                        viable_interfaces(ifaddrs@.take(i as int), maddrs@)[k],
                        port,
                    ),
            decreases len - i,
        {
            let ifaddr = ifaddrs[i];
            proof {
                lemma_viable_interfaces_step(ifaddrs@, maddrs@, i as int);
            }
            match find_first_match(ifaddr, maddrs) {
                None => {},
                Some(j) => {
                    proof {
                        lemma_viable_interfaces_prefix(ifaddrs@, maddrs@, i as int + 1);
                    }
                    let mut server: MulticastServer<O> = MulticastServer::new();
                    if let Err(e) = server.bind(maddrs[j], port, ifaddr) {
                        let _ = server.stop();
                        stop_all(&mut servers);
                        return Err(e);
                    }
                    match server.start() {
                        Ok(rx) => {
                            servers.push(server);
                            receivers.push(rx);
                        },
                        Err(e) => {
                            let _ = server.stop();
                            stop_all(&mut servers);
                            return Err(e);
                        },
                    }
                },
            }
            i += 1;
        }
        proof {
            assert(ifaddrs@.take(len as int) =~= ifaddrs@);
        }
        self.mcast_servers = servers;
        Ok(receivers)
    }

    /// Starts one server per currently enumerable local interface whose
    /// family some requested group address matches; see
    /// [`Self::start_on_interfaces`], which this calls on the list the OS
    /// reports right now.
    pub fn start(&mut self, maddrs: &Vec<IpAddr>, port: u16) -> (r: Result<
        Vec<PacketReceiver>,
        Error,
    >)
        ensures
            old(self).servers().len() != 0 ==> r is Ok && r->Ok_0@.len() == 0 && *final(self) == *old(self),
            r is Ok && old(self).servers().len() == 0 ==> {
                let srvs = final(self).servers();
                r->Ok_0@.len() == srvs.len() && forall|k: int|
                    0 <= k < srvs.len() ==> (#[trigger] srvs[k]).sock() is Bound
                        && srvs[k].is_running() && srvs[k].sock()->Bound_0.port == port
            },
            r is Err ==> final(self).servers().len() == 0,
    {
        if self.mcast_servers.len() != 0 {
            return Ok(Vec::new());
        }
        let ifaddrs = get_all_interfaces();
        self.start_on_interfaces(maddrs, port, &ifaddrs)
    }

    /// Broadcasts a packet received by the receive loop of the server at
    /// `index` to that server's observers; returns how many observers were
    /// notified, exactly the number registered there, or fails when no
    /// server sits at `index`.
    pub fn deliver(&self, index: usize, pkt: &Packet) -> (r: Result<usize, Error>)
        ensures
            index < self.servers().len() ==> r is Ok && r->Ok_0 == self.servers()[
                index as int
            ].observers().len(),
            index >= self.servers().len() ==> r is Err,
    {
        if index >= self.mcast_servers.len() {
            return Err(Error::from_str("no server at this index"));
        }
        Ok(self.mcast_servers[index].deliver(pkt))
    }

    /// Stops every held server — closing its socket ends its receive loop
    /// — and clears the collection, so the manager is not running
    /// afterwards. Always succeeds, also when called twice.
    pub fn stop(&mut self) -> (r: Result<(), Error>)
        ensures
            r is Ok,
            final(self).servers().len() == 0,
    {
        stop_all(&mut self.mcast_servers);
        Ok(())
    }
}

} // verus!
