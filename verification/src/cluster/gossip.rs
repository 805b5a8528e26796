//! Health gossip between cluster nodes.
//!
//! Every node tells its peers, every few seconds, how it fares. A node
//! keeps the last report of each peer, counts a peer as gone when it has
//! been silent for too long, and judges itself isolated when too large a
//! share of its peers is gone. The reports of the healthy peers say where
//! load can be shed.

use vstd::prelude::*;
use vstd::seq_lib::{to_multiset_build, to_multiset_insert};

use crate::clock::unix_now;
use crate::text::str_eq;

verus! {

/// The version that a node reports of itself.
pub const VERSION: &'static str = "0.1.0";

/// The load, in percent, from which a peer takes no shed traffic.
pub const SHED_LOAD_LIMIT: u8 = 80;

/// One million: the threshold of isolation is given in millionths.
pub const MILLION: u32 = 1_000_000;

/// Settings of the gossip service.
#[derive(Debug)]
pub struct GossipConfig {
    /// The local address to listen on.
    pub bind_addr: String,
    /// The addresses to report to.
    pub peers: Vec<String>,
    /// Seconds between two reports.
    pub interval_secs: u64,
    /// Seconds of silence after which a peer counts as gone.
    pub peer_timeout_secs: u64,
    /// The share of peers gone, in millionths, from which this node
    /// judges itself isolated.
    pub isolation_threshold_ppm: u32,
}

impl Default for GossipConfig {
    fn default() -> (r: Self)
        ensures
            r.bind_addr@ == "0.0.0.0:9000"@,
            r.peers@.len() == 0,
            r.interval_secs == 5,
            r.peer_timeout_secs == 30,
            r.isolation_threshold_ppm == 500_000,
    {
        GossipConfig {
            bind_addr: String::from_str("0.0.0.0:9000"),
            peers: Vec::new(),
            interval_secs: 5,
            peer_timeout_secs: 30,
            isolation_threshold_ppm: 500_000,
        }
    }
}

/// What a node reports of itself.
#[derive(Debug)]
pub struct GossipPacket {
    /// The node's name.
    pub node_id: String,
    /// Processor load, in percent.
    pub cpu_load: u8,
    /// Whether the node's upstream proxy is healthy.
    pub upstream_healthy: bool,
    /// Connections that are open.
    pub active_conns: u32,
    /// How full the pool of challenges is, in percent.
    pub ammo_fill_pct: u8,
    /// The node's threat level.
    pub threat_level: u8,
    /// Unix time of the report, in seconds.
    pub timestamp: u64,
    /// The version of the software.
    pub version: String,
}

impl Clone for GossipPacket {
    fn clone(&self) -> (r: Self)
        ensures
            r == *self,
    {
        GossipPacket {
            node_id: self.node_id.clone(),
            cpu_load: self.cpu_load,
            upstream_healthy: self.upstream_healthy,
            active_conns: self.active_conns,
            ammo_fill_pct: self.ammo_fill_pct,
            threat_level: self.threat_level,
            timestamp: self.timestamp,
            version: self.version.clone(),
        }
    }
}

impl GossipPacket {
    /// The report of the given state, stamped with `timestamp`.
    pub fn new_at(
        node_id: String,
        cpu_load: u8,
        upstream_healthy: bool,
        active_conns: u32,
        ammo_fill_pct: u8,
        threat_level: u8,
        timestamp: u64,
    ) -> (p: Self)
        ensures
            p.node_id == node_id,
            p.cpu_load == cpu_load,
            p.upstream_healthy == upstream_healthy,
            p.active_conns == active_conns,
            p.ammo_fill_pct == ammo_fill_pct,
            p.threat_level == threat_level,
            p.timestamp == timestamp,
            p.version@ == VERSION@,
    {
        GossipPacket {
            node_id,
            cpu_load,
            upstream_healthy,
            active_conns,
            ammo_fill_pct,
            threat_level,
            timestamp,
            version: String::from_str(VERSION),
        }
    }

    /// Create a new report of the given state, stamped with the current
    /// time.
    pub fn new(
        node_id: String,
        cpu_load: u8,
        upstream_healthy: bool,
        active_conns: u32,
        ammo_fill_pct: u8,
        threat_level: u8,
    ) -> (p: Self)
        ensures
            p.node_id == node_id,
            p.cpu_load == cpu_load,
            p.upstream_healthy == upstream_healthy,
            p.active_conns == active_conns,
            p.ammo_fill_pct == ammo_fill_pct,
            p.threat_level == threat_level,
            p.timestamp < crate::clock::CLOCK_LIMIT,
            p.version@ == VERSION@,
    {
        let now = unix_now();
        GossipPacket::new_at(
            node_id,
            cpu_load,
            upstream_healthy,
            active_conns,
            ammo_fill_pct,
            threat_level,
            now as u64,
        )
    }
}

/// What a node knows of one peer.
#[derive(Debug)]
pub struct NodeHealth {
    /// The last report of the peer.
    pub last_packet: GossipPacket,
    /// When that report arrived, in milliseconds of the receiver's clock.
    pub last_seen: u64,
    /// Whether the peer counts as healthy.
    pub is_healthy: bool,
}

impl Clone for NodeHealth {
    fn clone(&self) -> (r: Self)
        ensures
            r == *self,
    {
        NodeHealth {
            last_packet: self.last_packet.clone(),
            last_seen: self.last_seen,
            is_healthy: self.is_healthy,
        }
    }
}

/// The position of the peer named `id` among `nodes`, or their number
/// where there is none.
pub open spec fn position_of(nodes: Seq<NodeHealth>, id: Seq<char>) -> int
    decreases nodes.len(),
{
    if nodes.len() == 0 || nodes[0].last_packet.node_id@ == id {
        0
    } else {
        1 + position_of(nodes.drop_first(), id)
    }
}

/// Whether every peer is known under one entry only, and none of them
/// is the node `own` itself.
pub open spec fn distinct_peers(nodes: Seq<NodeHealth>, own: Seq<char>) -> bool {
    &&& forall|i: int, j: int|
        0 <= i < j < nodes.len() ==> nodes[i].last_packet.node_id@ != nodes[j].last_packet.node_id@
    &&& forall|i: int| 0 <= i < nodes.len() ==> nodes[i].last_packet.node_id@ != own
}

/// What is known of the peers once `entry` has been recorded: it takes
/// the place of what was known of the same peer, or comes last.
pub open spec fn upserted(nodes: Seq<NodeHealth>, entry: NodeHealth) -> Seq<NodeHealth> {
    let i = position_of(nodes, entry.last_packet.node_id@);
    if 0 <= i < nodes.len() {
        nodes.update(i, entry)
    } else {
        nodes.push(entry)
    }
}

/// Whether a peer last heard of at `last_seen` has been silent for more
/// than `timeout_ms` at `now`.
pub open spec fn timed_out(last_seen: u64, now: u64, timeout_ms: int) -> bool {
    now - last_seen > timeout_ms
}

/// What is known of the peers after a health check at `now`: those silent
/// for too long count as unhealthy, the others are left as they are.
pub open spec fn checked(nodes: Seq<NodeHealth>, now: u64, timeout_ms: int) -> Seq<NodeHealth> {
    Seq::new(
        nodes.len(),
        |i: int|
            if timed_out(nodes[i].last_seen, now, timeout_ms) {
                NodeHealth { is_healthy: false, ..nodes[i] }
            } else {
                nodes[i]
            },
    )
}

/// The number of peers that have been silent for too long at `now`.
pub open spec fn silent_count(nodes: Seq<NodeHealth>, now: u64, timeout_ms: int) -> nat
    decreases nodes.len(),
{
    if nodes.len() == 0 {
        0
    } else {
        silent_count(nodes.drop_last(), now, timeout_ms) + if timed_out(
            nodes.last().last_seen,
            now,
            timeout_ms,
        ) {
            1nat
        } else {
            0nat
        }
    }
}

/// Whether a node of whose `total` peers `unhealthy` are gone is
/// isolated: the share of peers gone has reached the threshold.
pub open spec fn isolation(unhealthy: nat, total: nat, threshold_ppm: u32) -> bool {
    unhealthy * MILLION >= threshold_ppm * total
}

/// The judgement after a health check: with no peers it stays what it
/// was.
pub open spec fn judged(was: bool, unhealthy: nat, total: nat, threshold_ppm: u32) -> bool {
    if total > 0 {
        isolation(unhealthy, total, threshold_ppm)
    } else {
        was
    }
}

/// The last reports of the healthy peers, in the order of `nodes`.
pub open spec fn healthy_packets(nodes: Seq<NodeHealth>) -> Seq<GossipPacket>
    decreases nodes.len(),
{
    if nodes.len() == 0 {
        Seq::empty()
    } else if nodes.last().is_healthy {
        healthy_packets(nodes.drop_last()).push(nodes.last().last_packet)
    } else {
        healthy_packets(nodes.drop_last())
    }
}

/// Whether the reports are in ascending order of load.
pub open spec fn sorted_by_load(packets: Seq<GossipPacket>) -> bool {
    forall|i: int, j: int| 0 <= i <= j < packets.len() ==> packets[i].cpu_load <= packets[j].cpu_load
}

/// Whether a peer can take shed traffic: it is healthy and its load is
/// below the limit.
pub open spec fn can_take_load(h: NodeHealth) -> bool {
    h.is_healthy && h.last_packet.cpu_load < SHED_LOAD_LIMIT
}

/// What a health check found.
#[derive(Debug, Clone, Copy, PartialEq, Eq, Structural)]
pub struct HealthReport {
    /// The number of peers known.
    pub total: usize,
    /// The number of peers silent for too long.
    pub unhealthy: usize,
    /// Whether this node now judges itself isolated.
    pub isolated: bool,
    /// Whether that judgement changed with this check.
    pub changed: bool,
}

/// Watches the health of the cluster.
pub struct GossipService {
    config: GossipConfig,
    node_id: String,
    peers: Vec<NodeHealth>,
    isolated: bool,
}

impl GossipService {
    #[verifier::type_invariant]
    closed spec fn well_formed(self) -> bool {
        distinct_peers(self.peers@, self.node_id@)
    }

    /// The name of this node.
    pub closed spec fn name(&self) -> Seq<char> {
        self.node_id@
    }

    /// What is known of the peers.
    pub closed spec fn nodes(&self) -> Seq<NodeHealth> {
        self.peers@
    }

    /// Whether this node judges itself isolated.
    pub closed spec fn isolated(&self) -> bool {
        self.isolated
    }

    /// The threshold of isolation, in millionths.
    pub closed spec fn threshold_ppm(&self) -> u32 {
        self.config.isolation_threshold_ppm
    }

    /// Seconds of silence after which a peer counts as gone.
    pub closed spec fn timeout_secs(&self) -> u64 {
        self.config.peer_timeout_secs
    }

    /// The addresses to report to.
    pub closed spec fn addresses(&self) -> Vec<String> {
        self.config.peers
    }

    /// Seconds between two reports.
    pub closed spec fn interval(&self) -> u64 {
        self.config.interval_secs
    }

    /// The local address to listen on.
    pub closed spec fn listen_address(&self) -> Seq<char> {
        self.config.bind_addr@
    }

    /// Create a new gossip service, which knows no peer yet and is not
    /// isolated.
    pub fn new(config: GossipConfig, node_id: String) -> (r: Self)
        ensures
            r.name() == node_id@,
            r.nodes() == Seq::<NodeHealth>::empty(),
            !r.isolated(),
            r.threshold_ppm() == config.isolation_threshold_ppm,
            r.timeout_secs() == config.peer_timeout_secs,
            r.addresses() == config.peers,
            r.interval() == config.interval_secs,
            r.listen_address() == config.bind_addr@,
    {
        GossipService { config, node_id, peers: Vec::new(), isolated: false }
    }

    /// Get our node ID.
    pub fn node_id(&self) -> (id: &str)
        ensures
            id@ == self.name(),
    {
        self.node_id.as_str()
    }

    /// Check if we're isolated from the cluster.
    pub fn is_isolated(&self) -> (r: bool)
        ensures
            r == self.isolated(),
    {
        self.isolated
    }

    /// The addresses to report to.
    pub fn peer_addresses(&self) -> (r: &Vec<String>)
        ensures
            *r == self.addresses(),
    {
        &self.config.peers
    }

    /// Seconds between two reports.
    pub fn interval_secs(&self) -> (r: u64)
        ensures
            r == self.interval(),
    {
        self.config.interval_secs
    }

    /// The local address to listen on.
    pub fn bind_addr(&self) -> (r: &str)
        ensures
            r@ == self.listen_address(),
    {
        self.config.bind_addr.as_str()
    }

    /// Get all known peer health states.
    pub fn get_peers(&self) -> (r: Vec<NodeHealth>)
        ensures
            r@ == self.nodes(),
            distinct_peers(r@, self.name()),
    {
        proof {
            use_type_invariant(self);
        }
        let mut r: Vec<NodeHealth> = Vec::new();
        let mut i: usize = 0;
        while i < self.peers.len()
            invariant
                i <= self.peers@.len(),
                r@ == self.peers@.take(i as int),
            decreases self.peers@.len() - i,
        {
            r.push(self.peers[i].clone());
            proof {
                assert(self.peers@.take(i + 1) =~= self.peers@.take(i as int).push(
                    self.peers@[i as int],
                ));
            }
            i += 1;
        }
        proof {
            assert(self.peers@.take(i as int) =~= self.peers@);
        }
        r
    }

    /// Get the last reports of the healthy peers, sorted by load,
    /// lowest first.
    pub fn get_healthy_peers(&self) -> (r: Vec<GossipPacket>)
        ensures
            sorted_by_load(r@),
            r@.to_multiset() == healthy_packets(self.nodes()).to_multiset(),
    {
        let mut r: Vec<GossipPacket> = Vec::new();
        let mut i: usize = 0;
        proof {
            assert(self.peers@.take(0) =~= Seq::<NodeHealth>::empty());
        }
        while i < self.peers.len()
            invariant
                i <= self.peers@.len(),
                sorted_by_load(r@),
                r@.to_multiset() == healthy_packets(self.peers@.take(i as int)).to_multiset(),
            decreases self.peers@.len() - i,
        {
            proof {
                assert(self.peers@.take(i + 1).drop_last() =~= self.peers@.take(i as int));
            }
            if self.peers[i].is_healthy {
                let packet = self.peers[i].last_packet.clone();
                let mut at: usize = 0;
                while at < r.len() && r[at].cpu_load <= packet.cpu_load
                    invariant
                        at <= r@.len(),
                        forall|k: int| 0 <= k < at ==> r@[k].cpu_load <= packet.cpu_load,
                    decreases r@.len() - at,
                {
                    at += 1;
                }
                proof {
                    to_multiset_insert(r@, at as int, packet);
                    to_multiset_build(healthy_packets(self.peers@.take(i as int)), packet);
                    let next = r@.insert(at as int, packet);
                    assert forall|a: int, b: int| 0 <= a <= b < next.len() implies next[a].cpu_load
                        <= next[b].cpu_load by {
                        if a < at && b > at {
                            assert(next[a] == r@[a]);
                            assert(next[b] == r@[b - 1]);
                        } else if a < at && b < at {
                            assert(next[a] == r@[a]);
                            assert(next[b] == r@[b]);
                        } else if a > at {
                            assert(next[a] == r@[a - 1]);
                            assert(next[b] == r@[b - 1]);
                        } else if a == at && b > at {
                            assert(next[b] == r@[b - 1]);
                            assert(r@[at as int].cpu_load <= r@[b - 1].cpu_load);
                        } else if b == at && a < at {
                            assert(next[a] == r@[a]);
                        }
                    }
                }
                r.insert(at, packet);
            }
            i += 1;
        }
        proof {
            assert(self.peers@.take(i as int) =~= self.peers@);
        }
        r
    }

    /// Get the least loaded healthy peer for load shedding: a peer that
    /// can take load, and none that can is less loaded.
    pub fn get_shed_target(&self) -> (r: Option<GossipPacket>)
        ensures
            match r {
                Some(p) => exists|i: int|
                    0 <= i < self.nodes().len() && can_take_load(#[trigger] self.nodes()[i])
                        && self.nodes()[i].last_packet == p && forall|j: int|
                        0 <= j < self.nodes().len() && can_take_load(#[trigger] self.nodes()[j])
                            ==> p.cpu_load <= self.nodes()[j].last_packet.cpu_load,
                None => forall|j: int|
                    0 <= j < self.nodes().len() ==> !can_take_load(#[trigger] self.nodes()[j]),
            },
    {
        let mut best: Option<usize> = None;
        let mut i: usize = 0;
        while i < self.peers.len()
            invariant
                i <= self.peers@.len(),
                match best {
                    Some(b) => b < i && can_take_load(self.peers@[b as int]) && forall|j: int|
                        0 <= j < i && can_take_load(#[trigger] self.peers@[j])
                            ==> self.peers@[b as int].last_packet.cpu_load
                            <= self.peers@[j].last_packet.cpu_load,
                    None => forall|j: int| 0 <= j < i ==> !can_take_load(#[trigger] self.peers@[j]),
                },
            decreases self.peers@.len() - i,
        {
            let h = &self.peers[i];
            if h.is_healthy && h.last_packet.cpu_load < SHED_LOAD_LIMIT {
                match best {
                    Some(b) => {
                        if h.last_packet.cpu_load < self.peers[b].last_packet.cpu_load {
                            best = Some(i);
                        }
                    },
                    None => {
                        best = Some(i);
                    },
                }
            }
            i += 1;
        }
        match best {
            Some(b) => {
                let p = self.peers[b].last_packet.clone();
                proof {
                    assert(can_take_load(self.nodes()[b as int]));
                }
                Some(p)
            },
            None => None,
        }
    }

    /// Takes in the report `packet`, which arrived at `now_ms` of the
    /// receiver's clock. A report of this node itself is dropped; any
    /// other is recorded as the last of its peer, which counts as healthy.
    /// Returns whether the report was recorded.
    pub fn handle_packet(&mut self, packet: GossipPacket, now_ms: u64) -> (recorded: bool)
        ensures
            final(self).name() == old(self).name(),
            final(self).isolated() == old(self).isolated(),
            final(self).threshold_ppm() == old(self).threshold_ppm(),
            final(self).timeout_secs() == old(self).timeout_secs(),
            final(self).addresses() == old(self).addresses(),
            final(self).interval() == old(self).interval(),
            final(self).listen_address() == old(self).listen_address(),
            recorded == (packet.node_id@ != old(self).name()),
            recorded ==> final(self).nodes() == upserted(
                old(self).nodes(),
                NodeHealth { last_packet: packet, last_seen: now_ms, is_healthy: true },
            ),
            !recorded ==> final(self).nodes() == old(self).nodes(),
    {
        proof {
            use_type_invariant(&*self);
        }
        if str_eq(packet.node_id.as_str(), self.node_id.as_str()) {
            return false;
        }
        let mut list: Vec<NodeHealth> = Vec::new();
        std::mem::swap(&mut self.peers, &mut list);
        let mut i: usize = 0;
        proof {
            assert(list@.skip(0) =~= list@);
        }
        while i < list.len() && !str_eq(
            list[i].last_packet.node_id.as_str(),
            packet.node_id.as_str(),
        )
            invariant
                i <= list@.len(),
                forall|k: int| 0 <= k < i ==> list@[k].last_packet.node_id@ != packet.node_id@,
                position_of(list@, packet.node_id@) == i + position_of(
                    list@.skip(i as int),
                    packet.node_id@,
                ),
            decreases list@.len() - i,
        {
            proof {
                assert(list@.skip(i as int).drop_first() =~= list@.skip(i + 1));
            }
            i += 1;
        }
        let entry = NodeHealth { last_packet: packet, last_seen: now_ms, is_healthy: true };
        if i < list.len() {
            list.set(i, entry);
        } else {
            list.push(entry);
        }
        self.peers = list;
        true
    }

    /// Check peer health and isolation status at `now_ms` of the
    /// receiver's clock: peers silent for longer than the timeout count as
    /// unhealthy, and this node is isolated if their share has reached the
    /// threshold. With no peers the judgement stays.
    pub fn check_peer_health(&mut self, now_ms: u64) -> (report: HealthReport)
        ensures
            final(self).name() == old(self).name(),
            final(self).threshold_ppm() == old(self).threshold_ppm(),
            final(self).timeout_secs() == old(self).timeout_secs(),
            final(self).addresses() == old(self).addresses(),
            final(self).interval() == old(self).interval(),
            final(self).listen_address() == old(self).listen_address(),
            final(self).nodes() == checked(old(self).nodes(), now_ms, old(self).timeout_secs() * 1000),
            report.total == old(self).nodes().len(),
            report.unhealthy == silent_count(
                old(self).nodes(),
                now_ms,
                old(self).timeout_secs() * 1000,
            ),
            report.isolated == judged(
                old(self).isolated(),
                report.unhealthy as nat,
                report.total as nat,
                old(self).threshold_ppm(),
            ),
            final(self).isolated() == report.isolated,
            report.changed == (report.isolated != old(self).isolated()),
    {
        proof {
            use_type_invariant(&*self);
        }
        let timeout = self.config.peer_timeout_secs;
        let mut before: Vec<NodeHealth> = Vec::new();
        std::mem::swap(&mut self.peers, &mut before);
        let mut after: Vec<NodeHealth> = Vec::new();
        let total = before.len();
        let mut unhealthy: usize = 0;
        proof {
            assert(before@.take(0) =~= Seq::<NodeHealth>::empty());
        }
        for h in it: before
            invariant
                it.seq() == before@,
                before@ == old(self).nodes(),
                before@.len() == total,
                self.node_id == old(self).node_id,
                self.isolated == old(self).isolated,
                self.config == old(self).config,
                timeout == self.config.peer_timeout_secs,
                self.peers@.len() == 0,
                after@.len() == it.index(),
                unhealthy <= it.index(),
                unhealthy == silent_count(before@.take(it.index() as int), now_ms, timeout * 1000),
                forall|k: int|
                    0 <= k < it.index() ==> after@[k] == checked(
                        before@,
                        now_ms,
                        timeout * 1000,
                    )[k],
        {
            let ghost k = it.index() as int;
            proof {
                assert(k < before@.len());
                assert(before@.take(k + 1).drop_last() =~= before@.take(k));
            }
            let mut h = h;
            let silent = now_ms > h.last_seen && ((now_ms - h.last_seen) / 1000 > timeout || ((now_ms
                - h.last_seen) / 1000 == timeout && (now_ms - h.last_seen) % 1000 > 0));
            if silent {
                h.is_healthy = false;
                unhealthy += 1;
            }
            after.push(h);
        }
        proof {
            assert(before@.take(total as int) =~= before@);
            assert(after@ =~= checked(before@, now_ms, timeout * 1000));
        }
        self.peers = after;
        let was = self.isolated;
        proof {
            let ppm = self.config.isolation_threshold_ppm;
            assert(unhealthy * MILLION <= 0xffff_ffff_ffff_ffff * 0xffff_ffff) by (nonlinear_arith)
                requires
                    0 <= unhealthy <= 0xffff_ffff_ffff_ffff,
                    MILLION <= 0xffff_ffff,
            ;
            assert(ppm * total <= 0xffff_ffff * 0xffff_ffff_ffff_ffff) by (nonlinear_arith)
                requires
                    0 <= total <= 0xffff_ffff_ffff_ffff,
                    0 <= ppm <= 0xffff_ffff,
            ;
        }
        if total > 0 {
            self.isolated = (unhealthy as u128) * (MILLION as u128) >= (
            self.config.isolation_threshold_ppm as u128) * (total as u128);
        }
        HealthReport { total, unhealthy, isolated: self.isolated, changed: self.isolated != was }
    }
}

/// The judgement of isolation goes by the share of peers gone: it holds
/// from the threshold on, so that losing more peers never lifts it and
/// a peer's return never brings it about, and a return that takes the
/// share below the threshold lifts it.
pub proof fn lemma_isolation_threshold(unhealthy: nat, fewer: nat, total: nat, threshold_ppm: u32)
    requires
        total > 0,
        fewer <= unhealthy <= total,
    ensures
        isolation(unhealthy, total, threshold_ppm) <==> unhealthy * MILLION >= threshold_ppm
            * total,
        isolation(fewer, total, threshold_ppm) ==> isolation(unhealthy, total, threshold_ppm),
        fewer * MILLION < threshold_ppm * total ==> !isolation(fewer, total, threshold_ppm),
        threshold_ppm <= MILLION ==> isolation(total, total, threshold_ppm),
        threshold_ppm > 0 ==> !isolation(0, total, threshold_ppm),
{
    assert(fewer * MILLION <= unhealthy * MILLION) by (nonlinear_arith)
        requires
            fewer <= unhealthy,
    ;
    assert(threshold_ppm <= MILLION ==> threshold_ppm * total <= total * MILLION) by (nonlinear_arith);
    assert(threshold_ppm > 0 ==> threshold_ppm * total > 0) by (nonlinear_arith)
        requires
            total > 0,
    ;
}

} // verus!
