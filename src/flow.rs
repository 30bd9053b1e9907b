//! The flow set: normalised 4-tuples of flows that tracked processes opened.
use vstd::prelude::*;
use dashmap::DashSet;
use crate::addr::{IpAddress, normalized, normalize_ip};
use crate::index::ConnectionTracker;

verus! {

/// A transport flow, seen from its local end.
#[derive(Clone, Copy, Debug, PartialEq, Eq, Hash, Structural)]
pub struct FlowKey {
    pub local_addr: IpAddress,
    pub local_port: u16,
    pub remote_addr: IpAddress,
    pub remote_port: u16,
}

/// The key with both addresses normalised.
pub open spec fn normalized_key(k: FlowKey) -> FlowKey {
    FlowKey {
        local_addr: normalized(k.local_addr),
        local_port: k.local_port,
        remote_addr: normalized(k.remote_addr),
        remote_port: k.remote_port,
    }
}

/// The same flow seen from its other end.
pub open spec fn reversed_key(k: FlowKey) -> FlowKey {
    FlowKey {
        local_addr: k.remote_addr,
        local_port: k.remote_port,
        remote_addr: k.local_addr,
        remote_port: k.local_port,
    }
}

/// Normalises both addresses of a flow key.
pub fn normalize_key(k: FlowKey) -> (r: FlowKey)
    ensures
        r == normalized_key(k),
{
    FlowKey {
        local_addr: normalize_ip(k.local_addr),
        local_port: k.local_port,
        remote_addr: normalize_ip(k.remote_addr),
        remote_port: k.remote_port,
    }
}

/// Swaps the two ends of a flow key.
pub fn reverse_key(k: FlowKey) -> (r: FlowKey)
    ensures
        r == reversed_key(k),
{
    FlowKey {
        local_addr: k.remote_addr,
        local_port: k.remote_port,
        remote_addr: k.local_addr,
        remote_port: k.local_port,
    }
}

pub uninterp spec fn flow_members(s: DashSet<FlowKey>) -> Set<FlowKey>;

/// Relies on `DashSet::new`: a new set is empty.
#[verifier::external_body]
fn flow_set_new() -> (r: DashSet<FlowKey>)
    ensures
        flow_members(r) == Set::<FlowKey>::empty(),
{
    DashSet::new()
}

/// Relies on `DashSet::insert`: the key is a member afterwards, the rest stay.
#[verifier::external_body]
fn flow_set_insert(s: &mut DashSet<FlowKey>, k: FlowKey)
    ensures
        flow_members(*final(s)) == flow_members(*old(s)).insert(k),
{
    s.insert(k);
}

/// Relies on `DashSet::remove`: the key is no member afterwards, the rest
/// stay; the result says whether it was one.
#[verifier::external_body]
fn flow_set_remove(s: &mut DashSet<FlowKey>, k: FlowKey) -> (r: bool)
    ensures
        flow_members(*final(s)) == flow_members(*old(s)).remove(k),
        r == flow_members(*old(s)).contains(k),
{
    s.remove(&k).is_some()
}

/// Relies on `DashSet::contains`: membership of the key.
#[verifier::external_body]
fn flow_set_contains(s: &DashSet<FlowKey>, k: FlowKey) -> (r: bool)
    ensures
        r == flow_members(*s).contains(k),
{
    s.contains(&k)
}

/// Relies on `DashSet::is_empty`: whether the set has no member.
#[verifier::external_body]
fn flow_set_is_empty(s: &DashSet<FlowKey>) -> (r: bool)
    ensures
        r == (flow_members(*s) == Set::<FlowKey>::empty()),
{
    s.is_empty()
}

/// Flows of tracked processes, keyed by their normalised 4-tuple.
pub struct FlowSet {
    flows: DashSet<FlowKey>,
}

impl FlowSet {
    /// The flows held.
    pub closed spec fn flows(&self) -> Set<FlowKey> {
        flow_members(self.flows)
    }

    /// Every key held is normalised.
    pub open spec fn wf(&self) -> bool {
        forall|k: FlowKey| #[trigger] self.flows().contains(k) ==> normalized_key(k) == k
    }

    /// Whether a flow, seen from either end, is held.
    pub open spec fn tracks(&self, k: FlowKey) -> bool {
        self.flows().contains(normalized_key(k)) || self.flows().contains(
            normalized_key(reversed_key(k)),
        )
    }

    /// An empty flow set.
    pub fn new() -> (r: Self)
        ensures
            r.wf(),
            r.flows() == Set::<FlowKey>::empty(),
    {
        FlowSet { flows: flow_set_new() }
    }

    /// A flow was established by process `pid`: it is held when that process
    /// is tracked.
    pub fn flow_established(&mut self, k: FlowKey, pid: u32, tracker: &ConnectionTracker) -> (r: bool)
        requires
            old(self).wf(),
        ensures
            final(self).wf(),
            r == tracker.pids().contains(pid),
            final(self).flows() == if r {
                old(self).flows().insert(normalized_key(k))
            } else {
                old(self).flows()
            },
    {
        if tracker.contains_process(pid) {
            let n = normalize_key(k);
            flow_set_insert(&mut self.flows, n);
            proof {
                crate::addr::normalize_idempotent(k.local_addr);
                crate::addr::normalize_idempotent(k.remote_addr);
                assert(self.flows() == old(self).flows().insert(n));
            }
            true
        } else {
            false
        }
    }

    /// A flow was deleted: it is no longer held, whoever opened it. The
    /// result says whether it was held.
    pub fn flow_deleted(&mut self, k: FlowKey) -> (r: bool)
        requires
            old(self).wf(),
        ensures
            final(self).wf(),
            r == old(self).flows().contains(normalized_key(k)),
            final(self).flows() == old(self).flows().remove(normalized_key(k)),
    {
        let n = normalize_key(k);
        let r = flow_set_remove(&mut self.flows, n);
        assert(self.flows() == old(self).flows().remove(n));
        r
    }

    /// Whether no flow is held.
    pub fn is_empty(&self) -> (r: bool)
        ensures
            r == (self.flows() == Set::<FlowKey>::empty()),
    {
        flow_set_is_empty(&self.flows)
    }

    /// Whether the normalised flow is held.
    pub fn contains(&self, k: FlowKey) -> (r: bool)
        ensures
            r == self.flows().contains(normalized_key(k)),
    {
        flow_set_contains(&self.flows, normalize_key(k))
    }

    /// Whether a flow is held, probing both directions.
    pub fn is_tracked(&self, k: FlowKey) -> (r: bool)
        ensures
            r == self.tracks(k),
    {
        self.contains(k) || self.contains(reverse_key(k))
    }
}

/// A flow taken from a packet and the flow with its ends swapped are tracked
/// alike.
pub proof fn flow_tracking_symmetric(f: &FlowSet, k: FlowKey)
    ensures
        f.tracks(k) == f.tracks(reversed_key(k)),
{
    assert(reversed_key(reversed_key(k)) == k);
}

} // verus!
