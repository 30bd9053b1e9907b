//! The packet guard's decision: whether a packet belongs to a tracked process
//! and whether the active policy lets it pass.
use vstd::prelude::*;
use crate::addr::{local_port, local_port_of};
use crate::config::{FilterMode, TARGET_UDP_PORT};
use crate::flow::{FlowKey, FlowSet, normalized_key, reversed_key};
use crate::index::ConnectionTracker;
use crate::packet::{
    PacketHeaders, Transport, ipv4_packet, packet_headers, parse_ipv4, parse_packet, parse_udp,
    udp_segment,
};

verus! {

/// Payload sizes of the game's heartbeats.
pub open spec fn is_heartbeat_size(n: usize) -> bool {
    n == 12 || n == 18 || n == 63
}

/// Payload sizes of the game's join requests.
pub open spec fn is_join_size(n: usize) -> bool {
    n == 191 || n == 207 || n == 223 || n == 239
}

/// Whether a UDP payload size is a heartbeat size.
pub fn is_heartbeat_len(n: usize) -> (r: bool)
    ensures
        r == is_heartbeat_size(n),
{
    n == 12 || n == 18 || n == 63
}

/// Whether a UDP payload size is a join-request size.
pub fn is_join_len(n: usize) -> (r: bool)
    ensures
        r == is_join_size(n),
{
    n == 191 || n == 207 || n == 223 || n == 239
}

/// Whether the policy lets a packet pass, given whether it is tracked, whether
/// it is UDP, its local port and its UDP payload size.
pub open spec fn policy_passes(
    mode: FilterMode,
    is_tracked: bool,
    is_udp: bool,
    local_port: u16,
    payload_len: usize,
) -> bool {
    !is_tracked || match mode {
        FilterMode::Solo => is_udp && local_port == TARGET_UDP_PORT && is_heartbeat_size(
            payload_len,
        ),
        FilterMode::Locked => !(is_udp && local_port == TARGET_UDP_PORT && is_join_size(
            payload_len,
        )),
        FilterMode::Disconnect => false,
    }
}

/// Applies the policy to a classified packet.
pub fn decide(mode: FilterMode, is_tracked: bool, is_udp: bool, local_port: u16, payload_len: usize) -> (r:
    bool)
    ensures
        r == policy_passes(mode, is_tracked, is_udp, local_port, payload_len),
{
    if !is_tracked {
        return true;
    }
    match mode {
        FilterMode::Solo => is_udp && local_port == TARGET_UDP_PORT && is_heartbeat_len(
            payload_len,
        ),
        FilterMode::Locked => !(is_udp && local_port == TARGET_UDP_PORT && is_join_len(
            payload_len,
        )),
        FilterMode::Disconnect => false,
    }
}

/// Whether a packet belongs to a tracked process, and the port of its local
/// side.
#[derive(Clone, Copy, Debug, PartialEq, Eq, Structural)]
pub struct Classification {
    pub is_tracked: bool,
    pub local_port: u16,
}

/// The flow of a packet, seen from its source.
pub open spec fn packet_flow(h: PacketHeaders) -> FlowKey {
    FlowKey {
        local_addr: h.src,
        local_port: h.segment.src_port,
        remote_addr: h.dst,
        remote_port: h.segment.dst_port,
    }
}

/// How a packet is classified. While flows are held, a packet is tracked
/// when its flow is held from either end, and the local side is the end that
/// matched. Otherwise the local side is the one that is not globally
/// routable, and the endpoint index decides: UDP by the local port, TCP by
/// the port pair.
pub open spec fn classification(h: PacketHeaders, t: &ConnectionTracker, f: &FlowSet) -> Classification {
    let k = packet_flow(h);
    if f.flows() != Set::<FlowKey>::empty() {
        if f.flows().contains(normalized_key(k)) {
            Classification { is_tracked: true, local_port: h.segment.src_port }
        } else if f.flows().contains(normalized_key(reversed_key(k))) {
            Classification { is_tracked: true, local_port: h.segment.dst_port }
        } else {
            Classification { is_tracked: false, local_port: 0 }
        }
    } else {
        let lp = local_port_of(h.src, h.dst, h.segment.src_port, h.segment.dst_port);
        match h.transport {
            Transport::Udp => Classification { is_tracked: t.udp_tracked(lp), local_port: lp },
            Transport::Tcp => Classification {
                is_tracked: t.tcp_tracked(h.segment.src_port, h.segment.dst_port),
                local_port: lp,
            },
        }
    }
}

/// Classifies a packet against the flow set, or the endpoint index while no
/// flow is held.
pub fn classify(h: &PacketHeaders, t: &ConnectionTracker, f: &FlowSet) -> (r: Classification)
    requires
        t.wf(),
    ensures
        r == classification(*h, t, f),
{
    let k = FlowKey {
        local_addr: h.src,
        local_port: h.segment.src_port,
        remote_addr: h.dst,
        remote_port: h.segment.dst_port,
    };
    if !f.is_empty() {
        if f.contains(k) {
            Classification { is_tracked: true, local_port: h.segment.src_port }
        } else if f.contains(crate::flow::reverse_key(k)) {
            Classification { is_tracked: true, local_port: h.segment.dst_port }
        } else {
            Classification { is_tracked: false, local_port: 0 }
        }
    } else {
        let lp = local_port(h.src, h.dst, h.segment.src_port, h.segment.dst_port);
        match h.transport {
            Transport::Udp => Classification { is_tracked: t.is_tracked_udp(lp), local_port: lp },
            Transport::Tcp => Classification {
                is_tracked: t.is_tracked_tcp(h.segment.src_port, h.segment.dst_port),
                local_port: lp,
            },
        }
    }
}

/// What the guard does with a packet: re-inject it or not, and whether it
/// belongs to a tracked process.
#[derive(Clone, Copy, Debug, PartialEq, Eq, Structural)]
pub struct Verdict {
    pub pass: bool,
    pub is_tracked: bool,
}

/// The verdict on a packet whose headers were read.
pub open spec fn verdict_of_headers(
    h: PacketHeaders,
    mode: FilterMode,
    t: &ConnectionTracker,
    f: &FlowSet,
) -> Verdict {
    let c = classification(h, t, f);
    Verdict {
        pass: policy_passes(
            mode,
            c.is_tracked,
            h.transport == Transport::Udp,
            c.local_port,
            h.segment.payload_len,
        ),
        is_tracked: c.is_tracked,
    }
}

/// The verdict on raw packet bytes: a packet whose headers cannot be read,
/// or that is neither UDP nor TCP, passes untracked.
pub open spec fn verdict_of(data: Seq<u8>, mode: FilterMode, t: &ConnectionTracker, f: &FlowSet) -> Verdict {
    match packet_headers(data) {
        Some(h) => verdict_of_headers(h, mode, t, f),
        None => Verdict { pass: true, is_tracked: false },
    }
}

/// Decides on a packet whose headers were read.
pub fn judge_headers(h: &PacketHeaders, mode: FilterMode, t: &ConnectionTracker, f: &FlowSet) -> (r:
    Verdict)
    requires
        t.wf(),
    ensures
        r == verdict_of_headers(*h, mode, t, f),
{
    let c = classify(h, t, f);
    let is_udp = match h.transport {
        Transport::Udp => true,
        Transport::Tcp => false,
    };
    Verdict {
        pass: decide(mode, c.is_tracked, is_udp, c.local_port, h.segment.payload_len),
        is_tracked: c.is_tracked,
    }
}

/// Decides on a diverted packet.
pub fn judge_packet(data: &[u8], mode: FilterMode, t: &ConnectionTracker, f: &FlowSet) -> (r: Verdict)
    requires
        t.wf(),
    ensures
        r == verdict_of(data@, mode, t, f),
{
    match parse_packet(data) {
        Some(h) => judge_headers(&h, mode, t, f),
        None => Verdict { pass: true, is_tracked: false },
    }
}

/// In Solo, a tracked UDP packet passes only as a heartbeat on the game port.
pub proof fn solo_drops_all_but_heartbeats(local_port: u16, payload_len: usize)
    requires
        !is_heartbeat_size(payload_len) || local_port != TARGET_UDP_PORT,
    ensures
        !policy_passes(FilterMode::Solo, true, true, local_port, payload_len),
{
}

/// In Locked, a tracked join request on the game port is dropped.
pub proof fn locked_drops_join_requests(local_port: u16, payload_len: usize)
    requires
        is_join_size(payload_len),
        local_port == TARGET_UDP_PORT,
    ensures
        !policy_passes(FilterMode::Locked, true, true, local_port, payload_len),
{
}

/// In Disconnect, every tracked packet is dropped.
pub proof fn disconnect_drops_tracked(is_udp: bool, local_port: u16, payload_len: usize)
    ensures
        !policy_passes(FilterMode::Disconnect, true, is_udp, local_port, payload_len),
{
}

/// An untracked packet passes under every policy.
pub proof fn untracked_passes(mode: FilterMode, is_udp: bool, local_port: u16, payload_len: usize)
    ensures
        policy_passes(mode, false, is_udp, local_port, payload_len),
{
}

/// The same packet travelling the other way: source and destination swapped.
pub open spec fn swapped_headers(h: PacketHeaders) -> PacketHeaders {
    PacketHeaders {
        src: h.dst,
        dst: h.src,
        transport: h.transport,
        segment: crate::packet::Segment {
            src_port: h.segment.dst_port,
            dst_port: h.segment.src_port,
            payload_len: h.segment.payload_len,
        },
    }
}

/// While flows are held, a packet and the packet with source and destination
/// swapped are tracked alike.
pub proof fn swapped_packets_tracked_alike(h: PacketHeaders, t: &ConnectionTracker, f: &FlowSet)
    requires
        f.flows() != Set::<FlowKey>::empty(),
    ensures
        classification(h, t, f).is_tracked == classification(swapped_headers(h), t, f).is_tracked,
{
    assert(packet_flow(swapped_headers(h)) == reversed_key(packet_flow(h)));
    crate::flow::flow_tracking_symmetric(f, packet_flow(h));
    assert(reversed_key(reversed_key(packet_flow(h))) == packet_flow(h));
}

/// Whether a packet read as IPv4 carries a UDP datagram of heartbeat size.
pub open spec fn is_heartbeat_packet(data: Seq<u8>) -> bool {
    match ipv4_packet(data) {
        Some((_, _, _, payload)) => match udp_segment(payload) {
            Some(seg) => is_heartbeat_size(seg.payload_len),
            None => false,
        },
        None => false,
    }
}

/// Whether a packet, read as IPv4, carries a UDP datagram of heartbeat size.
pub fn is_heartbeat(data: &[u8]) -> (r: bool)
    ensures
        r == is_heartbeat_packet(data@),
{
    match parse_ipv4(data) {
        Some((_, _, _, payload)) => match parse_udp(payload) {
            Some(seg) => is_heartbeat_len(seg.payload_len),
            None => false,
        },
        None => false,
    }
}

/// Life cycle of the guard's receive loop.
#[derive(Clone, Copy, Debug, PartialEq, Eq, Structural)]
pub enum GateState {
    Idle,
    Armed,
    Running,
    Stopping,
    Stopped,
}

/// What the receive loop observes.
#[derive(Clone, Copy, Debug, PartialEq, Eq, Structural)]
pub enum GateEvent {
    /// The divert handle was opened.
    HandleOpened,
    /// A packet was received.
    PacketReceived,
    /// Shutdown was asked for.
    ShutdownRequested,
    /// The handle reported its shutdown sentinel.
    ShutdownObserved,
}

/// The state after an event: the four transitions of the life cycle; any
/// other event leaves the state as it is.
pub open spec fn gate_transition(s: GateState, e: GateEvent) -> GateState {
    match (s, e) {
        (GateState::Idle, GateEvent::HandleOpened) => GateState::Armed,
        (GateState::Armed, GateEvent::PacketReceived) => GateState::Running,
        (GateState::Running, GateEvent::ShutdownRequested) => GateState::Stopping,
        (GateState::Stopping, GateEvent::ShutdownObserved) => GateState::Stopped,
        _ => s,
    }
}

impl GateState {
    /// Steps the life cycle.
    pub fn next(self, e: GateEvent) -> (r: GateState)
        ensures
            r == gate_transition(self, e),
    {
        match (self, e) {
            (GateState::Idle, GateEvent::HandleOpened) => GateState::Armed,
            (GateState::Armed, GateEvent::PacketReceived) => GateState::Running,
            (GateState::Running, GateEvent::ShutdownRequested) => GateState::Stopping,
            (GateState::Stopping, GateEvent::ShutdownObserved) => GateState::Stopped,
            _ => self,
        }
    }
}

} // verus!
