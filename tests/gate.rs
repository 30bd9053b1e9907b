use lobbyguard::addr::IpAddress;
use lobbyguard::config::FilterMode;
use lobbyguard::flow::{FlowKey, FlowSet};
use lobbyguard::gate::{
    GateEvent, GateState, Verdict, decide, is_heartbeat, is_heartbeat_len, is_join_len,
    judge_packet,
};
use lobbyguard::index::ConnectionTracker;
use lobbyguard::packet::{Transport, parse_packet};

fn ipv4_udp(src: [u8; 4], sport: u16, dst: [u8; 4], dport: u16, payload_len: usize) -> Vec<u8> {
    let udp_len = 8 + payload_len;
    let total = 20 + udp_len;
    let mut p = vec![0x45, 0, (total >> 8) as u8, total as u8, 0, 0, 0, 0, 64, 17, 0, 0];
    p.extend_from_slice(&src);
    p.extend_from_slice(&dst);
    p.extend_from_slice(&sport.to_be_bytes());
    p.extend_from_slice(&dport.to_be_bytes());
    p.extend_from_slice(&(udp_len as u16).to_be_bytes());
    p.extend_from_slice(&[0, 0]);
    p.extend(std::iter::repeat(0xabu8).take(payload_len));
    p
}

fn ipv4_tcp(src: [u8; 4], sport: u16, dst: [u8; 4], dport: u16, payload_len: usize) -> Vec<u8> {
    let total = 20 + 20 + payload_len;
    let mut p = vec![0x45, 0, (total >> 8) as u8, total as u8, 0, 0, 0, 0, 64, 6, 0, 0];
    p.extend_from_slice(&src);
    p.extend_from_slice(&dst);
    p.extend_from_slice(&sport.to_be_bytes());
    p.extend_from_slice(&dport.to_be_bytes());
    p.extend_from_slice(&[0, 0, 0, 1, 0, 0, 0, 0, 0x50, 0x18, 0xff, 0xff, 0, 0, 0, 0]);
    p.extend(std::iter::repeat(0xcdu8).take(payload_len));
    p
}

fn ipv6_udp(src: u128, sport: u16, dst: u128, dport: u16, payload_len: usize) -> Vec<u8> {
    let udp_len = 8 + payload_len;
    let mut p = vec![0x60, 0, 0, 0];
    p.extend_from_slice(&(udp_len as u16).to_be_bytes());
    p.extend_from_slice(&[17, 64]);
    p.extend_from_slice(&src.to_be_bytes());
    p.extend_from_slice(&dst.to_be_bytes());
    p.extend_from_slice(&sport.to_be_bytes());
    p.extend_from_slice(&dport.to_be_bytes());
    p.extend_from_slice(&(udp_len as u16).to_be_bytes());
    p.extend_from_slice(&[0, 0]);
    p.extend(std::iter::repeat(0u8).take(payload_len));
    p
}

fn tracker_on_6672() -> ConnectionTracker {
    let mut t = ConnectionTracker::new();
    t.add_process(1234);
    t.add_udp_endpoint(1234, 6672);
    t
}

const SRC: [u8; 4] = [198, 51, 100, 9];
const DST: [u8; 4] = [192, 0, 2, 7];

#[test]
fn heartbeat_passes_in_solo() {
    let t = tracker_on_6672();
    let f = FlowSet::new();
    let p = ipv4_udp(SRC, 6672, DST, 44001, 18);
    let v = judge_packet(&p, FilterMode::Solo, &t, &f);
    assert_eq!(v, Verdict { pass: true, is_tracked: true });
}

#[test]
fn matchmaking_dropped_in_solo() {
    let t = tracker_on_6672();
    let f = FlowSet::new();
    let p = ipv4_udp(SRC, 6672, DST, 44001, 207);
    let v = judge_packet(&p, FilterMode::Solo, &t, &f);
    assert_eq!(v, Verdict { pass: false, is_tracked: true });
}

#[test]
fn locked_drops_join_passes_heartbeat() {
    let t = tracker_on_6672();
    let f = FlowSet::new();
    let join = ipv4_udp(SRC, 6672, DST, 44001, 207);
    assert!(!judge_packet(&join, FilterMode::Locked, &t, &f).pass);
    let hb = ipv4_udp(SRC, 6672, DST, 44001, 12);
    assert!(judge_packet(&hb, FilterMode::Locked, &t, &f).pass);
    let other = ipv4_udp(SRC, 6672, DST, 44001, 100);
    assert!(judge_packet(&other, FilterMode::Locked, &t, &f).pass);
}

#[test]
fn untracked_udp_passes_in_disconnect() {
    let t = tracker_on_6672();
    let f = FlowSet::new();
    let p = ipv4_udp(SRC, 9000, DST, 44001, 207);
    let v = judge_packet(&p, FilterMode::Disconnect, &t, &f);
    assert_eq!(v, Verdict { pass: true, is_tracked: false });
    let owned = ipv4_udp(SRC, 6672, DST, 44001, 18);
    assert!(!judge_packet(&owned, FilterMode::Disconnect, &t, &f).pass);
}

#[test]
fn local_side_picked_from_destination() {
    let t = tracker_on_6672();
    let f = FlowSet::new();
    let p = ipv4_udp([8, 8, 8, 8], 44001, [192, 168, 1, 5], 6672, 207);
    assert_eq!(judge_packet(&p, FilterMode::Solo, &t, &f), Verdict { pass: false, is_tracked: true });
    let both_global = ipv4_udp([8, 8, 8, 8], 6672, [1, 1, 1, 1], 6672, 207);
    assert_eq!(
        judge_packet(&both_global, FilterMode::Solo, &t, &f),
        Verdict { pass: true, is_tracked: false }
    );
}

#[test]
fn tracked_tcp_by_policy() {
    let mut t = ConnectionTracker::new();
    t.add_process(1234);
    t.add_tcp_connection(1234, 50000, 443);
    let f = FlowSet::new();
    let p = ipv4_tcp([192, 168, 1, 5], 50000, [8, 8, 8, 8], 443, 10);
    assert_eq!(judge_packet(&p, FilterMode::Solo, &t, &f), Verdict { pass: false, is_tracked: true });
    assert_eq!(judge_packet(&p, FilterMode::Locked, &t, &f), Verdict { pass: true, is_tracked: true });
    assert_eq!(
        judge_packet(&p, FilterMode::Disconnect, &t, &f),
        Verdict { pass: false, is_tracked: true }
    );
}

#[test]
fn unparsable_packet_passes() {
    let t = tracker_on_6672();
    let f = FlowSet::new();
    assert_eq!(judge_packet(&[1, 2, 3], FilterMode::Disconnect, &t, &f), Verdict { pass: true, is_tracked: false });
    let mut p = ipv4_udp(SRC, 6672, DST, 44001, 18);
    p[9] = 1;
    assert_eq!(judge_packet(&p, FilterMode::Disconnect, &t, &f), Verdict { pass: true, is_tracked: false });
}

#[test]
fn parse_reads_ports_and_payload() {
    let p = ipv4_udp(SRC, 6672, DST, 44001, 18);
    let h = parse_packet(&p).unwrap();
    assert_eq!(h.src, IpAddress::V4(0xc633_6409));
    assert_eq!(h.dst, IpAddress::V4(0xc000_0207));
    assert_eq!(h.transport, Transport::Udp);
    assert_eq!(h.segment.src_port, 6672);
    assert_eq!(h.segment.dst_port, 44001);
    assert_eq!(h.segment.payload_len, 18);
    let t = ipv4_tcp(SRC, 50000, DST, 443, 7);
    let h = parse_packet(&t).unwrap();
    assert_eq!(h.transport, Transport::Tcp);
    assert_eq!(h.segment.src_port, 50000);
    assert_eq!(h.segment.dst_port, 443);
    assert_eq!(h.segment.payload_len, 7);
}

#[test]
fn ipv6_packets_are_judged() {
    let t = tracker_on_6672();
    let f = FlowSet::new();
    let local = 0xfd00_0000_0000_0000_0000_0000_0000_0002u128;
    let remote = 0x2606_4700_0000_0000_0000_0000_0000_1111u128;
    let p = ipv6_udp(local, 6672, remote, 44001, 207);
    let h = parse_packet(&p).unwrap();
    assert_eq!(h.src, IpAddress::V6(local));
    assert_eq!(judge_packet(&p, FilterMode::Solo, &t, &f), Verdict { pass: false, is_tracked: true });
    let hb = ipv6_udp(local, 6672, remote, 44001, 63);
    assert!(judge_packet(&hb, FilterMode::Solo, &t, &f).pass);
}

#[test]
fn flow_set_decides_when_populated() {
    let t = tracker_on_6672();
    let mut f = FlowSet::new();
    let key = FlowKey {
        local_addr: IpAddress::V6(0xffff_c0a8_0105),
        local_port: 6672,
        remote_addr: IpAddress::V4(0x0808_0808),
        remote_port: 44001,
    };
    assert!(f.flow_established(key, 1234, &t));
    let outbound = ipv4_udp([192, 168, 1, 5], 6672, [8, 8, 8, 8], 44001, 207);
    assert_eq!(judge_packet(&outbound, FilterMode::Solo, &t, &f), Verdict { pass: false, is_tracked: true });
    let inbound = ipv4_udp([8, 8, 8, 8], 44001, [192, 168, 1, 5], 6672, 18);
    assert_eq!(judge_packet(&inbound, FilterMode::Solo, &t, &f), Verdict { pass: true, is_tracked: true });
    let stranger = ipv4_udp([192, 168, 1, 5], 6672, [8, 8, 4, 4], 44001, 207);
    assert_eq!(judge_packet(&stranger, FilterMode::Solo, &t, &f), Verdict { pass: true, is_tracked: false });
}

#[test]
fn flows_of_untracked_processes_are_ignored() {
    let t = tracker_on_6672();
    let mut f = FlowSet::new();
    let key = FlowKey {
        local_addr: IpAddress::V4(1),
        local_port: 1,
        remote_addr: IpAddress::V4(2),
        remote_port: 2,
    };
    assert!(!f.flow_established(key, 99, &t));
    assert!(f.is_empty());
    assert!(f.flow_established(key, 1234, &t));
    assert!(!f.is_empty());
    let rev = FlowKey {
        local_addr: IpAddress::V4(2),
        local_port: 2,
        remote_addr: IpAddress::V4(1),
        remote_port: 1,
    };
    assert!(f.is_tracked(key));
    assert!(f.is_tracked(rev));
    assert!(f.flow_deleted(key));
    assert!(!f.flow_deleted(key));
    assert!(f.is_empty());
}

#[test]
fn policy_table() {
    assert!(!decide(FilterMode::Solo, true, true, 6672, 207));
    assert!(!decide(FilterMode::Solo, true, true, 5000, 18));
    assert!(decide(FilterMode::Solo, true, true, 6672, 12));
    assert!(!decide(FilterMode::Solo, true, false, 6672, 12));
    assert!(!decide(FilterMode::Locked, true, true, 6672, 239));
    assert!(decide(FilterMode::Locked, true, true, 5000, 239));
    assert!(!decide(FilterMode::Disconnect, true, true, 6672, 12));
    for mode in [FilterMode::Solo, FilterMode::Locked, FilterMode::Disconnect] {
        assert!(decide(mode, false, true, 6672, 207));
        assert!(decide(mode, false, false, 0, 0));
    }
}

#[test]
fn size_sets() {
    for n in [12, 18, 63] {
        assert!(is_heartbeat_len(n));
    }
    for n in [191, 207, 223, 239] {
        assert!(is_join_len(n));
        assert!(!is_heartbeat_len(n));
    }
    assert!(!is_join_len(190));
}

#[test]
fn test_heartbeat_sizes_constant() {
    assert!(is_heartbeat_len(12));
    assert!(is_heartbeat_len(18));
    assert!(is_heartbeat_len(63));
}

#[test]
fn heartbeat_packets_recognised() {
    assert!(is_heartbeat(&ipv4_udp(SRC, 1, DST, 2, 63)));
    assert!(!is_heartbeat(&ipv4_udp(SRC, 1, DST, 2, 64)));
    assert!(!is_heartbeat(&[0x45]));
}

#[test]
fn gate_life_cycle() {
    let s = GateState::Idle;
    assert_eq!(s.next(GateEvent::PacketReceived), GateState::Idle);
    let s = s.next(GateEvent::HandleOpened);
    assert_eq!(s, GateState::Armed);
    let s = s.next(GateEvent::PacketReceived);
    assert_eq!(s, GateState::Running);
    assert_eq!(s.next(GateEvent::PacketReceived), GateState::Running);
    let s = s.next(GateEvent::ShutdownRequested);
    assert_eq!(s, GateState::Stopping);
    let s = s.next(GateEvent::ShutdownObserved);
    assert_eq!(s, GateState::Stopped);
}
