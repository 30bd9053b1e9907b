use lobbyguard::capture::{CaptureError, CapturedPacket, PacketCapture, inspect_packet};
use lobbyguard::viewer::PacketViewerModel;

fn two_packet_session() -> PacketCapture {
    let mut session = PacketCapture::new();
    session.add_packet(CapturedPacket::new(
        vec![1, 2, 3],
        true,
        "192.168.1.1".to_string(),
        "192.168.1.2".to_string(),
        5000,
        5001,
        17,
    ));
    session.add_packet(CapturedPacket::new(
        vec![1, 2],
        false,
        "192.168.1.3".to_string(),
        "192.168.1.4".to_string(),
        5002,
        5003,
        17,
    ));
    session
}

#[test]
fn test_packet_viewer_creation() {
    let session = PacketCapture::new();
    let viewer = PacketViewerModel::new(session);
    assert_eq!(viewer.selected_index(), 0);
}

#[test]
fn test_build_packet_list() {
    let mut session = PacketCapture::new();
    session.add_packet(CapturedPacket::new(
        vec![1, 2, 3],
        true,
        "192.168.1.1".to_string(),
        "192.168.1.2".to_string(),
        5000,
        5001,
        17,
    ));

    let list = PacketViewerModel::build_packet_list(&session);
    assert_eq!(list.len(), 1);
    assert!(list[0].contains("PASSED") || list[0].contains("✓"));
}

#[test]
fn test_summary_stats() {
    let session = two_packet_session();
    let viewer = PacketViewerModel::new(session);
    let summary = viewer.get_summary();
    assert!(summary.contains("Total: 2"));
    assert!(summary.contains("Passed: 1"));
    assert!(summary.contains("Rejected: 1"));
}

#[test]
fn list_lines_are_exact() {
    let list = PacketViewerModel::build_packet_list(&two_packet_session());
    assert_eq!(
        list[0],
        "[1] [PASSED] 192.168.1.1:5000 -> 192.168.1.2:5001 (size: 3 bytes, proto: 17) [3B] ✓"
    );
    assert_eq!(
        list[1],
        "[2] [REJECTED] 192.168.1.3:5002 -> 192.168.1.4:5003 (size: 2 bytes, proto: 17) [2B] ✗"
    );
}

#[test]
fn summary_is_exact() {
    let viewer = PacketViewerModel::new(two_packet_session());
    assert_eq!(viewer.get_summary(), "Total: 2 | Passed: 1 | Rejected: 1");
    assert_eq!(viewer.packet_list().len(), 2);
}

#[test]
fn details_and_selection() {
    let mut viewer = PacketViewerModel::new(two_packet_session());
    let d = viewer.get_packet_details(1).unwrap();
    assert!(d.starts_with("Packet #2\nSource: 192.168.1.3:5002\nDestination: 192.168.1.4:5003\nSize: 2 bytes\nProtocol: 17\nStatus: REJECTED\nTimestamp: "));
    assert!(viewer.get_packet_details(2).is_none());
    viewer.set_selected(1);
    assert_eq!(viewer.selected_index(), 1);
    viewer.set_selected(5);
    assert_eq!(viewer.selected_index(), 1);
    viewer.set_session(PacketCapture::new());
    assert_eq!(viewer.selected_index(), 0);
    assert_eq!(viewer.get_summary(), "Total: 0 | Passed: 0 | Rejected: 0");
}

#[test]
fn session_counts_and_end() {
    let mut s = two_packet_session();
    assert_eq!(s.total_count(), 2);
    assert_eq!(s.passed_count(), 1);
    assert_eq!(s.rejected_count(), 1);
    assert_eq!(s.packets[0].size, 3);
    assert_eq!(s.end_time, 0);
    s.end_session();
    let ended = s.end_time;
    assert!(ended >= s.start_time);
    s.end_session();
    assert_eq!(s.end_time, ended);
    assert_eq!(
        s.packets[1].description(),
        "[REJECTED] 192.168.1.3:5002 -> 192.168.1.4:5003 (size: 2 bytes, proto: 17)"
    );
}

#[test]
fn inspect_reads_heartbeats() {
    let mut p = vec![0x45, 0, 0, 46, 0, 0, 0, 0, 64, 17, 0, 0, 10, 0, 0, 1, 192, 168, 1, 20];
    p.extend_from_slice(&[0x1a, 0x10, 0xab, 0xcd, 0, 26, 0, 0]);
    p.extend(std::iter::repeat(0u8).take(18));
    let r = inspect_packet(&p).unwrap();
    assert!(r.passed);
    assert_eq!(r.src_ip, "10.0.0.1");
    assert_eq!(r.dst_ip, "192.168.1.20");
    assert_eq!(r.src_port, 6672);
    assert_eq!(r.dst_port, 0xabcd);
    assert_eq!(r.protocol, 17);
    let mut long = p.clone();
    long[3] = 47;
    long[25] = 27;
    long.push(0);
    assert!(!inspect_packet(&long).unwrap().passed);
    assert_eq!(inspect_packet(&[0x60, 0, 0]).unwrap_err(), CaptureError::IpParseFailed);
    let short = vec![0x45, 0, 0, 24, 0, 0, 0, 0, 64, 17, 0, 0, 10, 0, 0, 1, 10, 0, 0, 2, 1, 2, 3, 4];
    assert_eq!(inspect_packet(&short).unwrap_err(), CaptureError::UdpParseFailed);
}
