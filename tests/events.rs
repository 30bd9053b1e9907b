use lobbyguard::addr::IpAddress;
use lobbyguard::config::GuardConfig;
use lobbyguard::events::{
    NetTCPConnection, NetUDPEndpoint, Process, ProcessCloseEvent, ProcessOpenEvent,
    TCPInstCreateEvent, TCPInstDeleteEvent, TCPInstModifyEvent, UDPInstCreateEvent,
    UDPInstDeleteEvent, UDPInstModifyEvent, on_process_created, on_process_deleted,
    on_tcp_created, on_tcp_deleted, on_tcp_modified, on_udp_created, on_udp_deleted,
    on_udp_modified, register_tcp_connections, register_udp_endpoints, track_processes,
};
use lobbyguard::index::ConnectionTracker;

fn udp(pid: u32, port: u16) -> NetUDPEndpoint {
    NetUDPEndpoint { local_port: port, owning_process: pid }
}

fn tcp(pid: u32, local: u16, remote: u16) -> NetTCPConnection {
    NetTCPConnection {
        local_port: local,
        remote_address: IpAddress::V4(0x0808_0808),
        remote_port: remote,
        owning_process: pid,
    }
}

#[test]
fn processes_tracked_by_name() {
    let c = GuardConfig::new();
    let mut t = ConnectionTracker::new();
    let game = ProcessOpenEvent { target_instance: Process { name: "gta5_enhanced.exe".to_string(), process_id: 42 } };
    let other = ProcessOpenEvent { target_instance: Process { name: "notepad.exe".to_string(), process_id: 43 } };
    assert!(on_process_created(&mut t, &c, &game));
    assert!(!on_process_created(&mut t, &c, &other));
    assert!(t.contains_process(42));
    assert!(!t.contains_process(43));
    on_udp_created(&mut t, &UDPInstCreateEvent { target_instance: udp(42, 6672) });
    assert!(t.is_tracked_udp(6672));
    on_process_deleted(&mut t, &ProcessCloseEvent { target_instance: Process { name: "x".to_string(), process_id: 42 } });
    assert!(!t.contains_process(42));
    assert!(!t.is_tracked_udp(6672));
}

#[test]
fn udp_modification_moves_endpoint() {
    let mut t = ConnectionTracker::new();
    t.add_process(7);
    on_udp_created(&mut t, &UDPInstCreateEvent { target_instance: udp(7, 5000) });
    on_udp_modified(&mut t, &UDPInstModifyEvent { previous_instance: udp(7, 5000), target_instance: udp(7, 5001) });
    assert!(!t.is_tracked_udp(5000));
    assert!(t.is_tracked_udp(5001));
    on_udp_modified(&mut t, &UDPInstModifyEvent { previous_instance: udp(7, 5001), target_instance: udp(0, 0) });
    assert!(!t.is_tracked_udp(5001));
    on_udp_created(&mut t, &UDPInstCreateEvent { target_instance: udp(8, 5002) });
    assert!(!t.is_tracked_udp(5002));
    on_udp_created(&mut t, &UDPInstCreateEvent { target_instance: udp(7, 5003) });
    on_udp_deleted(&mut t, &UDPInstDeleteEvent { target_instance: udp(7, 5003) });
    assert!(!t.is_tracked_udp(5003));
}

#[test]
fn tcp_modification_closes_connection() {
    let mut t = ConnectionTracker::new();
    t.add_process(7);
    on_tcp_created(&mut t, &TCPInstCreateEvent { target_instance: tcp(7, 50000, 443) });
    assert!(t.is_tracked_tcp(443, 50000));
    on_tcp_modified(&mut t, &TCPInstModifyEvent { previous_instance: tcp(7, 50000, 443), target_instance: tcp(0, 0, 0) });
    assert!(!t.is_tracked_tcp(443, 50000));
    on_tcp_created(&mut t, &TCPInstCreateEvent { target_instance: tcp(7, 50001, 80) });
    on_tcp_deleted(&mut t, &TCPInstDeleteEvent { target_instance: tcp(7, 50001, 80) });
    assert!(!t.is_tracked_tcp(50001, 80));
}

#[test]
fn startup_seeding() {
    let c = GuardConfig::new();
    let mut t = ConnectionTracker::new();
    let procs = vec![
        Process { name: "GTA5.exe".to_string(), process_id: 10 },
        Process { name: "explorer.exe".to_string(), process_id: 11 },
    ];
    track_processes(&mut t, &c, &procs);
    assert!(t.contains_process(10));
    assert!(!t.contains_process(11));
    register_udp_endpoints(&mut t, &vec![udp(10, 6672), udp(11, 6000), udp(10, 0)]);
    register_tcp_connections(&mut t, &vec![tcp(10, 50000, 443), tcp(11, 50001, 443)]);
    assert!(t.is_tracked_udp(6672));
    assert!(!t.is_tracked_udp(6000));
    assert!(t.is_tracked_tcp(50000, 443));
    assert!(!t.is_tracked_tcp(50001, 443));
}
