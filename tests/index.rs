use lobbyguard::index::ConnectionTracker;

#[test]
fn process_removal_purges_endpoints() {
    let mut t = ConnectionTracker::new();
    t.add_process(1234);
    t.add_udp_endpoint(1234, 6672);
    t.add_tcp_connection(1234, 50000, 443);
    assert!(t.is_tracked_udp(6672));
    assert!(t.is_tracked_tcp(50000, 443));
    t.remove_process(1234);
    assert!(!t.is_tracked_udp(6672));
    assert!(!t.is_tracked_tcp(50000, 443));
    assert!(!t.contains_process(1234));
}

#[test]
fn removal_keeps_other_processes() {
    let mut t = ConnectionTracker::new();
    t.add_process(1);
    t.add_process(2);
    t.add_udp_endpoint(1, 1000);
    t.add_udp_endpoint(2, 2000);
    t.remove_process(1);
    assert!(!t.is_tracked_udp(1000));
    assert!(t.is_tracked_udp(2000));
    t.add_process(1);
    assert!(!t.is_tracked_udp(1000));
}

#[test]
fn port_pair_symmetry() {
    let mut t = ConnectionTracker::new();
    t.add_process(1234);
    t.add_tcp_connection(1234, 50000, 443);
    assert!(t.is_tracked_tcp(443, 50000));
    assert!(t.is_tracked_tcp(50000, 443));
    assert!(!t.is_tracked_tcp(443, 50001));
}

#[test]
fn zero_fields_are_ignored() {
    let mut t = ConnectionTracker::new();
    t.add_process(1234);
    t.add_process(0);
    t.add_udp_endpoint(0, 6672);
    t.add_udp_endpoint(1234, 0);
    t.add_tcp_connection(1234, 0, 443);
    t.add_tcp_connection(1234, 50000, 0);
    t.add_tcp_connection(0, 50000, 443);
    assert!(!t.is_tracked_udp(6672));
    assert!(!t.is_tracked_udp(0));
    assert!(!t.is_tracked_tcp(50000, 443));
    assert!(!t.is_tracked_tcp(0, 443));
}

#[test]
fn untracked_owner_is_not_registered() {
    let mut t = ConnectionTracker::new();
    t.add_udp_endpoint(77, 6672);
    t.add_tcp_connection(77, 50000, 443);
    assert!(!t.is_tracked_udp(6672));
    t.add_process(77);
    assert!(!t.is_tracked_udp(6672));
    assert!(!t.is_tracked_tcp(50000, 443));
}

#[test]
fn add_then_remove_udp_restores() {
    let mut t = ConnectionTracker::new();
    t.add_process(1234);
    t.add_udp_endpoint(1234, 5000);
    t.add_udp_endpoint(1234, 6672);
    t.remove_udp_endpoint(1234, 6672);
    assert!(!t.is_tracked_udp(6672));
    assert!(t.is_tracked_udp(5000));
}

#[test]
fn remove_tcp_connection_unregisters() {
    let mut t = ConnectionTracker::new();
    t.add_process(9);
    t.add_tcp_connection(9, 50000, 443);
    t.remove_tcp_connection(9, 443, 50000);
    assert!(t.is_tracked_tcp(50000, 443));
    t.remove_tcp_connection(9, 50000, 443);
    assert!(!t.is_tracked_tcp(50000, 443));
    t.remove_udp_endpoint(9, 1);
    t.remove_tcp_connection(10, 1, 2);
    assert!(t.contains_process(9));
}

#[test]
fn double_add_process_is_single() {
    let mut t = ConnectionTracker::new();
    t.add_process(1234);
    t.add_process(1234);
    t.add_udp_endpoint(1234, 6672);
    t.remove_process(1234);
    assert!(!t.contains_process(1234));
    assert!(!t.is_tracked_udp(6672));
}
