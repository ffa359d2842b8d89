use localex::addr::PeerAddr;
use localex::listener::{Listener, LoopStatus};
use localex::protocol::{
    discovery_group, has_marker_prefix, probe_payload, DISCOVERY_PORT, MULTICAST_GROUP_IP,
    PROBE_LEN,
};

fn peer_a() -> PeerAddr {
    PeerAddr::from_octets(192, 168, 1, 10, 50123)
}

fn peer_b() -> PeerAddr {
    PeerAddr::from_octets(192, 168, 1, 20, 9487)
}

#[test]
fn probe_payload_is_the_fixed_marker() {
    let payload = probe_payload();
    assert_eq!(payload.len(), PROBE_LEN);
    assert_eq!(
        payload,
        vec![69, 108, 32, 80, 115, 121, 32, 67, 111, 110, 103, 114, 111, 111]
    );
}

#[test]
fn discovery_group_is_the_fixed_address() {
    let group = discovery_group();
    assert_eq!(group.ip, MULTICAST_GROUP_IP);
    assert_eq!(group.ip, 0xEFFF5E57);
    assert_eq!(group.port, DISCOVERY_PORT);
    assert_eq!(group.port, 9487);
    assert_eq!(PeerAddr::from_octets(239, 255, 94, 87, 9487), group);
}

#[test]
fn ip_octets_invert_from_octets() {
    let addr = PeerAddr::from_octets(10, 0, 255, 1, 4242);
    assert_eq!(addr.ip_octets(), (10, 0, 255, 1));
    assert_eq!(addr.port, 4242);
}

#[test]
fn marker_prefix_accepts_the_marker() {
    assert!(has_marker_prefix(&probe_payload()));
    let mut oversized = probe_payload();
    oversized.push(0);
    oversized.push(7);
    assert!(has_marker_prefix(&oversized));
}

#[test]
fn marker_prefix_rejects_short_and_wrong_bytes() {
    assert!(!has_marker_prefix(&Vec::new()));
    let mut short = probe_payload();
    short.pop();
    assert_eq!(short.len(), 13);
    assert!(!has_marker_prefix(&short));
    let mut wrong = probe_payload();
    wrong[13] = b'!';
    assert!(!has_marker_prefix(&wrong));
}

#[test]
fn new_listener_is_idle() {
    let listener = Listener::new();
    assert_eq!(listener.status, LoopStatus::Idle);
}

#[test]
fn start_arms_the_loop_once() {
    let mut listener = Listener::new();
    assert!(listener.try_start());
    assert_eq!(listener.status, LoopStatus::Running);
    // A second start while the loop is active is a no-op: no second loop.
    assert!(!listener.try_start());
    assert_eq!(listener.status, LoopStatus::Running);
}

#[test]
fn stop_on_running_listener_returns_to_idle() {
    let mut listener = Listener::new();
    listener.try_start();
    assert!(listener.stop());
    assert_eq!(listener.status, LoopStatus::Idle);
}

#[test]
fn stop_on_idle_listener_has_no_effect() {
    let mut listener = Listener::new();
    assert!(!listener.stop());
    assert_eq!(listener.status, LoopStatus::Idle);
}

#[test]
fn listener_can_be_restarted_after_stop() {
    let mut listener = Listener::new();
    assert!(listener.try_start());
    assert!(listener.stop());
    assert!(listener.try_start());
    assert_eq!(listener.status, LoopStatus::Running);
}

#[test]
fn short_datagram_is_discarded() {
    let mut listener = Listener::new();
    listener.try_start();
    for len in 0..PROBE_LEN {
        let data = probe_payload()[..len].to_vec();
        assert_eq!(listener.on_datagram(&data, peer_a(), peer_b()), None);
    }
}

#[test]
fn wrong_marker_is_discarded() {
    let mut listener = Listener::new();
    listener.try_start();
    // An arbitrary marker-sized payload from a non-participant on the same
    // group must not be dispatched.
    let noise = vec![0, 1, 2, 3, 4, 5, 6, 7, 8, 9, 10, 11, 12, 13];
    assert_eq!(noise.len(), PROBE_LEN);
    assert_eq!(listener.on_datagram(&noise, peer_a(), peer_b()), None);
    let mut near_miss = probe_payload();
    near_miss[0] ^= 1;
    assert_eq!(listener.on_datagram(&near_miss, peer_a(), peer_b()), None);
}

#[test]
fn own_probe_is_filtered_out() {
    let mut listener = Listener::new();
    listener.try_start();
    let local = peer_b();
    assert_eq!(listener.on_datagram(&probe_payload(), local, local), None);
}

#[test]
fn valid_probe_dispatches_the_sender_once() {
    // Node A announces; node B's running listener dispatches exactly one
    // event, carrying A's source address.
    let mut listener = Listener::new();
    listener.try_start();
    let announced = probe_payload();
    let dispatched = listener.on_datagram(&announced, peer_a(), peer_b());
    assert_eq!(dispatched, Some(peer_a()));
}

#[test]
fn idle_listener_dispatches_nothing() {
    let listener = Listener::new();
    assert_eq!(listener.on_datagram(&probe_payload(), peer_a(), peer_b()), None);
}

#[test]
fn no_dispatch_follows_a_stop() {
    let mut listener = Listener::new();
    listener.try_start();
    assert_eq!(
        listener.on_datagram(&probe_payload(), peer_a(), peer_b()),
        Some(peer_a())
    );
    listener.stop();
    assert_eq!(listener.on_datagram(&probe_payload(), peer_a(), peer_b()), None);
}
