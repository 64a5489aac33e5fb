use rubicon::common::{
    accept_connections, datagram_heartbeat_due, handle_udp_traffic, idle_sleep_millis,
    stream_heartbeat_due, QueueCounter, UdpTick, BUFFER_SIZE, DISABLE_NAGLE_ALGORITHM,
    HEARTBEATS_PER_SECOND, MAX_PACKETS_TO_GO_THROUGH, MAX_QUEUE_SIZE, MINIMUM_TICK_RATE_IN_MS,
};
use rubicon::connections::InnerConnections;
use rubicon::socket::{PeerAddress, PeerHost, SocketWrapper};

fn peer(port: u16) -> PeerAddress {
    PeerAddress { host: PeerHost::V4(0x0a00_0002), port }
}

#[test]
fn constants_of_the_protocol() {
    assert!(DISABLE_NAGLE_ALGORITHM);
    assert_eq!(MINIMUM_TICK_RATE_IN_MS, 1);
    assert_eq!(BUFFER_SIZE, 64 * 1024);
    assert_eq!(MAX_QUEUE_SIZE, 1024);
    assert_eq!(HEARTBEATS_PER_SECOND, 4);
    assert_eq!(MAX_PACKETS_TO_GO_THROUGH, usize::MAX);
}

#[test]
fn a_new_counter_is_empty() {
    let counter = QueueCounter::new();
    assert_eq!(counter.size(), 0);
    assert!(counter.has_capacity());
}

#[test]
fn the_counter_stops_at_the_limit() {
    let mut counter = QueueCounter::new();
    for _ in 0..1024 {
        assert!(counter.try_enqueue());
    }
    assert_eq!(counter.size(), 1024);
    assert!(!counter.has_capacity());
    assert!(!counter.try_enqueue());
    assert_eq!(counter.size(), 1024);
}

#[test]
fn every_datagram_beyond_the_limit_is_dropped_and_reported_once() {
    let mut counter = QueueCounter::new();
    let mut accepted = 0u64;
    let mut refused = 0u64;
    for _ in 0..(1024 + 300) {
        if counter.try_enqueue() {
            accepted += 1;
        } else {
            refused += 1;
        }
        assert!(counter.size() <= MAX_QUEUE_SIZE);
    }
    assert_eq!(accepted, 1024);
    assert_eq!(refused, 300);
    assert_eq!(counter.size(), 1024);
}

#[test]
fn dequeue_makes_room_again() {
    let mut counter = QueueCounter::new();
    for _ in 0..1024 {
        counter.try_enqueue();
    }
    counter.dequeue();
    assert_eq!(counter.size(), 1023);
    assert!(counter.try_enqueue());
    assert!(!counter.try_enqueue());
}

#[test]
fn the_datagram_heartbeat_is_due_after_a_quarter_second() {
    assert!(!datagram_heartbeat_due(0));
    assert!(!datagram_heartbeat_due(250_000_000));
    assert!(datagram_heartbeat_due(250_000_001));
    assert!(datagram_heartbeat_due(u128::MAX));
}

#[test]
fn the_stream_heartbeat_is_due_after_500_ms() {
    assert!(!stream_heartbeat_due(0));
    assert!(!stream_heartbeat_due(500));
    assert!(stream_heartbeat_due(501));
}

#[test]
fn an_idle_tick_sleeps_for_its_rest() {
    assert_eq!(idle_sleep_millis(false, 0), Some(1));
    assert_eq!(idle_sleep_millis(false, 1), None);
    assert_eq!(idle_sleep_millis(false, 50), None);
}

#[test]
fn a_busy_tick_does_not_sleep() {
    assert_eq!(idle_sleep_millis(true, 0), None);
    assert_eq!(idle_sleep_millis(true, 3), None);
}

#[test]
fn an_accepted_stream_gets_an_unnamed_entry() {
    let mut registry = InnerConnections::default();
    accept_connections(&mut registry, peer(51000));
    let entry = registry.get(&51000).expect("entry");
    assert_eq!(entry.name, "<missing>");
    assert_eq!(entry.address, peer(51000));
    assert_eq!(entry.stream, SocketWrapper::from_tcp_socket(peer(51000)));
    assert_eq!(entry.local_port, None);
    assert_eq!(entry.last_known_udp_port, 0);
    assert!(registry.get(&51001).is_none());
}

#[test]
fn an_idle_datagram_tick_does_nothing() {
    let mut inbound = QueueCounter::new();
    let mut outbound = QueueCounter::new();
    let plan = handle_udp_traffic(
        UdpTick { since_heartbeat_nanos: 0, received: None, relayed: None },
        &mut inbound,
        &mut outbound,
    );
    assert!(!plan.send_heartbeat);
    assert_eq!(plan.to_redirection, None);
    assert!(!plan.over_capacity);
    assert_eq!(plan.to_network, None);
    assert!(!plan.had_one);
    assert_eq!(inbound.size(), 0);
    assert_eq!(outbound.size(), 0);
}

#[test]
fn a_received_datagram_goes_to_the_redirection_loop() {
    let mut inbound = QueueCounter::new();
    let mut outbound = QueueCounter::new();
    let plan = handle_udp_traffic(
        UdpTick {
            since_heartbeat_nanos: 300_000_000,
            received: Some((50123, vec![9, 8, 7])),
            relayed: None,
        },
        &mut inbound,
        &mut outbound,
    );
    assert!(plan.send_heartbeat);
    assert_eq!(plan.to_redirection, Some((50123, vec![9, 8, 7])));
    assert!(!plan.over_capacity);
    assert!(plan.had_one);
    assert_eq!(inbound.size(), 1);
}

#[test]
fn a_relayed_item_is_sent_and_no_longer_counted() {
    let mut inbound = QueueCounter::new();
    let mut outbound = QueueCounter::new();
    outbound.try_enqueue();
    outbound.try_enqueue();
    let plan = handle_udp_traffic(
        UdpTick {
            since_heartbeat_nanos: 1,
            received: None,
            relayed: Some(("127.0.0.1:8000".to_string(), vec![1])),
        },
        &mut inbound,
        &mut outbound,
    );
    assert_eq!(plan.to_network, Some(("127.0.0.1:8000".to_string(), vec![1])));
    assert!(plan.had_one);
    assert_eq!(outbound.size(), 1);
    assert_eq!(inbound.size(), 0);
}

#[test]
fn a_flood_of_datagrams_is_cut_off_at_the_limit() {
    let mut inbound = QueueCounter::new();
    let mut outbound = QueueCounter::new();
    let mut forwarded = 0;
    let mut reports = 0;
    for i in 0..1500u32 {
        let plan = handle_udp_traffic(
            UdpTick {
                since_heartbeat_nanos: 0,
                received: Some((50000, vec![(i % 251) as u8])),
                relayed: None,
            },
            &mut inbound,
            &mut outbound,
        );
        assert!(plan.had_one);
        assert_eq!(plan.over_capacity, plan.to_redirection.is_none());
        if plan.to_redirection.is_some() {
            forwarded += 1;
        }
        if plan.over_capacity {
            reports += 1;
        }
        assert!(inbound.size() <= 1024);
    }
    assert_eq!(forwarded, 1024);
    assert_eq!(reports, 1500 - 1024);
    assert_eq!(inbound.size(), 1024);
}
