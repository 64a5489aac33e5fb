use rubicon::socket::{PeerAddress, PeerHost, SocketWrapper, DATAGRAM_TIMEOUT_MS};

fn peer(port: u16) -> PeerAddress {
    PeerAddress { host: PeerHost::V4(0x7f00_0001), port }
}

#[test]
fn the_datagram_timeout_is_1400_ms() {
    assert_eq!(DATAGRAM_TIMEOUT_MS, 1400);
}

#[test]
fn with_port_keeps_the_host() {
    let v6 = PeerAddress { host: PeerHost::V6 { bits: 1, flowinfo: 2, scope_id: 3 }, port: 10 };
    assert_eq!(v6.with_port(99), PeerAddress { host: v6.host, port: 99 });
    assert_eq!(peer(1).with_port(2), peer(2));
}

#[test]
fn a_stream_wrapper_has_only_a_stream() {
    let wrapper = SocketWrapper::from_tcp_socket(peer(5000));
    assert!(wrapper.has_tcp());
    assert!(!wrapper.has_udp());
    assert_eq!(wrapper.get_tcp_addr(), peer(5000));
}

#[test]
fn a_stream_is_dead_on_a_zero_length_peek_only() {
    let wrapper = SocketWrapper::from_tcp_socket(peer(5000));
    assert!(wrapper.is_timed_out(Some(0), 0));
    assert!(!wrapper.is_timed_out(Some(1), 0));
    assert!(!wrapper.is_timed_out(Some(65536), 1_000_000));
    assert!(!wrapper.is_timed_out(None, 1_000_000));
}

#[test]
fn a_datagram_half_dies_after_more_than_1400_ms() {
    let wrapper = SocketWrapper::from_udp_socket(40000, 10_000);
    assert!(!wrapper.has_tcp());
    assert!(wrapper.has_udp());
    assert!(!wrapper.is_timed_out(None, 10_000));
    assert!(!wrapper.is_timed_out(None, 11_400));
    assert!(wrapper.is_timed_out(None, 11_401));
    assert!(wrapper.is_timed_out(Some(5), 20_000));
}

#[test]
fn a_clock_that_reads_earlier_than_the_last_activity_is_no_silence() {
    let wrapper = SocketWrapper::from_udp_socket(40000, 10_000);
    assert!(!wrapper.is_timed_out(None, 0));
}

#[test]
fn datagram_silence_kills_only_with_a_closed_stream() {
    let mut wrapper = SocketWrapper::from_tcp_socket(peer(5000));
    wrapper.attach_udp(40000, 0);
    assert!(wrapper.has_tcp() && wrapper.has_udp());
    // silent for longer than the limit
    assert!(wrapper.is_timed_out(Some(0), 1401));
    assert!(!wrapper.is_timed_out(Some(3), 1401));
    assert!(!wrapper.is_timed_out(None, 1401));
    // closed stream, datagram half still within the limit
    assert!(!wrapper.is_timed_out(Some(0), 1400));
}

#[test]
fn touch_restarts_the_datagram_timer() {
    let mut wrapper = SocketWrapper::from_udp_socket(40000, 0);
    assert!(wrapper.is_timed_out(None, 5000));
    wrapper.touch(5000);
    assert!(!wrapper.is_timed_out(None, 5000));
    assert!(!wrapper.is_timed_out(None, 6400));
    assert!(wrapper.is_timed_out(None, 6401));
    assert_eq!(wrapper.udp, Some(40000));
}

#[test]
fn a_wrapper_without_sockets_is_dead() {
    let wrapper = SocketWrapper { tcp: None, udp: None, last_datagram_ms: 0 };
    assert!(wrapper.is_timed_out(None, 0));
    assert!(wrapper.is_timed_out(Some(10), 0));
}

#[test]
fn attach_tcp_fills_in_the_stream_half() {
    let mut wrapper = SocketWrapper::from_udp_socket(40000, 7);
    wrapper.attach_tcp(peer(6000));
    assert_eq!(
        wrapper,
        SocketWrapper { tcp: Some(peer(6000)), udp: Some(40000), last_datagram_ms: 7 }
    );
}
