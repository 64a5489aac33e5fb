use rubicon::commands::SocketType;
use rubicon::packet::{
    make_identifier, print_packet, CommandPacket, ConnectionPacket, DataPacket, DataPacketLike,
    GreetingPacket, Packet,
};
use rubicon::text::{decimal_string, loopback_address, wildcard_address};

fn sample() -> DataPacket {
    DataPacket {
        socket_type: SocketType::Tcp,
        sender_name: "Alice".to_string(),
        sender_port: 7000,
        receiver_name: "Bob".to_string(),
        receiver_port: 8000,
        data: vec![1, 2, 3],
        source_port: 51234,
    }
}

fn announcement() -> ConnectionPacket {
    ConnectionPacket {
        sender_name: "Guest".to_string(),
        sender_port: 9000,
        receiver_name: "Host".to_string(),
        receiver_port: 7777,
        source_port: 40123,
    }
}

#[test]
fn decimal_of_zero_is_one_digit() {
    assert_eq!(decimal_string(0), "0");
}

#[test]
fn decimal_has_no_leading_zero() {
    assert_eq!(decimal_string(7), "7");
    assert_eq!(decimal_string(10), "10");
    assert_eq!(decimal_string(1024), "1024");
    assert_eq!(decimal_string(65535), "65535");
}

#[test]
fn decimal_of_the_largest_number() {
    assert_eq!(decimal_string(u64::MAX), "18446744073709551615");
}

#[test]
fn decimal_agrees_with_the_standard_rendering() {
    let mut n: u64 = 1;
    while n < 1_000_000_000_000 {
        assert_eq!(decimal_string(n), n.to_string());
        assert_eq!(decimal_string(n - 1), (n - 1).to_string());
        n *= 7;
    }
}

#[test]
fn addresses_are_host_colon_port() {
    assert_eq!(loopback_address(8000), "127.0.0.1:8000");
    assert_eq!(loopback_address(0), "127.0.0.1:0");
    assert_eq!(wildcard_address(7777), "0.0.0.0:7777");
    assert_eq!(wildcard_address(65535), "0.0.0.0:65535");
}

#[test]
fn identifier_joins_name_and_port() {
    assert_eq!(make_identifier(&"Alice".to_string(), 7000), "Alice:7000");
    assert_eq!(make_identifier(&String::new(), 0), ":0");
}

#[test]
fn player_identifier_uses_the_agent_port() {
    assert_eq!(sample().get_player_identifier(), "Alice:7000");
    assert_eq!(announcement().get_player_identifier(), "Guest:9000");
}

#[test]
fn original_player_identifier_uses_the_source_port() {
    assert_eq!(sample().get_original_player_identifier(), "Alice:51234");
    assert_eq!(announcement().get_original_player_identifier(), "Guest:40123");
}

#[test]
fn identifiers_of_different_source_ports_differ() {
    let first = sample();
    let mut second = sample();
    second.source_port = 51235;
    assert_ne!(
        first.get_original_player_identifier(),
        second.get_original_player_identifier()
    );
    assert_eq!(first.get_player_identifier(), second.get_player_identifier());
}

#[test]
fn getters_give_the_fields_of_a_data_packet() {
    let packet = sample();
    assert_eq!(packet.get_sender_name(), "Alice");
    assert_eq!(packet.get_sender_port(), 7000);
    assert_eq!(packet.get_source_port(), 51234);
    assert_eq!(packet.get_receiver_name(), "Bob");
    assert_eq!(packet.get_receiver_port(), 8000);
}

#[test]
fn getters_give_the_fields_of_a_connection_packet() {
    let packet = announcement();
    assert_eq!(packet.get_sender_name(), "Guest");
    assert_eq!(packet.get_sender_port(), 9000);
    assert_eq!(packet.get_source_port(), 40123);
    assert_eq!(packet.get_receiver_name(), "Host");
    assert_eq!(packet.get_receiver_port(), 7777);
}

#[test]
fn print_renders_the_trace_line() {
    assert_eq!(
        sample().print("rx :: "),
        "rx :: Alice:7000 (51234) --(Tcp)--> Bob:8000 @ 3"
    );
}

#[test]
fn print_of_an_empty_datagram() {
    let mut packet = sample();
    packet.socket_type = SocketType::Udp;
    packet.data = Vec::new();
    assert_eq!(packet.print(""), "Alice:7000 (51234) --(Udp)--> Bob:8000 @ 0");
}

#[test]
fn print_packet_renders_each_part() {
    let line = print_packet(
        "local reject :: ",
        "self".to_string(),
        51000,
        51000,
        SocketType::Tcp,
        "Host".to_string(),
        7777,
        1400,
    );
    assert_eq!(line, "local reject :: self:51000 (51000) --(Tcp)--> Host:7777 @ 1400");
}

#[test]
fn socket_type_defaults_to_the_stream_transport() {
    assert_eq!(SocketType::default(), SocketType::Tcp);
    assert_eq!(SocketType::Tcp.label(), "Tcp");
    assert_eq!(SocketType::Udp.label(), "Udp");
}

#[test]
fn clones_are_equal() {
    let data = sample();
    assert_eq!(data.clone(), data);
    let connection = announcement();
    assert_eq!(connection.clone(), connection);
    let greeting = GreetingPacket { player_name: "Alice".to_string(), local_port: 7000 };
    assert_eq!(greeting.clone(), greeting);
    let command = CommandPacket { command: "show_connections".to_string() };
    assert_eq!(command.clone(), command);
    for packet in [
        Packet::Command(command),
        Packet::Data(data),
        Packet::Greeting(greeting),
        Packet::GreetingReply,
        Packet::Heartbeat("Alice".to_string()),
        Packet::Connection(connection),
    ] {
        assert_eq!(packet.clone(), packet);
    }
}
