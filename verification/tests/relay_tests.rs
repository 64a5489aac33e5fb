use rubicon::client::{connect, ClientState, DatagramRelay, FlowDatagram, LocalWrite};
use rubicon::common::{accept_connections, QueueCounter};
use rubicon::dispatch::{PortActivity, StreamRead};
use rubicon::packet::Packet;
use rubicon::server::{host, DatagramAction, ServerState};
use rubicon::socket::{PeerAddress, PeerHost};

const HOST_STREAM: u16 = 33001;
const GUEST_STREAM: u16 = 33002;
const GUEST_APP: u16 = 51000;
const GAME: u16 = 7777;

fn at(host: u32, port: u16) -> PeerAddress {
    PeerAddress { host: PeerHost::V4(host), port }
}

/// A rendezvous with the host agent and one guest agent greeted.
fn session() -> (ServerState, ClientState, ClientState) {
    let mut server = host(7777).state;
    let host_agent = connect(7000, "Host".to_string(), "Host".to_string(), GAME);
    let guest_agent = connect(9000, "Guest".to_string(), "Host".to_string(), GAME);
    accept_connections(&mut server.connections, at(0x0a00_0001, HOST_STREAM));
    accept_connections(&mut server.connections, at(0x0a00_0002, GUEST_STREAM));
    let batch = vec![
        PortActivity {
            port: HOST_STREAM,
            peek: Some(1),
            reads: vec![StreamRead { bytes: vec![1], decoded: Some(host_agent.greeting) }],
        },
        PortActivity {
            port: GUEST_STREAM,
            peek: Some(1),
            reads: vec![StreamRead { bytes: vec![1], decoded: Some(guest_agent.greeting) }],
        },
    ];
    let out = server.tick(&batch, 0);
    assert_eq!(
        out.replies,
        vec![(HOST_STREAM, Packet::GreetingReply), (GUEST_STREAM, Packet::GreetingReply)]
    );
    (server, host_agent.state, guest_agent.state)
}

/// Hands one frame that arrived on the stream `from` to the rendezvous and
/// returns the frame it forwards, with the stream it forwards it to.
fn through(server: &mut ServerState, from: u16, frame: Packet) -> (u16, Packet) {
    let batch = vec![PortActivity {
        port: from,
        peek: Some(1),
        reads: vec![StreamRead { bytes: vec![1], decoded: Some(frame) }],
    }];
    let mut out = server.tick(&batch, 0);
    assert_eq!(out.deliveries.len(), 1);
    let delivery = out.deliveries.remove(0);
    (delivery.to.expect("a receiver"), delivery.frame)
}

#[test]
fn stream_bytes_travel_to_the_host_and_back() {
    let (mut server, mut host_agent, mut guest_agent) = session();

    // the guest's application opens a stream to its agent and writes
    accept_connections(&mut guest_agent.connections, at(0x7f00_0001, GUEST_APP));
    let announcement = guest_agent.announce_connection(GUEST_APP);
    let (to, frame) = through(&mut server, GUEST_STREAM, announcement);
    assert_eq!(to, HOST_STREAM);
    let frame = Some(frame);
    assert_eq!(host_agent.stream_wanted(&frame), Some("127.0.0.1:7777".to_string()));
    assert_eq!(host_agent.on_server_frame(&frame, Some(GAME)), LocalWrite::Ignore);

    let local = vec![PortActivity {
        port: GUEST_APP,
        peek: Some(5),
        reads: vec![StreamRead { bytes: b"hello".to_vec(), decoded: None }],
    }];
    let mut out = guest_agent.relay_local_streams(&local, 0);
    assert_eq!(out.to_server.len(), 1);
    let (to, frame) = through(&mut server, GUEST_STREAM, Packet::Data(out.to_server.remove(0)));
    assert_eq!(to, HOST_STREAM);
    let frame = Some(frame);
    assert_eq!(host_agent.stream_wanted(&frame), None);
    let write = host_agent.on_server_frame(&frame, None);
    assert_eq!(
        write,
        LocalWrite::Flow { key: "Guest:51000".to_string(), payload: b"hello".to_vec() }
    );

    // the host's application answers on the flow's stream
    let answer = host_agent
        .on_flow_stream_read(&"Guest:51000".to_string(), b"world".to_vec(), false)
        .expect("a frame");
    assert_eq!(answer.source_port, GAME);
    let (to, frame) = through(&mut server, HOST_STREAM, Packet::Data(answer));
    assert_eq!(to, GUEST_STREAM);
    let write = guest_agent.on_server_frame(&Some(frame), None);
    assert_eq!(write, LocalWrite::Stream { port: GUEST_APP, payload: b"world".to_vec() });
}

#[test]
fn datagrams_travel_to_the_host_and_back() {
    let (mut server, mut host_agent, mut guest_agent) = session();
    let server_address = "203.0.113.5:7777".to_string();

    // both agents made themselves known on the datagram channel
    let echo = DatagramAction::Reply(Packet::Heartbeat(String::new()));
    assert_eq!(server.handle_datagram(vec![1], &Some(host_agent.heartbeat()), 61001), echo);
    assert_eq!(server.handle_datagram(vec![1], &Some(guest_agent.heartbeat()), 61002), echo);

    // the guest's application sends sixteen bytes to its agent
    let payload: Vec<u8> = (0..16).collect();
    let mut inbound = QueueCounter::new();
    let mut outbound = QueueCounter::new();
    inbound.try_enqueue();
    let action = guest_agent.on_inbound_datagram(
        GUEST_APP,
        payload.clone(),
        None,
        None,
        &mut inbound,
        &mut outbound,
        &server_address,
    );
    let frame = match action {
        DatagramRelay::QueueFrame { address, frame } => {
            assert_eq!(address, server_address);
            frame
        }
        other => panic!("unexpected action {:?}", other),
    };

    // the rendezvous sends it on to the host's agent
    let frame = Some(frame);
    assert_eq!(
        server.handle_datagram(vec![5, 5], &frame, 61002),
        DatagramAction::Forward { to: at(0x0a00_0001, 61001), payload: vec![5, 5] }
    );

    // the host's agent hands it to the game from a socket of the guest's flow
    let mut inbound = QueueCounter::new();
    let mut outbound = QueueCounter::new();
    inbound.try_enqueue();
    assert!(host_agent.datagram_socket_wanted(&frame));
    let action = host_agent.on_inbound_datagram(
        7777,
        vec![0],
        frame,
        Some(40000),
        &mut inbound,
        &mut outbound,
        &server_address,
    );
    assert_eq!(
        action,
        DatagramRelay::Local {
            key: "Guest:51000".to_string(),
            address: "127.0.0.1:7777".to_string(),
            payload: payload.clone(),
        }
    );

    // the game answers to that socket
    let answer = match host_agent.on_flow_datagram(
        &"Guest:51000".to_string(),
        vec![9, 9],
        false,
        GAME,
        &mut outbound,
    ) {
        FlowDatagram::Relay(packet) => packet,
        other => panic!("unexpected action {:?}", other),
    };
    assert_eq!(answer.receiver_name, "Guest");
    assert_eq!(answer.receiver_port, GUEST_APP);
    let frame = Some(Packet::Data(answer));
    assert_eq!(
        server.handle_datagram(vec![6], &frame, 61001),
        DatagramAction::Forward { to: at(0x0a00_0002, 61002), payload: vec![6] }
    );

    // the guest's agent hands the answer to the application that asked
    let mut inbound = QueueCounter::new();
    let mut outbound = QueueCounter::new();
    inbound.try_enqueue();
    let action =
        guest_agent.on_inbound_datagram(7777, vec![0], frame, None, &mut inbound, &mut outbound, &server_address);
    assert_eq!(
        action,
        DatagramRelay::Queue { address: "127.0.0.1:51000".to_string(), payload: vec![9, 9] }
    );
}

#[test]
fn a_closed_stream_leaves_the_registry_at_the_end_of_the_tick() {
    let (mut server, _host_agent, _guest_agent) = session();
    let batch = vec![PortActivity { port: GUEST_STREAM, peek: Some(0), reads: Vec::new() }];
    server.tick(&batch, 0);
    assert!(server.connections.get(&GUEST_STREAM).is_none());
    assert!(server.connections.get(&HOST_STREAM).is_some());
    // a frame for the guest now goes nowhere
    let orphan = rubicon::packet::DataPacket {
        socket_type: rubicon::commands::SocketType::Tcp,
        sender_name: "Host".to_string(),
        sender_port: 7000,
        receiver_name: "Guest".to_string(),
        receiver_port: GUEST_APP,
        data: vec![1],
        source_port: GAME,
    };
    let batch = vec![PortActivity {
        port: HOST_STREAM,
        peek: Some(1),
        reads: vec![StreamRead { bytes: vec![1], decoded: Some(Packet::Data(orphan)) }],
    }];
    let out = server.tick(&batch, 0);
    assert_eq!(out.deliveries.len(), 1);
    assert_eq!(out.deliveries[0].to, None);
}
