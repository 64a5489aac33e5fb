//! The agent: it maps each remote flow to a pair of local loopback sockets and
//! decides, frame by frame, what goes to the rendezvous and what goes to the
//! local application.

use vstd::prelude::*;
use vstd::string::*;
use crate::commands::SocketType;
use crate::common::{QueueCounter, MAX_QUEUE_SIZE};
use crate::connections::{
    is_listing,
    process_disconnection,
    public_views,
    InnerConnections,
    PlayerView,
    PublicPlayerData,
};
use crate::flows::{
    with_datagram_counted,
    with_tcp_flow,
    with_udp_flow,
    ClientLocalConnection,
    FlowView,
    RedirectionTable,
};
use crate::dispatch::{
    batch_effects,
    process_packets,
    read_effects,
    reply_views,
    sorted,
    Effect,
    PortActivity,
    Reader,
    RejectedPacket,
    RejectedView,
    Role,
};
use crate::packet::{
    decoded_view,
    identifier,
    ConnectionPacket,
    ConnectionView,
    DataPacket,
    DataPacketLike,
    DataView,
    GreetingPacket,
    GreetingView,
    Packet,
    PacketView,
};
use crate::socket::stream_timed_out;
use crate::text::{
    decimal,
    lemma_decimal_injective,
    loopback,
    loopback_address,
    push_decimal,
    wildcard,
    wildcard_address,
};

verus! {

/// The first port that is tried for a loopback datagram socket.
pub const FIRST_LOCAL_UDP_PORT: u16 = 40000;

/// How many ports are tried for a loopback datagram socket before giving up.
pub const MAX_LOCAL_UDP_ATTEMPTS: u32 = 10000;

/// Who an agent is and whom it talks to. This is fixed when the agent starts.
pub struct IdentityView {
    pub player_name: Seq<char>,
    pub player_port: u16,
    pub other_player_name: Seq<char>,
    pub other_player_port: u16,
}

/// What an agent writes locally after a frame from the rendezvous.
#[derive(Debug, PartialEq, Eq)]
pub enum LocalWrite {
    /// Nothing.
    Ignore,
    /// Write `payload` to the loopback stream of the flow under `key`.
    Flow { key: String, payload: Vec<u8> },
    /// Write `payload` to the local stream whose peer port is `port`.
    Stream { port: u16, payload: Vec<u8> },
}

/// What an agent does with a datagram that its datagram loop handed over.
#[derive(Debug, PartialEq, Eq)]
pub enum DatagramRelay {
    /// Nothing.
    Ignore,
    /// Send `payload` to `address` from the datagram socket of the flow under
    /// `key`.
    Local { key: String, address: String, payload: Vec<u8> },
    /// Hand `payload` to the datagram loop, for `address`.
    Queue { address: String, payload: Vec<u8> },
    /// Encode `frame` and hand it to the datagram loop, for `address`.
    QueueFrame { address: String, frame: Packet },
    /// The outbound channel is full: the datagram is dropped, and the overflow
    /// is reported.
    Dropped,
}

/// What an agent does with a datagram that one of its flows received from the
/// local application.
#[derive(Debug, PartialEq, Eq)]
pub enum FlowDatagram {
    /// Nothing.
    Ignore,
    /// Encode this frame and hand it to the datagram loop, for the rendezvous.
    Relay(DataPacket),
    /// The outbound channel is full: the datagram is dropped, and the overflow
    /// is reported.
    Dropped,
}

/// The sender of a frame from the rendezvous for which a host keeps a local
/// stream: a data frame for this agent, or any connection announcement. The
/// result is the sender's name, the port its agent serves, the port of its
/// application's socket, and the local port the frame is meant for.
pub open spec fn stream_flow_of(id: IdentityView, decoded: Option<PacketView>) -> Option<
    (Seq<char>, u16, u16, u16),
> {
    match decoded {
        Some(PacketView::Data(d)) => if d.receiver_name == id.player_name {
            Some((d.sender_name, d.sender_port, d.source_port, d.receiver_port))
        } else {
            None
        },
        Some(PacketView::Connection(c)) => Some(
            (c.sender_name, c.sender_port, c.source_port, c.receiver_port),
        ),
        _ => None,
    }
}

/// The local flow table after a frame from the rendezvous; `opened` tells how the
/// attempt to open a loopback stream ended, if one was made. Only a host keeps
/// flows.
pub open spec fn table_after_server_frame(
    id: IdentityView,
    table: Map<Seq<char>, FlowView>,
    decoded: Option<PacketView>,
    opened: Option<u16>,
) -> Map<Seq<char>, FlowView> {
    if id.player_name == id.other_player_name {
        match stream_flow_of(id, decoded) {
            Some(flow) => with_tcp_flow(table, flow.0, flow.1, flow.2, opened),
            None => table,
        }
    } else {
        table
    }
}

/// Whether `action` is what an agent writes locally after a frame from the
/// rendezvous, given the flow table `table` as it is after the frame and the
/// registry of local streams. Only the payload of a data frame that names this
/// agent as its receiver is written. A host writes it to the stream of the
/// sender's flow, if the flow has one and the frame is of the stream kind. A
/// client writes it to the local stream whose peer port is the frame's receiver
/// port, if there is one.
pub open spec fn server_frame_write(
    id: IdentityView,
    table: Map<Seq<char>, FlowView>,
    registry: Map<u16, PlayerView>,
    decoded: Option<PacketView>,
    action: LocalWrite,
) -> bool {
    match decoded {
        Some(PacketView::Data(d)) => if d.receiver_name != id.player_name {
            action is Ignore
        } else if id.player_name == id.other_player_name {
            let key = identifier(d.sender_name, d.source_port);
            if table.contains_key(key) && table[key].stream is Some && d.socket_type
                == SocketType::Tcp {
                action matches LocalWrite::Flow { key: k, payload } && k@ == key && payload@
                    == d.data
            } else {
                action is Ignore
            }
        } else {
            if registry.contains_key(d.receiver_port) {
                action matches LocalWrite::Stream { port, payload } && port == d.receiver_port
                    && payload@ == d.data
            } else {
                action is Ignore
            }
        },
        _ => action is Ignore,
    }
}

/// The data frame in which an agent relays bytes of a local application.
pub open spec fn relayed_data(
    id: IdentityView,
    socket_type: SocketType,
    receiver_name: Seq<char>,
    receiver_port: u16,
    data: Seq<u8>,
    source_port: u16,
) -> DataView {
    DataView {
        socket_type,
        sender_name: id.player_name,
        sender_port: id.player_port,
        receiver_name,
        receiver_port,
        data,
        source_port,
    }
}

/// Why a host cannot deal with a datagram from the rendezvous.
#[derive(Copy, Clone, Debug, PartialEq, Eq, Structural)]
pub enum DatagramFault {
    /// The datagram holds no frame.
    Unstructured,
    /// The datagram holds a frame that is neither a data frame nor a heartbeat.
    NotData,
    /// The sender of the data frame has no flow with a datagram socket, and none
    /// was bound.
    NoFlow,
}

/// What is wrong with a datagram from the rendezvous, for a host; `None` where
/// nothing is.
pub open spec fn host_datagram_fault(
    table: Map<Seq<char>, FlowView>,
    decoded: Option<PacketView>,
    bound: Option<u16>,
) -> Option<DatagramFault> {
    match decoded {
        None => Some(DatagramFault::Unstructured),
        Some(PacketView::Data(d)) => {
            let key = identifier(d.sender_name, d.source_port);
            if bound is Some || (table.contains_key(key) && table[key].udp_socket is Some) {
                None
            } else {
                Some(DatagramFault::NoFlow)
            }
        },
        Some(PacketView::Heartbeat(_)) => None,
        Some(_) => Some(DatagramFault::NotData),
    }
}

/// Whether a host can deal with a datagram from the rendezvous: it must be a
/// heartbeat, or a data frame whose sender's flow has a datagram socket or gets
/// one now. Anything else on a host is a fault of the protocol.
pub open spec fn host_datagram_expected(
    table: Map<Seq<char>, FlowView>,
    decoded: Option<PacketView>,
    bound: Option<u16>,
) -> bool {
    match decoded {
        Some(PacketView::Data(d)) => {
            let key = identifier(d.sender_name, d.source_port);
            bound is Some || (table.contains_key(key) && table[key].udp_socket is Some)
        },
        Some(PacketView::Heartbeat(_)) => true,
        _ => false,
    }
}

/// The local flow table after a datagram from the rendezvous; `bound` is the
/// local port of a datagram socket bound for it, if one was. Only a host keeps
/// flows.
pub open spec fn table_after_datagram(
    id: IdentityView,
    table: Map<Seq<char>, FlowView>,
    decoded: Option<PacketView>,
    bound: Option<u16>,
) -> Map<Seq<char>, FlowView> {
    if id.player_name == id.other_player_name {
        match (decoded, bound) {
            (Some(PacketView::Data(d)), Some(socket)) => with_udp_flow(
                table,
                d.sender_name,
                d.sender_port,
                d.source_port,
                socket,
            ),
            _ => table,
        }
    } else {
        table
    }
}

/// Whether `action` is what an agent does with a datagram that came from
/// `udp_port`. A host hands the payload of a data frame to the local application
/// at the frame's receiver port, from the socket of the sender's flow, and
/// ignores a heartbeat. A client whose outbound channel is full drops the
/// datagram. Otherwise a client queues the payload of a data frame for the local
/// application, ignores other frames, and takes bytes that are no frame for the
/// local application's own: it wraps them in a data frame for the other player
/// and queues that for the rendezvous at `server_address`.
pub open spec fn datagram_relay(
    id: IdentityView,
    decoded: Option<PacketView>,
    udp_port: u16,
    data: Seq<u8>,
    room: bool,
    server_address: Seq<char>,
    action: DatagramRelay,
) -> bool {
    if id.player_name == id.other_player_name {
        match decoded {
            Some(PacketView::Data(d)) => action matches DatagramRelay::Local {
                key,
                address,
                payload,
            } && key@ == identifier(d.sender_name, d.source_port) && address@ == loopback(
                d.receiver_port,
            ) && payload@ == d.data,
            _ => action is Ignore,
        }
    } else if !room {
        action is Dropped
    } else {
        match decoded {
            Some(PacketView::Data(d)) => action matches DatagramRelay::Queue { address, payload }
                && address@ == loopback(d.receiver_port) && payload@ == d.data,
            Some(_) => action is Ignore,
            None => action matches DatagramRelay::QueueFrame { address, frame } && address@
                == server_address && frame@ == PacketView::Data(
                relayed_data(
                    id,
                    SocketType::Udp,
                    id.other_player_name,
                    id.other_player_port,
                    data,
                    udp_port,
                ),
            ),
        }
    }
}

/// Whether the flow under `key` can count one more datagram: its count is below
/// the largest number, or there is nothing to count because the table has no
/// such flow or the flow has no datagram socket.
pub open spec fn flow_datagram_countable(table: Map<Seq<char>, FlowView>, key: Seq<char>) -> bool {
    table.contains_key(key) && table[key].udp_socket is Some
        ==> table[key].received_udp_packets_counts < u64::MAX
}

/// Whether `action` is what an agent does with a datagram of `bytes` that the
/// datagram socket of the flow under `key` received from `source_port`. Where
/// the table has no such flow, or the flow has no datagram socket, nothing is
/// done; nor is anything done with bytes that decode to a frame. Other bytes are
/// the application's own: they go to the flow's player in a data frame that
/// echoes the port of the remote application's socket and tells `source_port` as
/// its source, while the outbound channel has room, and are dropped while it has
/// none.
pub open spec fn flow_datagram_relay(
    id: IdentityView,
    table: Map<Seq<char>, FlowView>,
    key: Seq<char>,
    bytes: Seq<u8>,
    framed: bool,
    source_port: u16,
    room: bool,
    action: FlowDatagram,
) -> bool {
    if framed || !table.contains_key(key) || table[key].udp_socket is None {
        action is Ignore
    } else if !room {
        action is Dropped
    } else {
        action matches FlowDatagram::Relay(packet) && packet@ == relayed_data(
            id,
            SocketType::Udp,
            table[key].player_name,
            table[key].original_socket_port,
            bytes,
            source_port,
        )
    }
}

/// Whether a datagram that an agent dealt with went into the outbound channel.
pub open spec fn datagram_queued(action: DatagramRelay) -> bool {
    action is Queue || action is QueueFrame
}

/// The state of an agent.
#[derive(Debug)]
pub struct ClientState {
    /// The local streams that applications opened to this agent.
    pub connections: InnerConnections,
    pub player_name: String,
    /// The local port on which this agent serves its application.
    pub player_port: u16,
    pub other_player_name: String,
    pub other_player_port: u16,
    /// The local flows that this agent opened, as a host, for remote
    /// applications.
    pub local_redirection_table: RedirectionTable,
}

impl ClientState {
    /// Who this agent is and whom it talks to.
    pub open spec fn identity(&self) -> IdentityView {
        IdentityView {
            player_name: self.player_name@,
            player_port: self.player_port,
            other_player_name: self.other_player_name@,
            other_player_port: self.other_player_port,
        }
    }

    /// An agent is the host when the player it talks to is itself.
    pub open spec fn is_host_spec(&self) -> bool {
        self.identity().player_name == self.identity().other_player_name
    }

    /// The agent's role: host or client, never the rendezvous.
    pub open spec fn role_spec(&self) -> Role {
        if self.is_host_spec() {
            Role::Host
        } else {
            Role::Client
        }
    }

    /// The agent as a reader of its local streams: a client relays their bytes to
    /// the player it talks to, a host by the flows it keeps.
    pub open spec fn reader(&self) -> Reader {
        Reader {
            role: self.role_spec(),
            default_receiver_name: self.identity().other_player_name,
            default_receiver_port: self.identity().other_player_port,
            flows: self.local_redirection_table@,
        }
    }

    /// An agent named `player_name` that serves `player_port` and talks to
    /// `other_player_name` at `other_player_port`. It knows no local stream and no
    /// flow yet.
    pub fn new(
        player_name: String,
        player_port: u16,
        other_player_name: String,
        other_player_port: u16,
    ) -> (r: Self)
        ensures
            r.identity() == (IdentityView {
                player_name: player_name@,
                player_port,
                other_player_name: other_player_name@,
                other_player_port,
            }),
            r.connections@ == Map::<u16, PlayerView>::empty(),
            r.local_redirection_table@ == Map::<Seq<char>, FlowView>::empty(),
    {
        ClientState {
            connections: InnerConnections::default(),
            player_name,
            player_port,
            other_player_name,
            other_player_port,
            local_redirection_table: RedirectionTable::new(),
        }
    }

    /// The names of all local streams, each once, in no particular order.
    pub fn print_connections(&self) -> (r: Vec<PublicPlayerData>)
        ensures
            is_listing(self.connections@, public_views(r@)),
    {
        self.connections.public_players()
    }

    /// Whether this agent is the host: whether the player it talks to is itself.
    pub fn is_host(&self) -> (r: bool)
        ensures
            r == self.is_host_spec(),
    {
        self.player_name == self.other_player_name
    }

    /// The agent's role.
    pub fn role(&self) -> (r: Role)
        ensures
            r == self.role_spec(),
    {
        if self.is_host() {
            Role::Host
        } else {
            Role::Client
        }
    }

    /// The frame with which an agent introduces itself to the rendezvous.
    pub fn greeting(&self) -> (r: Packet)
        ensures
            r@ == PacketView::Greeting(
                GreetingView {
                    player_name: self.identity().player_name,
                    local_port: self.identity().player_port,
                },
            ),
    {
        Packet::Greeting(
            GreetingPacket { player_name: self.player_name.clone(), local_port: self.player_port },
        )
    }

    /// The heartbeat of this agent.
    pub fn heartbeat(&self) -> (r: Packet)
        ensures
            r@ == PacketView::Heartbeat(self.identity().player_name),
    {
        Packet::Heartbeat(self.player_name.clone())
    }

    /// The frame that tells the other player of a new local stream whose peer
    /// port is `source_port`.
    pub fn announce_connection(&self, source_port: u16) -> (r: Packet)
        ensures
            r@ == PacketView::Connection(
                ConnectionView {
                    sender_name: self.identity().player_name,
                    sender_port: self.identity().player_port,
                    receiver_name: self.identity().other_player_name,
                    receiver_port: self.identity().other_player_port,
                    source_port,
                },
            ),
    {
        Packet::Connection(
            ConnectionPacket {
                sender_name: self.player_name.clone(),
                sender_port: self.player_port,
                receiver_name: self.other_player_name.clone(),
                receiver_port: self.other_player_port,
                source_port,
            },
        )
    }

    /// Wraps unframed bytes of a local stream in a data frame for the
    /// rendezvous. The frame's source port is the one on record for the bytes:
    /// with a client the peer port of the local stream, with a host the port of
    /// the remote application's socket that the stream's flow stands for. A host
    /// echoes that port as the receiver port; a client names the port it was
    /// told.
    pub fn forward_rejected(&self, rejected: &RejectedPacket) -> (r: DataPacket)
        ensures
            r@ == relayed_data(
                self.identity(),
                SocketType::Tcp,
                rejected@.receiver_name,
                if self.is_host_spec() {
                    rejected@.source_port
                } else {
                    rejected@.receiver_port
                },
                rejected@.data,
                rejected@.source_port,
            ),
            r@.source_port == rejected@.source_port,
    {
        let receiver_port = if self.is_host() {
            rejected.source_port
        } else {
            rejected.receiver_port
        };
        DataPacket {
            socket_type: SocketType::Tcp,
            sender_name: self.player_name.clone(),
            sender_port: self.player_port,
            receiver_name: rejected.receiver_name.clone(),
            receiver_port,
            data: rejected.data.clone(),
            source_port: rejected.source_port,
        }
    }

    /// Whether the stream to the rendezvous is lost, given the outcome of a peek
    /// on it. An agent does not go on without the rendezvous.
    pub fn server_stream_lost(peek: Option<usize>) -> (r: bool)
        ensures
            r == stream_timed_out(peek),
    {
        match peek {
            Some(n) => n == 0,
            None => false,
        }
    }

    /// The loopback address at which a stream has to be opened before the frame
    /// `decoded` from the rendezvous can be dealt with, if any: a host opens one
    /// for the sender of a data frame meant for it, and for the sender of a
    /// connection announcement, unless the sender's flow has a stream already.
    pub fn stream_wanted(&self, decoded: &Option<Packet>) -> (r: Option<String>)
        ensures
            match r {
                Some(address) => self.is_host_spec() && (stream_flow_of(
                    self.identity(),
                    decoded_view(*decoded),
                ) matches Some(flow) && address@ == loopback(flow.3) && !({
                    let key = identifier(flow.0, flow.2);
                    self.local_redirection_table@.contains_key(key)
                        && self.local_redirection_table@[key].stream is Some
                })),
                None => !self.is_host_spec() || (stream_flow_of(
                    self.identity(),
                    decoded_view(*decoded),
                ) matches Some(flow) ==> {
                    let key = identifier(flow.0, flow.2);
                    self.local_redirection_table@.contains_key(key)
                        && self.local_redirection_table@[key].stream is Some
                }),
            },
    {
        if !self.is_host() {
            return None;
        }
        match decoded {
            Some(Packet::Data(data)) => {
                if data.receiver_name == self.player_name && self.needs_tcp_socket(data) {
                    Some(Self::get_local_tcp_socket_for_redirection_table(data))
                } else {
                    None
                }
            },
            Some(Packet::Connection(connection)) => {
                if self.needs_tcp_socket(connection) {
                    Some(Self::get_local_tcp_socket_for_redirection_table(connection))
                } else {
                    None
                }
            },
            _ => None,
        }
    }

    /// Deals with what was read from the stream to the rendezvous; `decoded` is
    /// the frame it decoded to, if it did, and `opened` the peer port of the
    /// loopback stream that was opened for it, if one was.
    pub fn on_server_frame(&mut self, decoded: &Option<Packet>, opened: Option<u16>) -> (action:
        LocalWrite)
        ensures
            final(self).local_redirection_table@ == table_after_server_frame(
                old(self).identity(),
                old(self).local_redirection_table@,
                decoded_view(*decoded),
                opened,
            ),
            server_frame_write(
                old(self).identity(),
                final(self).local_redirection_table@,
                old(self).connections@,
                decoded_view(*decoded),
                action,
            ),
            final(self).identity() == old(self).identity(),
            final(self).connections@ == old(self).connections@,
    {
        match decoded {
            Some(Packet::Data(data)) => {
                if data.receiver_name != self.player_name {
                    LocalWrite::Ignore
                } else if self.is_host() {
                    self.ensure_tcp_socket_on_redirection_table(data, opened);
                    let key = data.get_original_player_identifier();
                    let has_stream = match self.local_redirection_table.get(&key) {
                        Some(flow) => flow.stream.is_some(),
                        None => false,
                    };
                    if has_stream && data.socket_type == SocketType::Tcp {
                        LocalWrite::Flow { key, payload: data.data.clone() }
                    } else {
                        LocalWrite::Ignore
                    }
                } else {
                    if self.connections.get(&data.receiver_port).is_some() {
                        LocalWrite::Stream { port: data.receiver_port, payload: data.data.clone() }
                    } else {
                        LocalWrite::Ignore
                    }
                }
            },
            Some(Packet::Connection(connection)) => {
                if self.is_host() {
                    self.ensure_tcp_socket_on_redirection_table(connection, opened);
                }
                LocalWrite::Ignore
            },
            _ => LocalWrite::Ignore,
        }
    }

    /// Whether a datagram socket has to be bound before the datagram `decoded`
    /// from the rendezvous can be dealt with: a host binds one for the sender of
    /// a data frame, unless the sender's flow has one already.
    pub fn datagram_socket_wanted(&self, decoded: &Option<Packet>) -> (r: bool)
        ensures
            r == (self.is_host_spec() && (decoded_view(*decoded) matches Some(
                PacketView::Data(d),
            ) && !({
                let key = identifier(d.sender_name, d.source_port);
                self.local_redirection_table@.contains_key(key)
                    && self.local_redirection_table@[key].udp_socket is Some
            }))),
    {
        if !self.is_host() {
            return false;
        }
        match decoded {
            Some(Packet::Data(data)) => self.needs_udp_socket(data),
            _ => false,
        }
    }

    /// What keeps [`ClientState::on_inbound_datagram`] from dealing with this
    /// datagram, if anything does. Only a host finds fault with a datagram.
    pub fn inbound_datagram_fault(&self, decoded: &Option<Packet>, bound: Option<u16>) -> (r:
        Option<DatagramFault>)
        ensures
            r == if self.is_host_spec() {
                host_datagram_fault(self.local_redirection_table@, decoded_view(*decoded), bound)
            } else {
                None
            },
            r is None <==> (self.is_host_spec() ==> host_datagram_expected(
                self.local_redirection_table@,
                decoded_view(*decoded),
                bound,
            )),
    {
        if !self.is_host() {
            return None;
        }
        match decoded {
            None => Some(DatagramFault::Unstructured),
            Some(Packet::Data(data)) => {
                if bound.is_some() || !self.needs_udp_socket(data) {
                    None
                } else {
                    Some(DatagramFault::NoFlow)
                }
            },
            Some(Packet::Heartbeat(_)) => None,
            Some(_) => Some(DatagramFault::NotData),
        }
    }

    /// Deals with a datagram that the datagram loop handed over: it came from
    /// `udp_port`, holds `data`, and decoded to `decoded` if it decoded at all.
    /// `bound` is the local port of the datagram socket that was bound for it, if
    /// one was. The datagram is no longer counted as waiting in the inbound
    /// channel, and it is counted as waiting in the outbound channel if it went
    /// there.
    pub fn on_inbound_datagram(
        &mut self,
        udp_port: u16,
        data: Vec<u8>,
        decoded: Option<Packet>,
        bound: Option<u16>,
        udp_queue_size: &mut QueueCounter,
        relay_queue_size: &mut QueueCounter,
        server_address: &String,
    ) -> (action: DatagramRelay)
        requires
            old(udp_queue_size).len() > 0,
            old(self).is_host_spec() ==> host_datagram_expected(
                old(self).local_redirection_table@,
                decoded_view(decoded),
                bound,
            ),
        ensures
            final(udp_queue_size).len() == old(udp_queue_size).len() - 1,
            final(self).local_redirection_table@ == table_after_datagram(
                old(self).identity(),
                old(self).local_redirection_table@,
                decoded_view(decoded),
                bound,
            ),
            datagram_relay(
                old(self).identity(),
                decoded_view(decoded),
                udp_port,
                data@,
                old(relay_queue_size).len() < MAX_QUEUE_SIZE,
                server_address@,
                action,
            ),
            final(relay_queue_size).len() == if datagram_queued(action) {
                old(relay_queue_size).len() + 1
            } else {
                old(relay_queue_size).len()
            },
            action matches DatagramRelay::Local { key, .. } ==> final(self).local_redirection_table@.contains_key(key@) && final(self).local_redirection_table@[key@].udp_socket is Some,
            final(self).identity() == old(self).identity(),
            final(self).connections@ == old(self).connections@,
    {
        udp_queue_size.dequeue();
        if self.is_host() {
            match decoded {
                Some(Packet::Data(packet)) => {
                    match bound {
                        Some(socket) => {
                            self.ensure_udp_socket_on_redirection_table(&packet, socket);
                        },
                        None => {},
                    }
                    let key = packet.get_original_player_identifier();
                    let address = loopback_address(packet.receiver_port);
                    DatagramRelay::Local { key, address, payload: packet.data }
                },
                _ => DatagramRelay::Ignore,
            }
        } else if !relay_queue_size.has_capacity() {
            DatagramRelay::Dropped
        } else {
            match decoded {
                Some(Packet::Data(packet)) => {
                    relay_queue_size.try_enqueue();
                    DatagramRelay::Queue {
                        address: loopback_address(packet.receiver_port),
                        payload: packet.data,
                    }
                },
                Some(_) => DatagramRelay::Ignore,
                None => {
                    relay_queue_size.try_enqueue();
                    let frame = Packet::Data(
                        DataPacket {
                            socket_type: SocketType::Udp,
                            sender_name: self.player_name.clone(),
                            sender_port: self.player_port,
                            receiver_name: self.other_player_name.clone(),
                            receiver_port: self.other_player_port,
                            data,
                            source_port: udp_port,
                        },
                    );
                    DatagramRelay::QueueFrame { address: server_address.clone(), frame }
                },
            }
        }
    }

    /// Deals with `bytes` that the loopback stream of the flow under `key` gave.
    /// Bytes that are no frame are the application's own and go to the remote
    /// player in a data frame whose source port is the peer port of the flow's
    /// stream; the frame echoes the port of the remote application's socket.
    /// `framed` tells whether the bytes decode to a frame, which a local
    /// application is not expected to send; such bytes go nowhere.
    pub fn on_flow_stream_read(&self, key: &String, bytes: Vec<u8>, framed: bool) -> (r: Option<
        DataPacket,
    >)
        ensures
            match r {
                Some(packet) => {
                    &&& !framed
                    &&& self.local_redirection_table@.contains_key(key@)
                    &&& self.local_redirection_table@[key@].stream matches Some(peer_port)
                    &&& packet@ == relayed_data(
                        self.identity(),
                        SocketType::Tcp,
                        self.local_redirection_table@[key@].player_name,
                        self.local_redirection_table@[key@].original_socket_port,
                        bytes@,
                        peer_port,
                    )
                },
                None => framed || !self.local_redirection_table@.contains_key(key@)
                    || self.local_redirection_table@[key@].stream is None,
            },
    {
        if framed {
            return None;
        }
        match self.local_redirection_table.get(key) {
            Some(flow) => match flow.stream {
                Some(peer_port) => Some(
                    DataPacket {
                        socket_type: SocketType::Tcp,
                        sender_name: self.player_name.clone(),
                        sender_port: self.player_port,
                        receiver_name: flow.player_name.clone(),
                        receiver_port: flow.original_socket_port,
                        data: bytes,
                        source_port: peer_port,
                    },
                ),
                None => None,
            },
            None => None,
        }
    }

    /// Whether [`ClientState::on_flow_datagram`] can count one more datagram for
    /// the flow under `key`: whether the flow's count is below the largest
    /// number, or there is nothing to count.
    pub fn can_count_flow_datagram(&self, key: &String) -> (r: bool)
        ensures
            r == flow_datagram_countable(self.local_redirection_table@, key@),
    {
        match self.local_redirection_table.get(key) {
            Some(flow) => flow.udp_socket.is_none() || flow.received_udp_packets_counts < u64::MAX,
            None => true,
        }
    }

    /// Deals with a datagram of `bytes` that the datagram socket of the flow
    /// under `key` received from `source_port`. The flow counts the datagram.
    /// Bytes that are no frame are the application's own and go to the remote
    /// player in a data frame whose source port is `source_port`, as long as the
    /// outbound channel has room. `framed` tells whether the bytes decode to a
    /// frame; such bytes go nowhere.
    pub fn on_flow_datagram(
        &mut self,
        key: &String,
        bytes: Vec<u8>,
        framed: bool,
        source_port: u16,
        relay_queue_size: &mut QueueCounter,
    ) -> (r: FlowDatagram)
        requires
            flow_datagram_countable(old(self).local_redirection_table@, key@),
        ensures
            final(self).local_redirection_table@ == with_datagram_counted(
                old(self).local_redirection_table@,
                key@,
            ),
            flow_datagram_relay(
                old(self).identity(),
                old(self).local_redirection_table@,
                key@,
                bytes@,
                framed,
                source_port,
                old(relay_queue_size).len() < MAX_QUEUE_SIZE,
                r,
            ),
            final(relay_queue_size).len() == if r is Relay {
                old(relay_queue_size).len() + 1
            } else {
                old(relay_queue_size).len()
            },
            final(self).identity() == old(self).identity(),
            final(self).connections@ == old(self).connections@,
    {
        let counted = match self.local_redirection_table.get(key) {
            Some(flow) => {
                if flow.udp_socket.is_none() {
                    None
                } else {
                    Some(
                        ClientLocalConnection {
                            player_name: flow.player_name.clone(),
                            port: flow.port,
                            original_socket_port: flow.original_socket_port,
                            stream: flow.stream,
                            udp_socket: flow.udp_socket,
                            received_udp_packets_counts: flow.received_udp_packets_counts + 1,
                        },
                    )
                }
            },
            None => None,
        };
        match counted {
            None => FlowDatagram::Ignore,
            Some(flow) => {
                let r = if framed {
                    FlowDatagram::Ignore
                } else if relay_queue_size.try_enqueue() {
                    FlowDatagram::Relay(
                        DataPacket {
                            socket_type: SocketType::Udp,
                            sender_name: self.player_name.clone(),
                            sender_port: self.player_port,
                            receiver_name: flow.player_name.clone(),
                            receiver_port: flow.original_socket_port,
                            data: bytes,
                            source_port,
                        },
                    )
                } else {
                    FlowDatagram::Dropped
                };
                self.local_redirection_table.insert(key.clone(), flow);
                r
            },
        }
    }

    /// Whether a datagram socket has to be bound before a datagram of `data`'s
    /// sender can be delivered locally.
    pub fn needs_udp_socket(&self, data: &DataPacket) -> (r: bool)
        ensures
            r == !({
                let key = identifier(data@.sender_name, data@.source_port);
                self.local_redirection_table@.contains_key(key)
                    && self.local_redirection_table@[key].udp_socket is Some
            }),
    {
        let key = data.get_original_player_identifier();
        match self.local_redirection_table.get(&key) {
            Some(flow) => flow.udp_socket.is_none(),
            None => true,
        }
    }

    /// Whether a loopback stream has to be opened before stream data of `data`'s
    /// sender can be delivered locally.
    pub fn needs_tcp_socket<T: DataPacketLike>(&self, data: &T) -> (r: bool)
        ensures
            r == !({
                let key = identifier(data.sender_name_spec(), data.source_port_spec());
                self.local_redirection_table@.contains_key(key)
                    && self.local_redirection_table@[key].stream is Some
            }),
    {
        let key = data.get_original_player_identifier();
        match self.local_redirection_table.get(&key) {
            Some(flow) => flow.stream.is_none(),
            None => true,
        }
    }

    /// Makes sure that the flow of `data`'s sender has a datagram half, given a
    /// datagram socket bound to the local port `socket`.
    pub fn ensure_udp_socket_on_redirection_table(&mut self, data: &DataPacket, socket: u16)
        ensures
            final(self).local_redirection_table@ == with_udp_flow(
                old(self).local_redirection_table@,
                data@.sender_name,
                data@.sender_port,
                data@.source_port,
                socket,
            ),
            final(self).identity() == old(self).identity(),
            final(self).connections@ == old(self).connections@,
    {
        let key = data.get_original_player_identifier();
        let existing = match self.local_redirection_table.get(&key) {
            Some(flow) => Some(flow.clone()),
            None => None,
        };
        match existing {
            Some(flow) => {
                if flow.udp_socket.is_none() {
                    let filled = ClientLocalConnection {
                        player_name: flow.player_name,
                        port: flow.port,
                        original_socket_port: flow.original_socket_port,
                        stream: flow.stream,
                        udp_socket: Some(socket),
                        received_udp_packets_counts: flow.received_udp_packets_counts,
                    };
                    self.local_redirection_table.insert(key, filled);
                }
            },
            None => {
                let flow = self.get_local_connection_for_redirection_table_from_udp(data, socket);
                self.local_redirection_table.insert(key, flow);
            },
        }
    }

    /// Makes sure that the flow of `data`'s sender has a stream half, if the
    /// attempt to open a loopback stream succeeded: `socket` is the port of the
    /// stream's peer, or `None` where no stream could be opened.
    pub fn ensure_tcp_socket_on_redirection_table<T: DataPacketLike>(
        &mut self,
        data: &T,
        socket: Option<u16>,
    )
        ensures
            final(self).local_redirection_table@ == with_tcp_flow(
                old(self).local_redirection_table@,
                data.sender_name_spec(),
                data.sender_port_spec(),
                data.source_port_spec(),
                socket,
            ),
            final(self).identity() == old(self).identity(),
            final(self).connections@ == old(self).connections@,
    {
        let peer_port = match socket {
            Some(peer_port) => peer_port,
            None => {
                return ;
            },
        };
        let key = data.get_original_player_identifier();
        let existing = match self.local_redirection_table.get(&key) {
            Some(flow) => Some(flow.clone()),
            None => None,
        };
        match existing {
            Some(flow) => {
                if flow.stream.is_none() {
                    let filled = ClientLocalConnection {
                        player_name: flow.player_name,
                        port: flow.port,
                        original_socket_port: flow.original_socket_port,
                        stream: Some(peer_port),
                        udp_socket: flow.udp_socket,
                        received_udp_packets_counts: flow.received_udp_packets_counts,
                    };
                    self.local_redirection_table.insert(key, filled);
                }
            },
            None => {
                let flow = self.get_local_connection_for_redirection_table_from_tcp(
                    data,
                    peer_port,
                );
                self.local_redirection_table.insert(key, flow);
            },
        }
    }

    /// The port to try for a loopback datagram socket after `fails` ports were
    /// found in use: the ports are tried upward from
    /// [`FIRST_LOCAL_UDP_PORT`], and after [`MAX_LOCAL_UDP_ATTEMPTS`] failures
    /// there is nothing left to try.
    pub fn get_local_udp_socket_for_redirection_table(fails: u32) -> (r: Option<u16>)
        ensures
            r == if fails < MAX_LOCAL_UDP_ATTEMPTS {
                Some((FIRST_LOCAL_UDP_PORT + fails) as u16)
            } else {
                None
            },
    {
        if fails < MAX_LOCAL_UDP_ATTEMPTS {
            Some(FIRST_LOCAL_UDP_PORT + fails as u16)
        } else {
            None
        }
    }

    /// The loopback address at which the application that `data` is meant for
    /// listens.
    pub fn get_local_tcp_socket_for_redirection_table<T: DataPacketLike>(data: &T) -> (r: String)
        ensures
            r@ == loopback(data.receiver_port_spec()),
    {
        loopback_address(data.get_receiver_port())
    }

    fn get_local_connection_for_redirection_table_from_tcp<T: DataPacketLike>(
        &self,
        data: &T,
        tcp_socket: u16,
    ) -> (r: ClientLocalConnection)
        ensures
            r@ == (FlowView {
                player_name: data.sender_name_spec(),
                port: data.sender_port_spec(),
                original_socket_port: data.source_port_spec(),
                stream: Some(tcp_socket),
                udp_socket: None,
                received_udp_packets_counts: 0,
            }),
    {
        ClientLocalConnection {
            player_name: data.get_sender_name(),
            port: data.get_sender_port(),
            original_socket_port: data.get_source_port(),
            stream: Some(tcp_socket),
            udp_socket: None,
            received_udp_packets_counts: 0,
        }
    }

    fn get_local_connection_for_redirection_table_from_udp(
        &self,
        data: &DataPacket,
        udp_socket: u16,
    ) -> (r: ClientLocalConnection)
        ensures
            r@ == (FlowView {
                player_name: data@.sender_name,
                port: data@.sender_port,
                original_socket_port: data@.source_port,
                stream: None,
                udp_socket: Some(udp_socket),
                received_udp_packets_counts: 0,
            }),
    {
        ClientLocalConnection {
            player_name: data.sender_name.clone(),
            port: data.sender_port,
            original_socket_port: data.source_port,
            stream: None,
            udp_socket: Some(udp_socket),
            received_udp_packets_counts: 0,
        }
    }
}

/// What an agent has to do after one tick of reading its local streams.
#[derive(Debug)]
pub struct LocalStreamsTick {
    /// Frames to write, each with the peer port of the local stream to write it
    /// to.
    pub replies: Vec<(u16, Packet)>,
    /// Data frames to write to the stream to the rendezvous, in order.
    pub to_server: Vec<DataPacket>,
}

impl ClientState {
    /// One tick of an agent over the local streams that applications opened to
    /// it. `batch` holds what the tick saw of each stream, `now_ms` is the time.
    /// The closed streams leave the registry, and what the applications wrote
    /// goes on to the rendezvous: from a client to the player it talks to, from a
    /// host to the player of the flow that the stream belongs to.
    pub fn relay_local_streams(&mut self, batch: &Vec<PortActivity>, now_ms: u64) -> (out:
        LocalStreamsTick)
        ensures
            ({
                let id = old(self).identity();
                let d = sorted(
                    batch_effects(old(self).reader(), old(self).connections@, now_ms, batch@),
                );
                &&& reply_views(out.replies@) == d.replies
                &&& final(self).connections@ == old(self).connections@.remove_keys(
                    d.disconnected.to_set(),
                )
                &&& out.to_server.len() == d.rejected_packets_buffers.len()
                &&& forall|i: int|
                    0 <= i < out.to_server.len() ==> (#[trigger] out.to_server@[i])@
                        == relayed_data(
                        id,
                        SocketType::Tcp,
                        d.rejected_packets_buffers[i].receiver_name,
                        if old(self).is_host_spec() {
                            d.rejected_packets_buffers[i].source_port
                        } else {
                            d.rejected_packets_buffers[i].receiver_port
                        },
                        d.rejected_packets_buffers[i].data,
                        d.rejected_packets_buffers[i].source_port,
                    )
            }),
            final(self).identity() == old(self).identity(),
            final(self).local_redirection_table@ == old(self).local_redirection_table@,
    {
        let role = self.role();
        let d = process_packets(
            &self.connections,
            batch,
            now_ms,
            role,
            &self.other_player_name,
            self.other_player_port,
            &self.local_redirection_table,
        );
        process_disconnection(&mut self.connections, &d.disconnected);
        let mut to_server: Vec<DataPacket> = Vec::new();
        let mut i: usize = 0;
        while i < d.rejected_packets_buffers.len()
            invariant
                i <= d.rejected_packets_buffers.len(),
                to_server.len() == i,
                self.identity() == old(self).identity(),
                forall|k: int|
                    0 <= k < i ==> (#[trigger] to_server@[k])@ == relayed_data(
                        self.identity(),
                        SocketType::Tcp,
                        d.rejected_packets_buffers@[k]@.receiver_name,
                        if self.is_host_spec() {
                            d.rejected_packets_buffers@[k]@.source_port
                        } else {
                            d.rejected_packets_buffers@[k]@.receiver_port
                        },
                        d.rejected_packets_buffers@[k]@.data,
                        d.rejected_packets_buffers@[k]@.source_port,
                    ),
            decreases d.rejected_packets_buffers.len() - i,
        {
            to_server.push(self.forward_rejected(&d.rejected_packets_buffers[i]));
            i = i + 1;
        }
        LocalStreamsTick { replies: d.replies, to_server }
    }
}

/// The role of an agent follows from its own name and the name of the player it
/// talks to, and from nothing else: as long as these stay, the role stays. Every
/// operation of an agent leaves them as they are.
pub proof fn lemma_role_is_fixed(before: ClientState, after: ClientState)
    requires
        after.identity() == before.identity(),
    ensures
        after.is_host_spec() == before.is_host_spec(),
        after.role_spec() == before.role_spec(),
        before.is_host_spec() <==> before.identity().player_name
            == before.identity().other_player_name,
        before.role_spec() != Role::Rendezvous,
{
}

/// What the application of a guest writes to its agent reaches the application
/// of the host unchanged, on the stream of the flow that stands for the guest's
/// application: the guest wraps the bytes in a data frame for the host, and the
/// host writes the frame's payload to the flow named by the guest and the port
/// of its application's socket.
pub proof fn lemma_stream_payload_arrives(
    guest: IdentityView,
    host: IdentityView,
    table: Map<Seq<char>, FlowView>,
    registry: Map<u16, PlayerView>,
    stream_name: Seq<char>,
    source_port: u16,
    bytes: Seq<u8>,
    action: LocalWrite,
)
    requires
        guest.player_name != guest.other_player_name,
        host.player_name == host.other_player_name,
        guest.other_player_name == host.player_name,
        bytes.len() > 0,
        table.contains_key(identifier(guest.player_name, source_port)),
        table[identifier(guest.player_name, source_port)].stream is Some,
        server_frame_write(
            host,
            table,
            registry,
            Some(
                PacketView::Data(
                    relayed_data(
                        guest,
                        SocketType::Tcp,
                        guest.other_player_name,
                        guest.other_player_port,
                        bytes,
                        source_port,
                    ),
                ),
            ),
            action,
        ),
    ensures
        read_effects(
            (Reader {
                role: Role::Client,
                default_receiver_name: guest.other_player_name,
                default_receiver_port: guest.other_player_port,
                flows: Map::empty(),
            }),
            source_port,
            stream_name,
            source_port,
            bytes,
            None,
        ) == seq![
            Effect::Rejected(
                RejectedView {
                    receiver_name: guest.other_player_name,
                    receiver_port: guest.other_player_port,
                    data: bytes,
                    source_port,
                },
            ),
        ],
        action matches LocalWrite::Flow { key, payload } && key@ == identifier(
            guest.player_name,
            source_port,
        ) && payload@ == bytes,
{
}

/// What an agent starts with.
#[derive(Debug)]
pub struct AgentStart {
    pub state: ClientState,
    /// The first frame to write to the rendezvous, before anything else.
    pub greeting: Packet,
    /// The address on which to listen for local streams and to receive local
    /// datagrams.
    pub bind_address: String,
}

/// Starts an agent named `player_name` that serves `player_client_port` and talks
/// to `other_player_name` at `other_player_port`: it greets the rendezvous with
/// its name and port, and serves its port on every interface.
pub fn connect(
    player_client_port: u16,
    player_name: String,
    other_player_name: String,
    other_player_port: u16,
) -> (r: AgentStart)
    ensures
        r.state.identity() == (IdentityView {
            player_name: player_name@,
            player_port: player_client_port,
            other_player_name: other_player_name@,
            other_player_port,
        }),
        r.state.connections@ == Map::<u16, PlayerView>::empty(),
        r.state.local_redirection_table@ == Map::<Seq<char>, FlowView>::empty(),
        r.greeting@ == PacketView::Greeting(
            GreetingView { player_name: player_name@, local_port: player_client_port },
        ),
        r.bind_address@ == wildcard(player_client_port),
{
    let state = ClientState::new(
        player_name,
        player_client_port,
        other_player_name,
        other_player_port,
    );
    let greeting = state.greeting();
    AgentStart { state, greeting, bind_address: wildcard_address(player_client_port) }
}

/// The name under which the agent for `port` registers when one player runs
/// several agents: the player's name, an underscore, and the port.
pub open spec fn agent_name(player_name: Seq<char>, port: u16) -> Seq<char> {
    player_name + seq!['_'] + decimal(port as nat)
}

/// What an [`AgentPlan`] holds, as mathematical values.
pub struct AgentPlanView {
    pub player_port: u16,
    pub server_address: Seq<char>,
    pub player_name: Seq<char>,
    pub other_player_name: Seq<char>,
    pub other_player_port: u16,
}

/// One agent to start.
#[derive(Debug, PartialEq, Eq)]
pub struct AgentPlan {
    pub player_port: u16,
    pub server_address: String,
    pub player_name: String,
    pub other_player_name: String,
    pub other_player_port: u16,
}

impl View for AgentPlan {
    type V = AgentPlanView;

    open spec fn view(&self) -> AgentPlanView {
        AgentPlanView {
            player_port: self.player_port,
            server_address: self.server_address@,
            player_name: self.player_name@,
            other_player_name: self.other_player_name@,
            other_player_port: self.other_player_port,
        }
    }
}

/// The agent that serves `port` when one player runs several agents: it
/// registers under a name of its own and talks to the same port on the other
/// side.
pub open spec fn planned_agent(
    server_address: Seq<char>,
    other_player_name: Seq<char>,
    player_name: Seq<char>,
    port: u16,
) -> AgentPlanView {
    AgentPlanView {
        player_port: port,
        server_address,
        player_name: agent_name(player_name, port),
        other_player_name,
        other_player_port: port,
    }
}

fn plan_agent(
    relay_server_address: &String,
    other_player_name: &String,
    player_name: &String,
    port: u16,
) -> (r: AgentPlan)
    ensures
        r@ == planned_agent(relay_server_address@, other_player_name@, player_name@, port),
{
    proof {
        reveal_strlit("_");
    }
    let mut name = player_name.clone();
    name.append("_");
    push_decimal(&mut name, port as u64);
    assert(name@ =~= agent_name(player_name@, port));
    AgentPlan {
        player_port: port,
        server_address: relay_server_address.clone(),
        player_name: name,
        other_player_name: other_player_name.clone(),
        other_player_port: port,
    }
}

/// Plans one agent for each of the listed ports, in order.
pub fn multi_connect(
    relay_server_address: String,
    other_player_name: String,
    player_name: String,
    player_client_port: Vec<u16>,
) -> (agents: Vec<AgentPlan>)
    ensures
        agents.len() == player_client_port.len(),
        forall|i: int|
            0 <= i < agents.len() ==> (#[trigger] agents@[i])@ == planned_agent(
                relay_server_address@,
                other_player_name@,
                player_name@,
                player_client_port@[i],
            ),
{
    let mut agents: Vec<AgentPlan> = Vec::new();
    let mut i: usize = 0;
    while i < player_client_port.len()
        invariant
            i <= player_client_port.len(),
            agents.len() == i,
            forall|k: int|
                0 <= k < i ==> (#[trigger] agents@[k])@ == planned_agent(
                    relay_server_address@,
                    other_player_name@,
                    player_name@,
                    player_client_port@[k],
                ),
        decreases player_client_port.len() - i,
    {
        agents.push(
            plan_agent(&relay_server_address, &other_player_name, &player_name, player_client_port[i]),
        );
        i = i + 1;
    }
    agents
}

/// Plans one agent for each port from `lower_port` to `upper_port`, both
/// included, in rising order; none where `lower_port` is above `upper_port`.
pub fn mass_connect(
    relay_server_address: String,
    other_player_name: String,
    player_name: String,
    lower_port: u16,
    upper_port: u16,
) -> (agents: Vec<AgentPlan>)
    ensures
        agents.len() == if lower_port <= upper_port {
            upper_port - lower_port + 1
        } else {
            0
        },
        forall|i: int|
            0 <= i < agents.len() ==> (#[trigger] agents@[i])@ == planned_agent(
                relay_server_address@,
                other_player_name@,
                player_name@,
                (lower_port + i) as u16,
            ),
{
    let mut agents: Vec<AgentPlan> = Vec::new();
    if lower_port > upper_port {
        return agents;
    }
    let mut port: u16 = lower_port;
    loop
        invariant_except_break
            lower_port <= port <= upper_port,
            agents.len() == port - lower_port,
            forall|k: int|
                0 <= k < agents.len() ==> (#[trigger] agents@[k])@ == planned_agent(
                    relay_server_address@,
                    other_player_name@,
                    player_name@,
                    (lower_port + k) as u16,
                ),
        ensures
            agents.len() == upper_port - lower_port + 1,
            forall|k: int|
                0 <= k < agents.len() ==> (#[trigger] agents@[k])@ == planned_agent(
                    relay_server_address@,
                    other_player_name@,
                    player_name@,
                    (lower_port + k) as u16,
                ),
        decreases upper_port - port,
    {
        agents.push(plan_agent(&relay_server_address, &other_player_name, &player_name, port));
        if port == upper_port {
            break ;
        }
        port = port + 1;
    }
    agents
}

/// Agents of one player for different ports register under different names.
pub proof fn lemma_agent_names_distinct(player_name: Seq<char>, first: u16, second: u16)
    requires
        first != second,
    ensures
        agent_name(player_name, first) != agent_name(player_name, second),
{
    let a = agent_name(player_name, first);
    let b = agent_name(player_name, second);
    if a == b {
        let start = player_name.len() + 1;
        assert(a.subrange(start as int, a.len() as int) =~= decimal(first as nat));
        assert(b.subrange(start as int, b.len() as int) =~= decimal(second as nat));
        lemma_decimal_injective(first as nat, second as nat);
    }
}

} // verus!
