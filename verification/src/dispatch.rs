//! Reading the registered streams: what each frame that arrived in a tick leads
//! to.

use vstd::prelude::*;
use vstd::string::*;
use crate::connections::{InnerConnections, PlayerView};
use crate::flows::{FlowView, RedirectionTable};
use crate::text::text_views;
use crate::packet::{
    decoded_view,
    identifier,
    make_identifier,
    ConnectionPacket,
    ConnectionView,
    DataPacket,
    DataView,
    GreetingPacket,
    GreetingView,
    Packet,
    PacketView,
};

verus! {

/// The part a process plays in the relay.
#[derive(Copy, Clone, Debug, PartialEq, Eq, Structural)]
pub enum Role {
    /// The publicly reachable node that forwards between agents.
    Rendezvous,
    /// An agent whose own application is the one others connect to.
    Host,
    /// An agent whose application connects to the other player's.
    Client,
}

/// One successful read on a stream: the bytes, and the frame they decode to if
/// they decode to one. A read of no bytes tells that the peer closed the stream.
#[derive(Debug)]
pub struct StreamRead {
    pub bytes: Vec<u8>,
    pub decoded: Option<Packet>,
}

/// What one tick saw of one registered stream.
#[derive(Debug)]
pub struct PortActivity {
    /// The stream's peer port, the key of its registry entry.
    pub port: u16,
    /// The outcome of a peek on the stream: `Some(n)` for `n` bytes, `None` for a
    /// peek that failed.
    pub peek: Option<usize>,
    /// What was read from the stream, in order.
    pub reads: Vec<StreamRead>,
}

/// What a [`RejectedPacket`] holds, as mathematical values.
pub struct RejectedView {
    pub receiver_name: Seq<char>,
    pub receiver_port: u16,
    pub data: Seq<u8>,
    pub source_port: u16,
}

/// Bytes from a local application that did not decode to a frame and are to be
/// relayed to the other player as they are.
#[derive(Debug, PartialEq, Eq)]
pub struct RejectedPacket {
    pub receiver_name: String,
    pub receiver_port: u16,
    pub data: Vec<u8>,
    /// With a client, the peer port of the stream the bytes came from; with a
    /// host, the port of the remote application's socket that the stream's flow
    /// stands for.
    pub source_port: u16,
}

impl View for RejectedPacket {
    type V = RejectedView;

    open spec fn view(&self) -> RejectedView {
        RejectedView {
            receiver_name: self.receiver_name@,
            receiver_port: self.receiver_port,
            data: self.data@,
            source_port: self.source_port,
        }
    }
}

/// One consequence of reading the registered streams.
pub enum Effect {
    /// The stream with this peer port is closed.
    Disconnected(u16),
    /// A data frame arrived on the stream with this peer port.
    Data(u16, DataView),
    /// A connection announcement arrived on the stream with this peer port.
    Connection(u16, ConnectionView),
    /// An operator command arrived.
    Command(Seq<char>),
    /// A greeting arrived on the stream with this peer port.
    Greeting(u16, GreetingView),
    /// This frame is to be written to the stream with this peer port.
    Reply(u16, PacketView),
    /// Unframed bytes arrived that are to be relayed.
    Rejected(RejectedView),
}

/// What a [`Dispatch`] holds, as mathematical values.
pub struct DispatchView {
    pub packets: Seq<(u16, DataView)>,
    pub connection_packets: Seq<(u16, ConnectionView)>,
    pub disconnected: Seq<u16>,
    pub commands: Seq<Seq<char>>,
    pub greetings: Seq<(u16, GreetingView)>,
    pub replies: Seq<(u16, PacketView)>,
    pub rejected_packets_buffers: Seq<RejectedView>,
}

impl DispatchView {
    pub open spec fn empty() -> DispatchView {
        DispatchView {
            packets: Seq::empty(),
            connection_packets: Seq::empty(),
            disconnected: Seq::empty(),
            commands: Seq::empty(),
            greetings: Seq::empty(),
            replies: Seq::empty(),
            rejected_packets_buffers: Seq::empty(),
        }
    }

    /// This record with `effect` added at the end of the list of its kind.
    pub open spec fn with(self, effect: Effect) -> DispatchView {
        match effect {
            Effect::Disconnected(port) => DispatchView {
                disconnected: self.disconnected.push(port),
                ..self
            },
            Effect::Data(port, data) => DispatchView {
                packets: self.packets.push((port, data)),
                ..self
            },
            Effect::Connection(port, connection) => DispatchView {
                connection_packets: self.connection_packets.push((port, connection)),
                ..self
            },
            Effect::Command(command) => DispatchView {
                commands: self.commands.push(command),
                ..self
            },
            Effect::Greeting(port, greeting) => DispatchView {
                greetings: self.greetings.push((port, greeting)),
                ..self
            },
            Effect::Reply(port, packet) => DispatchView {
                replies: self.replies.push((port, packet)),
                ..self
            },
            Effect::Rejected(rejected) => DispatchView {
                rejected_packets_buffers: self.rejected_packets_buffers.push(rejected),
                ..self
            },
        }
    }
}

/// `record` with `effects` added one after the other.
pub open spec fn extended(record: DispatchView, effects: Seq<Effect>) -> DispatchView
    decreases effects.len(),
{
    if effects.len() == 0 {
        record
    } else {
        extended(record, effects.drop_last()).with(effects.last())
    }
}

/// The effects sorted by kind, each list in the order of the effects.
pub open spec fn sorted(effects: Seq<Effect>) -> DispatchView {
    extended(DispatchView::empty(), effects)
}

/// Who reads the streams, as far as it bears on what a read leads to.
pub struct Reader {
    pub role: Role,
    /// Whom a client relays the bytes of its local applications to.
    pub default_receiver_name: Seq<char>,
    /// The port that a client relays them to.
    pub default_receiver_port: u16,
    /// The local flows that a host keeps.
    pub flows: Map<Seq<char>, FlowView>,
}

/// What bytes that are no frame lead to. They are the local application's own.
/// A client relays them to the player it talks to, at the port it was told. A
/// host looks for the flow that stands under the identifier of the stream, made
/// of the name of the stream's registry entry and the port of the stream's peer:
/// where there is one, the bytes go to the flow's player, with the port of the
/// remote application's socket to tell the flow by; where there is none, they go
/// nowhere. The rendezvous ignores them.
pub open spec fn unframed_effects(
    reader: Reader,
    name: Seq<char>,
    source_port: u16,
    bytes: Seq<u8>,
) -> Seq<Effect> {
    match reader.role {
        Role::Rendezvous => Seq::empty(),
        Role::Client => seq![
            Effect::Rejected(
                RejectedView {
                    receiver_name: reader.default_receiver_name,
                    receiver_port: reader.default_receiver_port,
                    data: bytes,
                    source_port,
                },
            ),
        ],
        Role::Host => {
            let key = identifier(name, source_port);
            if reader.flows.contains_key(key) {
                seq![
                    Effect::Rejected(
                        RejectedView {
                            receiver_name: reader.flows[key].player_name,
                            receiver_port: reader.flows[key].port,
                            data: bytes,
                            source_port: reader.flows[key].original_socket_port,
                        },
                    ),
                ]
            } else {
                Seq::empty()
            }
        },
    }
}

/// What one read on the stream with peer port `port` leads to; `name` is the
/// name of the stream's registry entry and `source_port` the port of the
/// stream's peer as the stream itself tells it. A read of no bytes means that
/// the peer closed the stream. A data frame, a connection announcement and a
/// command are queued; a greeting is queued and answered; a heartbeat is
/// answered with exactly one heartbeat that carries no name; a greeting reply
/// is only noted. Bytes that are no frame are relayed as [`unframed_effects`]
/// says.
pub open spec fn read_effects(
    reader: Reader,
    port: u16,
    name: Seq<char>,
    source_port: u16,
    bytes: Seq<u8>,
    decoded: Option<PacketView>,
) -> Seq<Effect> {
    if bytes.len() == 0 {
        seq![Effect::Disconnected(port)]
    } else {
        match decoded {
            Some(PacketView::Data(data)) => seq![Effect::Data(port, data)],
            Some(PacketView::Command(command)) => seq![Effect::Command(command.command)],
            Some(PacketView::Greeting(greeting)) => seq![
                Effect::Greeting(port, greeting),
                Effect::Reply(port, PacketView::GreetingReply),
            ],
            Some(PacketView::GreetingReply) => Seq::empty(),
            Some(PacketView::Heartbeat(_)) => seq![
                Effect::Reply(port, PacketView::Heartbeat(Seq::empty())),
            ],
            Some(PacketView::Connection(connection)) => seq![Effect::Connection(port, connection)],
            None => unframed_effects(reader, name, source_port, bytes),
        }
    }
}

/// What a run of reads on one stream leads to: the effects of each read, in
/// order.
pub open spec fn reads_effects(
    reader: Reader,
    port: u16,
    name: Seq<char>,
    source_port: u16,
    reads: Seq<StreamRead>,
) -> Seq<Effect>
    decreases reads.len(),
{
    if reads.len() == 0 {
        Seq::empty()
    } else {
        reads_effects(reader, port, name, source_port, reads.drop_last()) + read_effects(
            reader,
            port,
            name,
            source_port,
            reads.last().bytes@,
            decoded_view(reads.last().decoded),
        )
    }
}

/// What a tick's view of one stream leads to. A port that the registry does not
/// know is passed over. A connection that is dead is reported as disconnected and
/// not read. What was read is looked at only where there is a stream.
pub open spec fn activity_effects(
    reader: Reader,
    registry: Map<u16, PlayerView>,
    now_ms: u64,
    activity: PortActivity,
) -> Seq<Effect> {
    if !registry.contains_key(activity.port) {
        Seq::empty()
    } else if registry[activity.port].stream.timed_out(activity.peek, now_ms) {
        seq![Effect::Disconnected(activity.port)]
    } else {
        match registry[activity.port].stream.tcp {
            Some(peer) => reads_effects(
                reader,
                activity.port,
                registry[activity.port].name,
                peer.port,
                activity.reads@,
            ),
            None => Seq::empty(),
        }
    }
}

/// What a tick leads to: the effects of each stream's activity, in the order in
/// which the streams were visited.
pub open spec fn batch_effects(
    reader: Reader,
    registry: Map<u16, PlayerView>,
    now_ms: u64,
    batch: Seq<PortActivity>,
) -> Seq<Effect>
    decreases batch.len(),
{
    if batch.len() == 0 {
        Seq::empty()
    } else {
        batch_effects(
            reader,
            registry,
            now_ms,
            batch.drop_last(),
        ) + activity_effects(
            reader,
            registry,
            now_ms,
            batch.last(),
        )
    }
}

/// What reading the registered streams in one tick led to, sorted by kind.
#[derive(Debug)]
pub struct Dispatch {
    /// Data frames, each with the peer port of the stream it arrived on.
    pub packets: Vec<(u16, DataPacket)>,
    /// Connection announcements, each with the peer port of the stream it arrived
    /// on.
    pub connection_packets: Vec<(u16, ConnectionPacket)>,
    /// The peer ports of the streams found closed, once for each sign of it.
    pub disconnected: Vec<u16>,
    /// Operator commands.
    pub commands: Vec<String>,
    /// Greetings, each with the peer port of the stream it arrived on.
    pub greetings: Vec<(u16, GreetingPacket)>,
    /// Frames to write, each with the peer port of the stream to write it to.
    pub replies: Vec<(u16, Packet)>,
    /// Unframed bytes to relay.
    pub rejected_packets_buffers: Vec<RejectedPacket>,
}

/// Data frames with the ports they arrived on, as mathematical values.
pub open spec fn data_views(packets: Seq<(u16, DataPacket)>) -> Seq<(u16, DataView)> {
    packets.map_values(|e: (u16, DataPacket)| (e.0, e.1@))
}

/// Connection announcements with the ports they arrived on, as mathematical
/// values.
pub open spec fn connection_views(packets: Seq<(u16, ConnectionPacket)>) -> Seq<
    (u16, ConnectionView),
> {
    packets.map_values(|e: (u16, ConnectionPacket)| (e.0, e.1@))
}

/// Greetings with the ports they arrived on, as mathematical values.
pub open spec fn greeting_views(greetings: Seq<(u16, GreetingPacket)>) -> Seq<
    (u16, GreetingView),
> {
    greetings.map_values(|e: (u16, GreetingPacket)| (e.0, e.1@))
}

/// Frames with the ports they are meant for, as mathematical values.
pub open spec fn reply_views(replies: Seq<(u16, Packet)>) -> Seq<(u16, PacketView)> {
    replies.map_values(|e: (u16, Packet)| (e.0, e.1@))
}

/// Unframed bytes to relay, as mathematical values.
pub open spec fn rejected_views(rejected: Seq<RejectedPacket>) -> Seq<RejectedView> {
    rejected.map_values(|r: RejectedPacket| r@)
}

impl View for Dispatch {
    type V = DispatchView;

    open spec fn view(&self) -> DispatchView {
        DispatchView {
            packets: data_views(self.packets@),
            connection_packets: connection_views(self.connection_packets@),
            disconnected: self.disconnected@,
            commands: text_views(self.commands@),
            greetings: greeting_views(self.greetings@),
            replies: reply_views(self.replies@),
            rejected_packets_buffers: rejected_views(self.rejected_packets_buffers@),
        }
    }
}

impl Dispatch {
    /// Nothing happened.
    pub fn new() -> (r: Self)
        ensures
            r@ == DispatchView::empty(),
    {
        let r = Dispatch {
            packets: Vec::new(),
            connection_packets: Vec::new(),
            disconnected: Vec::new(),
            commands: Vec::new(),
            greetings: Vec::new(),
            replies: Vec::new(),
            rejected_packets_buffers: Vec::new(),
        };
        assert(r@.packets =~= Seq::empty());
        assert(r@.connection_packets =~= Seq::empty());
        assert(r@.commands =~= Seq::empty());
        assert(r@.greetings =~= Seq::empty());
        assert(r@.replies =~= Seq::empty());
        assert(r@.rejected_packets_buffers =~= Seq::empty());
        r
    }

    fn push_disconnected(&mut self, port: u16)
        ensures
            final(self)@ == old(self)@.with(Effect::Disconnected(port)),
    {
        self.disconnected.push(port);
    }

    fn push_data(&mut self, port: u16, data: DataPacket)
        ensures
            final(self)@ == old(self)@.with(Effect::Data(port, data@)),
    {
        self.packets.push((port, data));
        assert(self@.packets =~= old(self)@.packets.push((port, data@)));
    }

    fn push_connection(&mut self, port: u16, connection: ConnectionPacket)
        ensures
            final(self)@ == old(self)@.with(Effect::Connection(port, connection@)),
    {
        self.connection_packets.push((port, connection));
        assert(self@.connection_packets =~= old(self)@.connection_packets.push(
            (port, connection@),
        ));
    }

    fn push_command(&mut self, command: String)
        ensures
            final(self)@ == old(self)@.with(Effect::Command(command@)),
    {
        self.commands.push(command);
        assert(self@.commands =~= old(self)@.commands.push(command@));
    }

    fn push_greeting(&mut self, port: u16, greeting: GreetingPacket)
        ensures
            final(self)@ == old(self)@.with(Effect::Greeting(port, greeting@)),
    {
        self.greetings.push((port, greeting));
        assert(self@.greetings =~= old(self)@.greetings.push((port, greeting@)));
    }

    fn push_reply(&mut self, port: u16, packet: Packet)
        ensures
            final(self)@ == old(self)@.with(Effect::Reply(port, packet@)),
    {
        self.replies.push((port, packet));
        assert(self@.replies =~= old(self)@.replies.push((port, packet@)));
    }

    fn push_rejected(&mut self, rejected: RejectedPacket)
        ensures
            final(self)@ == old(self)@.with(Effect::Rejected(rejected@)),
    {
        self.rejected_packets_buffers.push(rejected);
        assert(self@.rejected_packets_buffers =~= old(self)@.rejected_packets_buffers.push(
            rejected@,
        ));
    }
}

/// A heartbeat on a stream is answered on that stream with exactly one heartbeat,
/// whoever reads, and leads to nothing else.
pub proof fn lemma_heartbeat_answered_once(
    record: DispatchView,
    reader: Reader,
    port: u16,
    name: Seq<char>,
    source_port: u16,
    bytes: Seq<u8>,
    sender: Seq<char>,
)
    requires
        bytes.len() > 0,
    ensures
        extended(
            record,
            read_effects(
                reader,
                port,
                name,
                source_port,
                bytes,
                Some(PacketView::Heartbeat(sender)),
            ),
        ) == (DispatchView {
            replies: record.replies.push((port, PacketView::Heartbeat(Seq::empty()))),
            ..record
        }),
{
    lemma_extended_one(record, Effect::Reply(port, PacketView::Heartbeat(Seq::empty())));
}

/// The number of reads among `reads` that brought a heartbeat.
pub open spec fn heartbeats_read(reads: Seq<StreamRead>) -> nat
    decreases reads.len(),
{
    if reads.len() == 0 {
        0
    } else {
        heartbeats_read(reads.drop_last()) + if reads.last().bytes@.len() > 0 && decoded_view(
            reads.last().decoded,
        ) is Some && decoded_view(reads.last().decoded)->0 is Heartbeat {
            1nat
        } else {
            0nat
        }
    }
}

/// The number of heartbeats among the frames to write.
pub open spec fn heartbeats_written(replies: Seq<(u16, PacketView)>) -> nat
    decreases replies.len(),
{
    if replies.len() == 0 {
        0
    } else {
        heartbeats_written(replies.drop_last()) + if replies.last().1 is Heartbeat {
            1nat
        } else {
            0nat
        }
    }
}

/// On one stream, as many heartbeats are written as were read, and every frame
/// to write goes to that stream.
pub proof fn lemma_heartbeats_answered(
    reader: Reader,
    port: u16,
    name: Seq<char>,
    source_port: u16,
    reads: Seq<StreamRead>,
)
    ensures
        ({
            let replies = sorted(reads_effects(reader, port, name, source_port, reads)).replies;
            &&& heartbeats_written(replies) == heartbeats_read(reads)
            &&& forall|i: int| 0 <= i < replies.len() ==> (#[trigger] replies[i]).0 == port
        }),
    decreases reads.len(),
{
    if reads.len() > 0 {
        let earlier = reads_effects(reader, port, name, source_port, reads.drop_last());
        let here = read_effects(
            reader,
            port,
            name,
            source_port,
            reads.last().bytes@,
            decoded_view(reads.last().decoded),
        );
        lemma_heartbeats_answered(reader, port, name, source_port, reads.drop_last());
        lemma_extended_concat(DispatchView::empty(), earlier, here);
        let before = sorted(earlier);
        if here.len() == 0 {
            assert(here =~= Seq::<Effect>::empty());
            lemma_extended_none(before);
        } else if here.len() == 1 {
            assert(here =~= seq![here[0]]);
            lemma_extended_one(before, here[0]);
            match here[0] {
                Effect::Reply(to, packet) => {
                    assert(before.replies.push((to, packet)).drop_last() =~= before.replies);
                },
                _ => {},
            }
        } else {
            assert(here =~= seq![here[0], here[1]]);
            lemma_extended_two(before, here[0], here[1]);
            assert(before.replies.push((port, PacketView::GreetingReply)).drop_last()
                =~= before.replies);
        }
    }
}

/// A data frame is queued as it is whatever it carries: one without payload
/// takes the same way as any other.
pub proof fn lemma_payload_plays_no_part(
    reader: Reader,
    port: u16,
    name: Seq<char>,
    source_port: u16,
    bytes: Seq<u8>,
    data: DataView,
)
    requires
        bytes.len() > 0,
    ensures
        read_effects(reader, port, name, source_port, bytes, Some(PacketView::Data(data)))
            == seq![Effect::Data(port, data)],
        sorted(
            read_effects(
                reader,
                port,
                name,
                source_port,
                bytes,
                Some(PacketView::Data(DataView { data: Seq::empty(), ..data })),
            ),
        ).packets == seq![(port, DataView { data: Seq::empty(), ..data })],
{
    lemma_extended_one(
        DispatchView::empty(),
        Effect::Data(port, DataView { data: Seq::empty(), ..data }),
    );
}

/// Bytes of a local application that are no frame are relayed by an agent and
/// by nobody else. A client relays them to the player it talks to. A host relays
/// them to the player of the flow that stands under the stream's identifier, and
/// drops them only where it keeps no such flow. Whoever relays them relays them
/// unchanged.
pub proof fn lemma_unframed_bytes_are_relayed(
    reader: Reader,
    port: u16,
    name: Seq<char>,
    source_port: u16,
    bytes: Seq<u8>,
)
    requires
        bytes.len() > 0,
    ensures
        ({
            let rejected = sorted(
                read_effects(reader, port, name, source_port, bytes, None),
            ).rejected_packets_buffers;
            let key = identifier(name, source_port);
            &&& reader.role == Role::Rendezvous ==> rejected.len() == 0
            &&& reader.role == Role::Client ==> rejected == seq![
                RejectedView {
                    receiver_name: reader.default_receiver_name,
                    receiver_port: reader.default_receiver_port,
                    data: bytes,
                    source_port,
                },
            ]
            &&& reader.role == Role::Host && reader.flows.contains_key(key) ==> rejected == seq![
                RejectedView {
                    receiver_name: reader.flows[key].player_name,
                    receiver_port: reader.flows[key].port,
                    data: bytes,
                    source_port: reader.flows[key].original_socket_port,
                },
            ]
            &&& reader.role == Role::Host && !reader.flows.contains_key(key) ==> rejected.len()
                == 0
        }),
{
    let effects = read_effects(reader, port, name, source_port, bytes, None);
    if effects.len() == 0 {
        assert(effects =~= Seq::<Effect>::empty());
        lemma_extended_none(DispatchView::empty());
    } else {
        assert(effects =~= seq![effects[0]]);
        lemma_extended_one(DispatchView::empty(), effects[0]);
    }
}

/// Adding two runs of effects one after the other is adding their
/// concatenation.
pub proof fn lemma_extended_concat(record: DispatchView, first: Seq<Effect>, second: Seq<Effect>)
    ensures
        extended(extended(record, first), second) == extended(record, first + second),
    decreases second.len(),
{
    if second.len() == 0 {
        assert(first + second =~= first);
    } else {
        lemma_extended_concat(record, first, second.drop_last());
        assert((first + second).drop_last() =~= first + second.drop_last());
    }
}

proof fn lemma_extended_none(record: DispatchView)
    ensures
        extended(record, Seq::<Effect>::empty()) == record,
{
}

proof fn lemma_extended_one(record: DispatchView, effect: Effect)
    ensures
        extended(record, seq![effect]) == record.with(effect),
{
    assert(seq![effect].drop_last() =~= Seq::<Effect>::empty());
    lemma_extended_none(record);
}

proof fn lemma_extended_two(record: DispatchView, first: Effect, second: Effect)
    ensures
        extended(record, seq![first, second]) == record.with(first).with(second),
{
    assert(seq![first, second].drop_last() =~= seq![first]);
    lemma_extended_one(record, first);
}

/// Sorts what one read on the stream with peer port `port` leads to into `out`.
/// `name` is the name of the stream's registry entry, and `source_port` the port
/// of the stream's peer as the stream itself tells it.
pub fn process_read(
    out: &mut Dispatch,
    role: Role,
    default_receiver_name: &String,
    default_receiver_port: u16,
    redirection_table: &RedirectionTable,
    port: u16,
    name: &String,
    source_port: u16,
    read: &StreamRead,
)
    ensures
        final(out)@ == extended(
            old(out)@,
            read_effects(
                (Reader {
                    role,
                    default_receiver_name: default_receiver_name@,
                    default_receiver_port,
                    flows: redirection_table@,
                }),
                port,
                name@,
                source_port,
                read.bytes@,
                decoded_view(read.decoded),
            ),
        ),
{
    proof {
        lemma_extended_none(old(out)@);
    }
    if read.bytes.len() == 0 {
        proof {
            lemma_extended_one(old(out)@, Effect::Disconnected(port));
        }
        out.push_disconnected(port);
        return ;
    }
    match &read.decoded {
        Some(Packet::Data(data)) => {
            proof {
                lemma_extended_one(old(out)@, Effect::Data(port, data@));
            }
            out.push_data(port, data.clone());
        },
        Some(Packet::Command(command)) => {
            proof {
                lemma_extended_one(old(out)@, Effect::Command(command.command@));
            }
            out.push_command(command.command.clone());
        },
        Some(Packet::Greeting(greeting)) => {
            proof {
                lemma_extended_two(
                    old(out)@,
                    Effect::Greeting(port, greeting@),
                    Effect::Reply(port, PacketView::GreetingReply),
                );
            }
            out.push_greeting(port, greeting.clone());
            out.push_reply(port, Packet::GreetingReply);
        },
        Some(Packet::GreetingReply) => {},
        Some(Packet::Heartbeat(_)) => {
            proof {
                lemma_extended_one(
                    old(out)@,
                    Effect::Reply(port, PacketView::Heartbeat(Seq::empty())),
                );
            }
            out.push_reply(port, Packet::Heartbeat(String::new()));
        },
        Some(Packet::Connection(connection)) => {
            proof {
                lemma_extended_one(old(out)@, Effect::Connection(port, connection@));
            }
            out.push_connection(port, connection.clone());
        },
        None => match role {
            Role::Rendezvous => {},
            Role::Client => {
                let rejected = RejectedPacket {
                    receiver_name: default_receiver_name.clone(),
                    receiver_port: default_receiver_port,
                    data: read.bytes.clone(),
                    source_port,
                };
                proof {
                    lemma_extended_one(old(out)@, Effect::Rejected(rejected@));
                }
                out.push_rejected(rejected);
            },
            Role::Host => {
                let key = make_identifier(name, source_port);
                match redirection_table.get(&key) {
                    Some(flow) => {
                        let rejected = RejectedPacket {
                            receiver_name: flow.player_name.clone(),
                            receiver_port: flow.port,
                            data: read.bytes.clone(),
                            source_port: flow.original_socket_port,
                        };
                        proof {
                            lemma_extended_one(old(out)@, Effect::Rejected(rejected@));
                        }
                        out.push_rejected(rejected);
                    },
                    None => {},
                }
            },
        },
    }
}

/// Reads one tick's view of the registered streams. `batch` holds, for each
/// stream visited, the outcome of a peek and what was read from it; `now_ms` is
/// the time of the visit; `redirection_table` holds the local flows, which only
/// a host keeps. The result holds every effect of the tick, sorted by kind, each
/// list in the order in which the frames were visited.
pub fn process_packets(
    connections: &InnerConnections,
    batch: &Vec<PortActivity>,
    now_ms: u64,
    role: Role,
    default_receiver_name: &String,
    default_receiver_port: u16,
    redirection_table: &RedirectionTable,
) -> (out: Dispatch)
    ensures
        out@ == sorted(
            batch_effects(
                (Reader {
                    role,
                    default_receiver_name: default_receiver_name@,
                    default_receiver_port,
                    flows: redirection_table@,
                }),
                connections@,
                now_ms,
                batch@,
            ),
        ),
{
    let ghost reader = Reader {
        role,
        default_receiver_name: default_receiver_name@,
        default_receiver_port,
        flows: redirection_table@,
    };
    let mut out = Dispatch::new();
    let mut i: usize = 0;
    while i < batch.len()
        invariant
            i <= batch.len(),
            reader == (Reader {
                role,
                default_receiver_name: default_receiver_name@,
                default_receiver_port,
                flows: redirection_table@,
            }),
            out@ == sorted(batch_effects(reader, connections@, now_ms, batch@.take(i as int))),
        decreases batch.len() - i,
    {
        let ghost done = batch_effects(reader, connections@, now_ms, batch@.take(i as int));
        let ghost here = activity_effects(reader, connections@, now_ms, batch@[i as int]);
        proof {
            assert(batch@.take(i + 1).drop_last() =~= batch@.take(i as int));
            lemma_extended_none(out@);
        }
        let activity = &batch[i];
        match connections.get(&activity.port) {
            Some(player) => {
                if player.stream.is_timed_out(activity.peek, now_ms) {
                    proof {
                        lemma_extended_one(out@, Effect::Disconnected(activity.port));
                    }
                    out.push_disconnected(activity.port);
                } else if player.stream.has_tcp() {
                    let source_port = player.stream.get_tcp_addr().port;
                    let mut j: usize = 0;
                    while j < activity.reads.len()
                        invariant
                            j <= activity.reads.len(),
                            reader == (Reader {
                                role,
                                default_receiver_name: default_receiver_name@,
                                default_receiver_port,
                                flows: redirection_table@,
                            }),
                            out@ == extended(
                                sorted(done),
                                reads_effects(
                                    reader,
                                    activity.port,
                                    player.name@,
                                    source_port,
                                    activity.reads@.take(j as int),
                                ),
                            ),
                        decreases activity.reads.len() - j,
                    {
                        proof {
                            assert(activity.reads@.take(j + 1).drop_last() =~= activity.reads@.take(
                                j as int,
                            ));
                            lemma_extended_concat(
                                sorted(done),
                                reads_effects(
                                    reader,
                                    activity.port,
                                    player.name@,
                                    source_port,
                                    activity.reads@.take(j as int),
                                ),
                                read_effects(
                                    reader,
                                    activity.port,
                                    player.name@,
                                    source_port,
                                    activity.reads@[j as int].bytes@,
                                    decoded_view(activity.reads@[j as int].decoded),
                                ),
                            );
                        }
                        process_read(
                            &mut out,
                            role,
                            default_receiver_name,
                            default_receiver_port,
                            redirection_table,
                            activity.port,
                            &player.name,
                            source_port,
                            &activity.reads[j],
                        );
                        j = j + 1;
                    }
                    proof {
                        assert(activity.reads@.take(j as int) =~= activity.reads@);
                    }
                }
            },
            None => {},
        }
        proof {
            assert(out@ == extended(sorted(done), here));
            lemma_extended_concat(DispatchView::empty(), done, here);
        }
        i = i + 1;
    }
    proof {
        assert(batch@.take(i as int) =~= batch@);
    }
    out
}

} // verus!
