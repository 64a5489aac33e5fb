//! The rendezvous: it keeps the registry, answers greetings and heartbeats, and
//! forwards frames to the agent that the frame names as its receiver.

use vstd::prelude::*;
use vstd::string::*;
use crate::connections::{
    greeted,
    missing_name,
    name_taken,
    name_taken_by_another,
    names_unique,
    with_udp_port,
    is_listing,
    public_views,
    lemma_greeting_keeps_names_unique,
    lemma_removal_keeps_names_unique,
    process_disconnection,
    InnerConnections,
    PlayerView,
    PublicPlayerData,
};
use crate::dispatch::{
    batch_effects,
    greeting_views,
    process_packets,
    reply_views,
    sorted,
    PortActivity,
    Reader,
    Role,
};
use crate::flows::RedirectionTable;
use crate::packet::{
    decoded_view,
    ConnectionPacket,
    DataPacket,
    DataView,
    GreetingPacket,
    GreetingView,
    Packet,
    PacketView,
};
use crate::socket::PeerAddress;
use crate::text::{wildcard, wildcard_address};

verus! {

/// The registry after the rendezvous dealt with the greeting `g` that arrived on
/// the stream with peer port `port`. A stream that is no longer registered is
/// passed over. A greeting whose name another entry carries is an impostor's: its
/// entry is evicted. Otherwise the entry takes the name and the advertised port;
/// so does an entry that greets again under the name it has.
pub open spec fn greeting_received(m: Map<u16, PlayerView>, port: u16, g: GreetingView) -> Map<
    u16,
    PlayerView,
> {
    if !m.contains_key(port) {
        m
    } else if name_taken_by_another(m, port, g.player_name) {
        m.remove(port)
    } else {
        greeted(m, port, g)
    }
}

/// The registry after the rendezvous dealt with `greetings`, one after the other.
pub open spec fn greetings_received(
    m: Map<u16, PlayerView>,
    greetings: Seq<(u16, GreetingView)>,
) -> Map<u16, PlayerView>
    decreases greetings.len(),
{
    if greetings.len() == 0 {
        m
    } else {
        greeting_received(
            greetings_received(m, greetings.drop_last()),
            greetings.last().0,
            greetings.last().1,
        )
    }
}

/// Names stay unique through any run of greetings: after greeting processing no
/// two entries share a name.
pub proof fn lemma_greetings_keep_names_unique(
    m: Map<u16, PlayerView>,
    greetings: Seq<(u16, GreetingView)>,
)
    requires
        names_unique(m),
    ensures
        names_unique(greetings_received(m, greetings)),
    decreases greetings.len(),
{
    if greetings.len() > 0 {
        lemma_greetings_keep_names_unique(m, greetings.drop_last());
        let before = greetings_received(m, greetings.drop_last());
        lemma_removal_keeps_names_unique(before, greetings.last().0);
        lemma_greeting_keeps_names_unique(before, greetings.last().0, greetings.last().1);
    }
}

/// What the rendezvous does with one datagram.
#[derive(Debug, PartialEq, Eq)]
pub enum DatagramAction {
    /// Send `payload`, the datagram as it was received, to `to`: the receiver's
    /// host, at the source port of the receiver's latest heartbeat.
    Forward { to: PeerAddress, payload: Vec<u8> },
    /// Answer the sender with this frame, a heartbeat that carries no name.
    Reply(Packet),
    /// Send nothing.
    Drop,
}

/// Where datagrams for the peer `player` go: to the host of its stream, at the
/// source port of its latest heartbeat datagram.
pub open spec fn datagram_address(player: PlayerView) -> PeerAddress {
    PeerAddress { host: player.address.host, port: player.last_known_udp_port }
}

/// How a datagram changes the registry, from `before` to `after`. A heartbeat
/// for a registered name sets the datagram port on record, of one entry of that
/// name, to the datagram's source port. Nothing else changes anything.
pub open spec fn datagram_step(
    before: Map<u16, PlayerView>,
    decoded: Option<PacketView>,
    source_port: u16,
    after: Map<u16, PlayerView>,
) -> bool {
    match decoded {
        Some(PacketView::Heartbeat(name)) => if name_taken(before, name) {
            exists|p: u16|
                #![trigger before[p]]
                before.contains_key(p) && before[p].name == name && after == with_udp_port(
                    before,
                    p,
                    source_port,
                )
        } else {
            after == before
        },
        _ => after == before,
    }
}

/// Whether `action` is what the rendezvous does with a datagram of `bytes`,
/// given the registry `m` at its arrival. A data frame is forwarded, the whole
/// datagram as it came, to an entry that carries the receiver's name, and to no
/// other; it is dropped where there is none. A heartbeat for a registered name
/// is answered with a heartbeat that carries no name. Everything else is
/// dropped.
pub open spec fn datagram_action(
    m: Map<u16, PlayerView>,
    bytes: Seq<u8>,
    decoded: Option<PacketView>,
    action: DatagramAction,
) -> bool {
    match decoded {
        Some(PacketView::Data(data)) => match action {
            DatagramAction::Forward { to, payload } => payload@ == bytes && exists|p: u16|
                #![trigger m[p]]
                m.contains_key(p) && m[p].name == data.receiver_name && to == datagram_address(
                    m[p],
                ),
            DatagramAction::Reply(_) => false,
            DatagramAction::Drop => !name_taken(m, data.receiver_name),
        },
        Some(PacketView::Heartbeat(name)) => if name_taken(m, name) {
            action matches DatagramAction::Reply(frame) && frame@ == PacketView::Heartbeat(
                Seq::empty(),
            )
        } else {
            action is Drop
        },
        _ => action is Drop,
    }
}

/// A data datagram reaches the player that it names: where one entry and no
/// other carries the receiver's name, the datagram goes, unchanged, to that
/// entry's host at the port of its latest heartbeat.
pub proof fn lemma_datagram_reaches_the_named_receiver(
    m: Map<u16, PlayerView>,
    bytes: Seq<u8>,
    data: DataView,
    action: DatagramAction,
    port: u16,
)
    requires
        datagram_action(m, bytes, Some(PacketView::Data(data)), action),
        m.contains_key(port),
        m[port].name == data.receiver_name,
        forall|q: u16| m.contains_key(q) && (#[trigger] m[q]).name == data.receiver_name ==> q == port,
    ensures
        action matches DatagramAction::Forward { to, payload } && to == datagram_address(m[port])
            && payload@ == bytes,
{
}

/// A heartbeat datagram puts its source port on record for the player that it
/// names, and changes nothing else: where one entry and no other carries the
/// name, that entry has the port afterwards, keeps everything else, and every
/// other entry stays as it was.
pub proof fn lemma_heartbeat_sets_the_port(
    before: Map<u16, PlayerView>,
    name: Seq<char>,
    source_port: u16,
    after: Map<u16, PlayerView>,
    port: u16,
)
    requires
        datagram_step(before, Some(PacketView::Heartbeat(name)), source_port, after),
        before.contains_key(port),
        before[port].name == name,
        forall|q: u16| before.contains_key(q) && (#[trigger] before[q]).name == name ==> q == port,
    ensures
        after == before.insert(
            port,
            PlayerView { last_known_udp_port: source_port, ..before[port] },
        ),
        after[port].last_known_udp_port == source_port,
        after.dom() == before.dom(),
{
    assert(name_taken(before, name));
    let p = choose|p: u16|
        #![trigger before[p]]
        before.contains_key(p) && before[p].name == name && after == with_udp_port(
            before,
            p,
            source_port,
        );
    assert(p == port);
    assert(after.dom() =~= before.dom());
}

/// One datagram as the rendezvous saw it: the frame it decoded to, if any, and
/// the port it came from.
pub struct DatagramEvent {
    pub decoded: Option<PacketView>,
    pub source_port: u16,
}

/// Whether `states` is a course that the registry can take while the rendezvous
/// receives `events`: one state before each datagram and one after the last.
pub open spec fn datagram_run(states: Seq<Map<u16, PlayerView>>, events: Seq<DatagramEvent>) -> bool {
    &&& states.len() == events.len() + 1
    &&& forall|i: int|
        0 <= i < events.len() ==> datagram_step(
            #[trigger] states[i],
            events[i].decoded,
            events[i].source_port,
            states[i + 1],
        )
}

/// The source port of the latest heartbeat for `name` among `events`, or
/// `fallback` where there is none.
pub open spec fn latest_heartbeat_port(
    name: Seq<char>,
    events: Seq<DatagramEvent>,
    fallback: u16,
) -> u16
    decreases events.len(),
{
    if events.len() == 0 {
        fallback
    } else if events.last().decoded == Some(PacketView::Heartbeat(name)) {
        events.last().source_port
    } else {
        latest_heartbeat_port(name, events.drop_last(), fallback)
    }
}

/// A datagram changes no entry's name and no entry's presence, and it changes
/// the datagram port only of an entry that carries the name of a heartbeat.
pub proof fn lemma_datagram_step_frame(
    before: Map<u16, PlayerView>,
    decoded: Option<PacketView>,
    source_port: u16,
    after: Map<u16, PlayerView>,
)
    requires
        datagram_step(before, decoded, source_port, after),
    ensures
        after.dom() == before.dom(),
        forall|p: u16|
            before.contains_key(p) ==> (#[trigger] after[p]).name == before[p].name && after[p]
                == (PlayerView { last_known_udp_port: after[p].last_known_udp_port, ..before[p] }),
        forall|p: u16|
            before.contains_key(p) && decoded != Some(PacketView::Heartbeat(before[p].name))
                ==> #[trigger] after[p] == before[p],
        names_unique(before) ==> names_unique(after),
{
    match decoded {
        Some(PacketView::Heartbeat(name)) => {
            if name_taken(before, name) {
                let p = choose|p: u16|
                    #![trigger before[p]]
                    before.contains_key(p) && before[p].name == name && after == with_udp_port(
                        before,
                        p,
                        source_port,
                    );
                assert(after.dom() =~= before.dom());
                if names_unique(before) {
                    assert forall|a: u16, b: u16|
                        #![trigger after[a], after[b]]
                        after.contains_key(a) && after.contains_key(b) && a != b && after[a].name
                            != missing_name() implies after[a].name != after[b].name by {
                        assert(before[a].name != before[b].name);
                    }
                }
            }
        },
        _ => {},
    }
}

/// The datagram port on record for a player is the source port of the latest
/// heartbeat datagram that carried the player's name, as long as no other entry
/// carries that name; before the first such heartbeat it is what it was.
pub proof fn lemma_udp_port_follows_heartbeats(
    states: Seq<Map<u16, PlayerView>>,
    events: Seq<DatagramEvent>,
    port: u16,
)
    requires
        datagram_run(states, events),
        states[0].contains_key(port),
        forall|q: u16|
            states[0].contains_key(q) && (#[trigger] states[0][q]).name == states[0][port].name
                ==> q == port,
    ensures
        states.last().contains_key(port),
        states.last()[port].name == states[0][port].name,
        states.last()[port].last_known_udp_port == latest_heartbeat_port(
            states[0][port].name,
            events,
            states[0][port].last_known_udp_port,
        ),
        events.len() > 0 && events.last().decoded == Some(
            PacketView::Heartbeat(states[0][port].name),
        ) ==> states.last()[port].last_known_udp_port == events.last().source_port,
        forall|q: u16|
            states.last().contains_key(q) && (#[trigger] states.last()[q]).name
                == states[0][port].name ==> q == port,
    decreases events.len(),
{
    if events.len() > 0 {
        let earlier = states.drop_last();
        let before = earlier.last();
        let after = states.last();
        let event = events.last();
        assert(datagram_run(earlier, events.drop_last())) by {
            assert forall|i: int| 0 <= i < events.drop_last().len() implies datagram_step(
                #[trigger] earlier[i],
                events.drop_last()[i].decoded,
                events.drop_last()[i].source_port,
                earlier[i + 1],
            ) by {
                assert(datagram_step(
                    states[i],
                    events[i].decoded,
                    events[i].source_port,
                    states[i + 1],
                ));
            }
        }
        lemma_udp_port_follows_heartbeats(earlier, events.drop_last(), port);
        assert(before == states[events.len() - 1]);
        assert(datagram_step(before, event.decoded, event.source_port, after)) by {
            assert(datagram_step(
                states[events.len() - 1],
                events[events.len() - 1].decoded,
                events[events.len() - 1].source_port,
                states[events.len() - 1 + 1],
            ));
        }
        lemma_datagram_step_frame(before, event.decoded, event.source_port, after);
        assert(after.contains_key(port)) by {
            assert(before.dom().contains(port));
        }
        assert forall|q: u16|
            after.contains_key(q) && (#[trigger] after[q]).name
                == states[0][port].name implies q == port by {
            assert(before.dom().contains(q));
            assert(before[q].name == after[q].name);
        }
        if event.decoded == Some(PacketView::Heartbeat(states[0][port].name)) {
            let name = states[0][port].name;
            assert(before[port].name == name);
            assert(name_taken(before, name));
            let p = choose|p: u16|
                #![trigger before[p]]
                before.contains_key(p) && before[p].name == name && after == with_udp_port(
                    before,
                    p,
                    event.source_port,
                );
            assert(p == port);
        }
    }
}

/// The state of the rendezvous.
#[derive(Debug)]
pub struct ServerState {
    pub connections: InnerConnections,
}

impl ServerState {
    /// A rendezvous that knows nobody yet.
    pub fn new() -> (r: Self)
        ensures
            r.connections@ == Map::<u16, PlayerView>::empty(),
            names_unique(r.connections@),
    {
        ServerState { connections: InnerConnections::default() }
    }

    /// Deals with the greetings of one tick, in order.
    pub fn receive_greetings(&mut self, greetings: Vec<(u16, GreetingPacket)>)
        ensures
            final(self).connections@ == greetings_received(
                old(self).connections@,
                greeting_views(greetings@),
            ),
            names_unique(old(self).connections@) ==> names_unique(final(self).connections@),
    {
        proof {
            if names_unique(self.connections@) {
                lemma_greetings_keep_names_unique(self.connections@, greeting_views(greetings@));
            }
        }
        let mut i: usize = 0;
        while i < greetings.len()
            invariant
                i <= greetings.len(),
                self.connections@ == greetings_received(
                    old(self).connections@,
                    greeting_views(greetings@.take(i as int)),
                ),
            decreases greetings.len() - i,
        {
            proof {
                assert(greeting_views(greetings@.take(i + 1)).drop_last() =~= greeting_views(
                    greetings@.take(i as int),
                ));
            }
            let port = greetings[i].0;
            if self.connections.get(&port).is_some() {
                if !self.connections.update_player_from_greeting(port, &greetings[i].1) {
                    self.connections.remove(&port);
                }
            }
            i = i + 1;
        }
        proof {
            assert(greetings@.take(i as int) =~= greetings@);
        }
    }

    /// Deals with one datagram of `bytes` that came from `source_port`; `decoded`
    /// is the frame it decoded to, if it did.
    pub fn handle_datagram(
        &mut self,
        bytes: Vec<u8>,
        decoded: &Option<Packet>,
        source_port: u16,
    ) -> (action: DatagramAction)
        ensures
            datagram_step(
                old(self).connections@,
                decoded_view(*decoded),
                source_port,
                final(self).connections@,
            ),
            datagram_action(old(self).connections@, bytes@, decoded_view(*decoded), action),
            names_unique(old(self).connections@) ==> names_unique(final(self).connections@),
    {
        let action = match decoded {
            Some(Packet::Data(data)) => {
                match self.connections.get_player_tcp_port_by_name(&data.receiver_name) {
                    Some(port) => match self.connections.get(&port) {
                        Some(player) => DatagramAction::Forward {
                            to: player.address.with_port(player.last_known_udp_port),
                            payload: bytes,
                        },
                        None => DatagramAction::Drop,
                    },
                    None => DatagramAction::Drop,
                }
            },
            Some(Packet::Heartbeat(name)) => {
                match self.connections.get_player_udp_port_by_name_mut(name) {
                    Some(udp_port) => {
                        *udp_port = source_port;
                        DatagramAction::Reply(Packet::Heartbeat(String::new()))
                    },
                    None => DatagramAction::Drop,
                }
            },
            _ => DatagramAction::Drop,
        };
        proof {
            lemma_datagram_step_frame(
                old(self).connections@,
                decoded_view(*decoded),
                source_port,
                self.connections@,
            );
        }
        action
    }

    /// The names of all registered peers, each entry once, in no particular
    /// order.
    pub fn print_connections(&self) -> (r: Vec<PublicPlayerData>)
        ensures
            is_listing(self.connections@, public_views(r@)),
    {
        self.connections.public_players()
    }

    /// Carries out the operator commands of one tick, in order. The only command
    /// is `show_connections`, which asks for the names of all registered peers;
    /// anything else comes back as unknown. The registry stays as it is.
    pub fn receive_commands(&mut self, commands: Vec<String>) -> (r: Vec<CommandOutcome>)
        ensures
            final(self).connections@ == old(self).connections@,
            r.len() == commands.len(),
            forall|i: int|
                0 <= i < r.len() ==> command_outcome(
                    old(self).connections@,
                    commands@[i]@,
                    #[trigger] r@[i],
                ),
    {
        let show: String = "show_connections".to_owned();
        let mut out: Vec<CommandOutcome> = Vec::new();
        let mut i: usize = 0;
        while i < commands.len()
            invariant
                i <= commands.len(),
                out.len() == i,
                show@ == "show_connections"@,
                self.connections@ == old(self).connections@,
                forall|k: int|
                    0 <= k < i ==> command_outcome(
                        old(self).connections@,
                        commands@[k]@,
                        #[trigger] out@[k],
                    ),
            decreases commands.len() - i,
        {
            if commands[i] == show {
                out.push(CommandOutcome::Connections(self.print_connections()));
            } else {
                out.push(CommandOutcome::Unknown(commands[i].clone()));
            }
            i = i + 1;
        }
        out
    }
}

/// What carrying out one operator command gave.
#[derive(Debug, PartialEq, Eq)]
pub enum CommandOutcome {
    /// The answer to `show_connections`.
    Connections(Vec<PublicPlayerData>),
    /// The command is not known; here it is again.
    Unknown(String),
}

/// Whether `outcome` is what the command `command` gives on the registry `m`.
pub open spec fn command_outcome(
    m: Map<u16, PlayerView>,
    command: Seq<char>,
    outcome: CommandOutcome,
) -> bool {
    match outcome {
        CommandOutcome::Connections(players) => command == "show_connections"@ && is_listing(
            m,
            public_views(players@),
        ),
        CommandOutcome::Unknown(text) => command != "show_connections"@ && text@ == command,
    }
}

/// Where one frame goes.
#[derive(Debug)]
pub struct Delivery {
    /// The peer port of the receiver's stream, or `None` where nobody carries the
    /// receiver's name and the frame is dropped.
    pub to: Option<u16>,
    /// The frame, as it arrived.
    pub frame: Packet,
}

/// Whether `to` is a destination for a frame addressed to `receiver_name`: an
/// entry that carries this name, or nothing where no entry does.
pub open spec fn routed(m: Map<u16, PlayerView>, receiver_name: Seq<char>, to: Option<u16>) -> bool {
    match to {
        Some(port) => m.contains_key(port) && m[port].name == receiver_name,
        None => !name_taken(m, receiver_name),
    }
}

/// The receiver that a relayed frame names.
pub open spec fn receiver_of(frame: PacketView) -> Seq<char>
    recommends
        frame is Data || frame is Connection,
{
    match frame {
        PacketView::Data(data) => data.receiver_name,
        PacketView::Connection(connection) => connection.receiver_name,
        _ => Seq::empty(),
    }
}

/// Decides where the data frames and connection announcements of one tick go:
/// first the data frames, then the announcements, each in order and unchanged. A
/// frame goes to the stream of an entry that carries the name of the frame's
/// receiver.
pub fn relay_packets(
    server: &ServerState,
    packets: &Vec<(u16, DataPacket)>,
    connection_packets: &Vec<(u16, ConnectionPacket)>,
) -> (out: Vec<Delivery>)
    ensures
        out.len() == packets.len() + connection_packets.len(),
        forall|i: int|
            0 <= i < packets.len() ==> (#[trigger] out@[i]).frame@ == PacketView::Data(
                packets@[i].1@,
            ),
        forall|i: int|
            0 <= i < connection_packets.len() ==> (#[trigger] out@[packets.len() + i]).frame@
                == PacketView::Connection(connection_packets@[i].1@),
        forall|i: int|
            0 <= i < out.len() ==> routed(
                server.connections@,
                receiver_of((#[trigger] out@[i]).frame@),
                out@[i].to,
            ),
{
    let mut out: Vec<Delivery> = Vec::new();
    let mut i: usize = 0;
    while i < packets.len()
        invariant
            i <= packets.len(),
            out.len() == i,
            forall|k: int|
                0 <= k < i ==> (#[trigger] out@[k]).frame@ == PacketView::Data(packets@[k].1@),
            forall|k: int|
                0 <= k < i ==> routed(
                    server.connections@,
                    receiver_of((#[trigger] out@[k]).frame@),
                    out@[k].to,
                ),
        decreases packets.len() - i,
    {
        let packet = &packets[i].1;
        let to = server.connections.get_player_tcp_port_by_name(&packet.receiver_name);
        out.push(Delivery { to, frame: Packet::Data(packet.clone()) });
        i = i + 1;
    }
    let mut j: usize = 0;
    while j < connection_packets.len()
        invariant
            j <= connection_packets.len(),
            i == packets.len(),
            out.len() == i + j,
            forall|k: int|
                0 <= k < i ==> (#[trigger] out@[k]).frame@ == PacketView::Data(packets@[k].1@),
            forall|k: int|
                0 <= k < j ==> (#[trigger] out@[i + k]).frame@ == PacketView::Connection(
                    connection_packets@[k].1@,
                ),
            forall|k: int|
                0 <= k < i + j ==> routed(
                    server.connections@,
                    receiver_of((#[trigger] out@[k]).frame@),
                    out@[k].to,
                ),
        decreases connection_packets.len() - j,
    {
        let packet = &connection_packets[j].1;
        let to = server.connections.get_player_tcp_port_by_name(&packet.receiver_name);
        out.push(Delivery { to, frame: Packet::Connection(packet.clone()) });
        j = j + 1;
    }
    out
}

/// The rendezvous as a reader of streams: it relays no local bytes and keeps no
/// flows.
pub open spec fn rendezvous_reader() -> Reader {
    Reader {
        role: Role::Rendezvous,
        default_receiver_name: Seq::empty(),
        default_receiver_port: 0,
        flows: Map::empty(),
    }
}

/// What the rendezvous has to do after one tick of reading its streams.
#[derive(Debug)]
pub struct RendezvousTick {
    /// Frames to write, each with the peer port of the stream to write it to.
    pub replies: Vec<(u16, Packet)>,
    /// The frames to forward: first the data frames, then the connection
    /// announcements.
    pub deliveries: Vec<Delivery>,
    /// What the operator commands gave.
    pub outcomes: Vec<CommandOutcome>,
}

impl ServerState {
    /// One tick of the rendezvous over its streams. `batch` holds what the tick
    /// saw of each stream, `now_ms` is the time. Frames are forwarded by the
    /// registry as it was when the tick began; then the closed streams leave the
    /// registry, the greetings are dealt with, and the commands are carried out.
    pub fn tick(&mut self, batch: &Vec<PortActivity>, now_ms: u64) -> (out: RendezvousTick)
        ensures
            ({
                let before = old(self).connections@;
                let d = sorted(batch_effects(rendezvous_reader(), before, now_ms, batch@));
                &&& reply_views(out.replies@) == d.replies
                &&& out.deliveries.len() == d.packets.len() + d.connection_packets.len()
                &&& forall|i: int|
                    0 <= i < d.packets.len() ==> (#[trigger] out.deliveries@[i]).frame@
                        == PacketView::Data(d.packets[i].1)
                &&& forall|i: int|
                    0 <= i < d.connection_packets.len() ==> (#[trigger] out.deliveries@[d.packets.len()
                        + i]).frame@ == PacketView::Connection(d.connection_packets[i].1)
                &&& forall|i: int|
                    0 <= i < out.deliveries.len() ==> routed(
                        before,
                        receiver_of((#[trigger] out.deliveries@[i]).frame@),
                        out.deliveries@[i].to,
                    )
                &&& final(self).connections@ == greetings_received(
                    before.remove_keys(d.disconnected.to_set()),
                    d.greetings,
                )
                &&& out.outcomes.len() == d.commands.len()
                &&& forall|i: int|
                    0 <= i < out.outcomes.len() ==> command_outcome(
                        final(self).connections@,
                        d.commands[i],
                        #[trigger] out.outcomes@[i],
                    )
            }),
            names_unique(old(self).connections@) ==> names_unique(final(self).connections@),
    {
        let nobody = String::new();
        let no_flows = RedirectionTable::new();
        let d = process_packets(
            &self.connections,
            batch,
            now_ms,
            Role::Rendezvous,
            &nobody,
            0,
            &no_flows,
        );
        let deliveries = relay_packets(self, &d.packets, &d.connection_packets);
        process_disconnection(&mut self.connections, &d.disconnected);
        self.receive_greetings(d.greetings);
        let outcomes = self.receive_commands(d.commands);
        RendezvousTick { replies: d.replies, deliveries, outcomes }
    }
}

/// What a rendezvous starts with.
#[derive(Debug)]
pub struct RendezvousStart {
    pub state: ServerState,
    /// The address on which to listen for streams and to receive datagrams.
    pub bind_address: String,
}

/// Starts a rendezvous on `port`: it knows nobody yet and serves streams and
/// datagrams on that port of every interface.
pub fn host(port: u16) -> (r: RendezvousStart)
    ensures
        r.state.connections@ == Map::<u16, PlayerView>::empty(),
        r.bind_address@ == wildcard(port),
{
    RendezvousStart { state: ServerState::new(), bind_address: wildcard_address(port) }
}

} // verus!
