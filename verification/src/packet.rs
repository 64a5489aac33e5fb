//! The frames exchanged on the relay's stream and datagram channels.

use vstd::prelude::*;
use vstd::string::*;
use crate::commands::SocketType;
use crate::text::{decimal, lemma_decimal_digits, lemma_decimal_injective, push_decimal};

verus! {

/// What a [`ConnectionPacket`] holds, as mathematical values.
pub struct ConnectionView {
    pub sender_name: Seq<char>,
    pub sender_port: u16,
    pub receiver_name: Seq<char>,
    pub receiver_port: u16,
    pub source_port: u16,
}

/// Announces that a new local stream was opened on the sender's side.
#[derive(Debug, PartialEq, Eq)]
pub struct ConnectionPacket {
    pub sender_name: String,
    pub sender_port: u16,
    pub receiver_name: String,
    pub receiver_port: u16,
    /// The port of the application's socket on the sender's machine.
    pub source_port: u16,
}

impl View for ConnectionPacket {
    type V = ConnectionView;

    open spec fn view(&self) -> ConnectionView {
        ConnectionView {
            sender_name: self.sender_name@,
            sender_port: self.sender_port,
            receiver_name: self.receiver_name@,
            receiver_port: self.receiver_port,
            source_port: self.source_port,
        }
    }
}

impl Clone for ConnectionPacket {
    fn clone(&self) -> (r: Self)
        ensures
            r@ == self@,
    {
        ConnectionPacket {
            sender_name: self.sender_name.clone(),
            sender_port: self.sender_port,
            receiver_name: self.receiver_name.clone(),
            receiver_port: self.receiver_port,
            source_port: self.source_port,
        }
    }
}

/// What a [`CommandPacket`] holds, as mathematical values.
pub struct CommandView {
    pub command: Seq<char>,
}

/// An operator command for the rendezvous.
#[derive(Debug, PartialEq, Eq)]
pub struct CommandPacket {
    pub command: String,
}

impl View for CommandPacket {
    type V = CommandView;

    open spec fn view(&self) -> CommandView {
        CommandView { command: self.command@ }
    }
}

impl Clone for CommandPacket {
    fn clone(&self) -> (r: Self)
        ensures
            r@ == self@,
    {
        CommandPacket { command: self.command.clone() }
    }
}

/// What a [`DataPacket`] holds, as mathematical values.
pub struct DataView {
    pub socket_type: SocketType,
    pub sender_name: Seq<char>,
    pub sender_port: u16,
    pub receiver_name: Seq<char>,
    pub receiver_port: u16,
    pub data: Seq<u8>,
    pub source_port: u16,
}

/// A relayed application frame.
#[derive(Debug, PartialEq, Eq)]
pub struct DataPacket {
    pub socket_type: SocketType,
    pub sender_name: String,
    pub sender_port: u16,
    pub receiver_name: String,
    pub receiver_port: u16,
    /// The application's bytes, forwarded verbatim. May be empty.
    pub data: Vec<u8>,
    /// The port of the application's socket on the sender's machine.
    pub source_port: u16,
}

impl View for DataPacket {
    type V = DataView;

    open spec fn view(&self) -> DataView {
        DataView {
            socket_type: self.socket_type,
            sender_name: self.sender_name@,
            sender_port: self.sender_port,
            receiver_name: self.receiver_name@,
            receiver_port: self.receiver_port,
            data: self.data@,
            source_port: self.source_port,
        }
    }
}

impl Clone for DataPacket {
    fn clone(&self) -> (r: Self)
        ensures
            r@ == self@,
    {
        DataPacket {
            socket_type: self.socket_type,
            sender_name: self.sender_name.clone(),
            sender_port: self.sender_port,
            receiver_name: self.receiver_name.clone(),
            receiver_port: self.receiver_port,
            data: self.data.clone(),
            source_port: self.source_port,
        }
    }
}

/// What a [`GreetingPacket`] holds, as mathematical values.
pub struct GreetingView {
    pub player_name: Seq<char>,
    pub local_port: u16,
}

/// The first frame of an agent: its name and the port it serves locally.
#[derive(Debug, PartialEq, Eq)]
pub struct GreetingPacket {
    pub player_name: String,
    pub local_port: u16,
}

impl View for GreetingPacket {
    type V = GreetingView;

    open spec fn view(&self) -> GreetingView {
        GreetingView { player_name: self.player_name@, local_port: self.local_port }
    }
}

impl Clone for GreetingPacket {
    fn clone(&self) -> (r: Self)
        ensures
            r@ == self@,
    {
        GreetingPacket { player_name: self.player_name.clone(), local_port: self.local_port }
    }
}

/// What a [`Packet`] holds, as mathematical values.
pub enum PacketView {
    Command(CommandView),
    Data(DataView),
    Greeting(GreetingView),
    GreetingReply,
    Heartbeat(Seq<char>),
    Connection(ConnectionView),
}

/// The envelope exchanged on both the stream and the datagram channel.
#[derive(Debug, PartialEq, Eq)]
pub enum Packet {
    Command(CommandPacket),
    Data(DataPacket),
    Greeting(GreetingPacket),
    GreetingReply,
    /// Keeps NAT mappings open; carries the sender's player name.
    Heartbeat(String),
    Connection(ConnectionPacket),
}

impl View for Packet {
    type V = PacketView;

    open spec fn view(&self) -> PacketView {
        match self {
            Packet::Command(c) => PacketView::Command(c@),
            Packet::Data(d) => PacketView::Data(d@),
            Packet::Greeting(g) => PacketView::Greeting(g@),
            Packet::GreetingReply => PacketView::GreetingReply,
            Packet::Heartbeat(name) => PacketView::Heartbeat(name@),
            Packet::Connection(c) => PacketView::Connection(c@),
        }
    }
}

impl Clone for Packet {
    fn clone(&self) -> (r: Self)
        ensures
            r@ == self@,
    {
        match self {
            Packet::Command(c) => Packet::Command(c.clone()),
            Packet::Data(d) => Packet::Data(d.clone()),
            Packet::Greeting(g) => Packet::Greeting(g.clone()),
            Packet::GreetingReply => Packet::GreetingReply,
            Packet::Heartbeat(name) => Packet::Heartbeat(name.clone()),
            Packet::Connection(c) => Packet::Connection(c.clone()),
        }
    }
}

/// The frame that was decoded, if one was, as mathematical values.
pub open spec fn decoded_view(decoded: Option<Packet>) -> Option<PacketView> {
    match decoded {
        Some(packet) => Some(packet@),
        None => None,
    }
}

/// The text `name:port`, the key under which a remote flow is known.
pub open spec fn identifier(name: Seq<char>, port: u16) -> Seq<char> {
    name + seq![':'] + decimal(port as nat)
}

/// Different flows have different identifiers: the text `name:port` tells both
/// the name and the port.
pub proof fn lemma_identifier_injective(
    first_name: Seq<char>,
    first_port: u16,
    second_name: Seq<char>,
    second_port: u16,
)
    requires
        identifier(first_name, first_port) == identifier(second_name, second_port),
    ensures
        first_name == second_name,
        first_port == second_port,
{
    let text = identifier(first_name, first_port);
    let first_digits = decimal(first_port as nat);
    let second_digits = decimal(second_port as nat);
    lemma_decimal_digits(first_port as nat);
    lemma_decimal_digits(second_port as nat);
    assert(text.len() == first_name.len() + 1 + first_digits.len());
    assert(text.len() == second_name.len() + 1 + second_digits.len());
    let other = identifier(second_name, second_port);
    if first_digits.len() < second_digits.len() {
        let at = first_name.len() as int;
        assert(text[at] == ':');
        assert(other[at] == second_digits[at - second_name.len() - 1]);
    } else if second_digits.len() < first_digits.len() {
        let at = second_name.len() as int;
        assert(other[at] == ':');
        assert(text[at] == first_digits[at - first_name.len() - 1]);
    } else {
        let cut = first_name.len() as int;
        assert(first_name =~= text.subrange(0, cut));
        assert(second_name =~= other.subrange(0, cut));
        assert(first_digits =~= text.subrange(cut + 1, text.len() as int));
        assert(second_digits =~= other.subrange(cut + 1, other.len() as int));
        lemma_decimal_injective(first_port as nat, second_port as nat);
    }
}

/// Builds the text `name:port`.
pub fn make_identifier(name: &String, port: u16) -> (r: String)
    ensures
        r@ == identifier(name@, port),
{
    proof {
        reveal_strlit(":");
    }
    let mut out = name.clone();
    out.append(":");
    push_decimal(&mut out, port as u64);
    assert(out@ =~= identifier(name@, port));
    out
}

/// The trace line of a data frame:
/// `{prefix}{sender}:{port} ({source}) --({transport})--> {receiver}:{port} @ {length}`.
pub open spec fn packet_line(
    prefix: Seq<char>,
    sender_name: Seq<char>,
    sender_port: u16,
    source_port: u16,
    socket_type: SocketType,
    receiver_name: Seq<char>,
    receiver_port: u16,
    data_len: nat,
) -> Seq<char> {
    prefix + sender_name + ":"@ + decimal(sender_port as nat) + " ("@ + decimal(source_port as nat)
        + ") --("@ + socket_type.label_spec() + ")--> "@ + receiver_name + ":"@ + decimal(
        receiver_port as nat,
    ) + " @ "@ + decimal(data_len)
}

/// Renders the trace line of a data frame. The caller decides where it goes.
pub fn print_packet(
    prefix: &str,
    sender_name: String,
    sender_port: u16,
    source_port: u16,
    socket_type: SocketType,
    receiver_name: String,
    receiver_port: u16,
    data_len: usize,
) -> (line: String)
    ensures
        line@ == packet_line(
            prefix@,
            sender_name@,
            sender_port,
            source_port,
            socket_type,
            receiver_name@,
            receiver_port,
            data_len as nat,
        ),
{
    let mut line = prefix.to_owned();
    line.append(sender_name.as_str());
    line.append(":");
    push_decimal(&mut line, sender_port as u64);
    line.append(" (");
    push_decimal(&mut line, source_port as u64);
    line.append(") --(");
    line.append(socket_type.label());
    line.append(")--> ");
    line.append(receiver_name.as_str());
    line.append(":");
    push_decimal(&mut line, receiver_port as u64);
    line.append(" @ ");
    push_decimal(&mut line, data_len as u64);
    line
}

impl DataPacket {
    /// The trace line of this frame behind `prefix`.
    pub open spec fn line(&self, prefix: Seq<char>) -> Seq<char> {
        packet_line(
            prefix,
            self.sender_name@,
            self.sender_port,
            self.source_port,
            self.socket_type,
            self.receiver_name@,
            self.receiver_port,
            self.data@.len(),
        )
    }

    /// Renders the trace line of this frame behind `prefix`.
    pub fn print(&self, prefix: &str) -> (line: String)
        ensures
            line@ == self.line(prefix@),
    {
        print_packet(
            prefix,
            self.sender_name.clone(),
            self.sender_port,
            self.source_port,
            self.socket_type,
            self.receiver_name.clone(),
            self.receiver_port,
            self.data.len(),
        )
    }
}

/// A frame that names a sender, a receiver and the sender's application port.
pub trait DataPacketLike {
    spec fn sender_name_spec(&self) -> Seq<char>;

    spec fn sender_port_spec(&self) -> u16;

    spec fn source_port_spec(&self) -> u16;

    spec fn receiver_name_spec(&self) -> Seq<char>;

    spec fn receiver_port_spec(&self) -> u16;

    fn get_sender_name(&self) -> (r: String)
        ensures
            r@ == self.sender_name_spec(),
    ;

    fn get_sender_port(&self) -> (r: u16)
        ensures
            r == self.sender_port_spec(),
    ;

    fn get_source_port(&self) -> (r: u16)
        ensures
            r == self.source_port_spec(),
    ;

    fn get_receiver_name(&self) -> (r: String)
        ensures
            r@ == self.receiver_name_spec(),
    ;

    fn get_receiver_port(&self) -> (r: u16)
        ensures
            r == self.receiver_port_spec(),
    ;

    /// The sender's name and the port its agent serves, as `name:port`.
    fn get_player_identifier(&self) -> (r: String)
        ensures
            r@ == identifier(self.sender_name_spec(), self.sender_port_spec()),
    {
        let name = self.get_sender_name();
        make_identifier(&name, self.get_sender_port())
    }

    /// The sender's name and the port of its application's socket, as
    /// `name:port`. This key survives NAT rewrites.
    fn get_original_player_identifier(&self) -> (r: String)
        ensures
            r@ == identifier(self.sender_name_spec(), self.source_port_spec()),
    {
        let name = self.get_sender_name();
        make_identifier(&name, self.get_source_port())
    }
}

impl DataPacketLike for ConnectionPacket {
    open spec fn sender_name_spec(&self) -> Seq<char> {
        self.sender_name@
    }

    open spec fn sender_port_spec(&self) -> u16 {
        self.sender_port
    }

    open spec fn source_port_spec(&self) -> u16 {
        self.source_port
    }

    open spec fn receiver_name_spec(&self) -> Seq<char> {
        self.receiver_name@
    }

    open spec fn receiver_port_spec(&self) -> u16 {
        self.receiver_port
    }

    fn get_sender_name(&self) -> (r: String) {
        self.sender_name.clone()
    }

    fn get_sender_port(&self) -> (r: u16) {
        self.sender_port
    }

    fn get_source_port(&self) -> (r: u16) {
        self.source_port
    }

    fn get_receiver_name(&self) -> (r: String) {
        self.receiver_name.clone()
    }

    fn get_receiver_port(&self) -> (r: u16) {
        self.receiver_port
    }
}

impl DataPacketLike for DataPacket {
    open spec fn sender_name_spec(&self) -> Seq<char> {
        self.sender_name@
    }

    open spec fn sender_port_spec(&self) -> u16 {
        self.sender_port
    }

    open spec fn source_port_spec(&self) -> u16 {
        self.source_port
    }

    open spec fn receiver_name_spec(&self) -> Seq<char> {
        self.receiver_name@
    }

    open spec fn receiver_port_spec(&self) -> u16 {
        self.receiver_port
    }

    fn get_sender_name(&self) -> (r: String) {
        self.sender_name.clone()
    }

    fn get_sender_port(&self) -> (r: u16) {
        self.sender_port
    }

    fn get_source_port(&self) -> (r: u16) {
        self.source_port
    }

    fn get_receiver_name(&self) -> (r: String) {
        self.receiver_name.clone()
    }

    fn get_receiver_port(&self) -> (r: u16) {
        self.receiver_port
    }
}

} // verus!
