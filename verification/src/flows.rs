//! The local flow table of an agent: for each remote application, the loopback
//! sockets that stand for it on this machine.

use vstd::prelude::*;
use vstd::string::*;
use crate::text::text_views;
use crate::packet::identifier;

verus! {

/// What a [`ClientLocalConnection`] holds, as mathematical values.
pub struct FlowView {
    pub player_name: Seq<char>,
    pub port: u16,
    pub original_socket_port: u16,
    pub stream: Option<u16>,
    pub udp_socket: Option<u16>,
    pub received_udp_packets_counts: u64,
}

/// A local flow: the loopback sockets that stand, on this machine, for one
/// application on the far side.
#[derive(Debug, PartialEq, Eq)]
pub struct ClientLocalConnection {
    /// The name of the remote player whose application this flow mirrors.
    pub player_name: String,
    /// The port that the remote player's agent serves.
    pub port: u16,
    /// The port of the remote application's own socket. It is echoed back so
    /// that the far agent can route a reply to the right application.
    pub original_socket_port: u16,
    /// The loopback stream to the local application, told by the port of its
    /// peer.
    pub stream: Option<u16>,
    /// The loopback datagram socket, told by the local port it is bound to.
    pub udp_socket: Option<u16>,
    /// How many datagrams the flow's datagram socket has received from the local
    /// application.
    pub received_udp_packets_counts: u64,
}

impl View for ClientLocalConnection {
    type V = FlowView;

    open spec fn view(&self) -> FlowView {
        FlowView {
            player_name: self.player_name@,
            port: self.port,
            original_socket_port: self.original_socket_port,
            stream: self.stream,
            udp_socket: self.udp_socket,
            received_udp_packets_counts: self.received_udp_packets_counts,
        }
    }
}

impl Clone for ClientLocalConnection {
    fn clone(&self) -> (r: Self)
        ensures
            r@ == self@,
    {
        ClientLocalConnection {
            player_name: self.player_name.clone(),
            port: self.port,
            original_socket_port: self.original_socket_port,
            stream: self.stream,
            udp_socket: self.udp_socket,
            received_udp_packets_counts: self.received_udp_packets_counts,
        }
    }
}

#[derive(Debug)]
struct Slot {
    key: String,
    flow: ClientLocalConnection,
}

/// The local flow table: local flows by the identifier of the remote flow they
/// mirror.
#[derive(Debug)]
pub struct RedirectionTable {
    slots: Vec<Slot>,
}

spec fn holds(slots: Seq<Slot>, key: Seq<char>, i: int) -> bool {
    0 <= i < slots.len() && slots[i].key@ == key
}

spec fn slots_view(slots: Seq<Slot>) -> Map<Seq<char>, FlowView> {
    Map::new(
        |key: Seq<char>| exists|i: int| holds(slots, key, i),
        |key: Seq<char>| slots[choose|i: int| holds(slots, key, i)].flow@,
    )
}

spec fn distinct(slots: Seq<Slot>) -> bool {
    forall|i: int, j: int| 0 <= i < j < slots.len() ==> slots[i].key@ != slots[j].key@
}

proof fn lemma_slot_found(slots: Seq<Slot>, i: int)
    requires
        distinct(slots),
        0 <= i < slots.len(),
    ensures
        slots_view(slots).contains_key(slots[i].key@),
        slots_view(slots)[slots[i].key@] == slots[i].flow@,
{
    let key = slots[i].key@;
    assert(holds(slots, key, i));
    let c = choose|c: int| holds(slots, key, c);
    assert(c == i) by {
        if c < i {
            assert(slots[c].key@ != slots[i].key@);
        } else if i < c {
            assert(slots[i].key@ != slots[c].key@);
        }
    }
}

impl View for RedirectionTable {
    type V = Map<Seq<char>, FlowView>;

    closed spec fn view(&self) -> Map<Seq<char>, FlowView> {
        slots_view(self.slots@)
    }
}

impl RedirectionTable {
    #[verifier::type_invariant]
    spec fn keys_distinct(self) -> bool {
        distinct(self.slots@)
    }

    /// An empty table.
    pub fn new() -> (r: Self)
        ensures
            r@ == Map::<Seq<char>, FlowView>::empty(),
    {
        let r = RedirectionTable { slots: Vec::new() };
        assert(r@ =~= Map::<Seq<char>, FlowView>::empty()) by {
            assert forall|key: Seq<char>| !r@.contains_key(key) by {
                assert forall|i: int| !holds(r.slots@, key, i) by {}
            }
        }
        r
    }

    fn position(&self, key: &String) -> (r: Option<usize>)
        ensures
            match r {
                Some(i) => holds(self.slots@, key@, i as int),
                None => forall|i: int| !holds(self.slots@, key@, i),
            },
    {
        let mut i: usize = 0;
        while i < self.slots.len()
            invariant
                i <= self.slots.len(),
                forall|k: int| 0 <= k < i ==> !holds(self.slots@, key@, k),
            decreases self.slots.len() - i,
        {
            if self.slots[i].key == *key {
                return Some(i);
            }
            i = i + 1;
        }
        None
    }

    /// Whether the table has a flow under `key`.
    pub fn contains_key(&self, key: &String) -> (r: bool)
        ensures
            r == self@.contains_key(key@),
    {
        self.position(key).is_some()
    }

    /// The flow under `key`.
    pub fn get(&self, key: &String) -> (r: Option<&ClientLocalConnection>)
        ensures
            match r {
                Some(flow) => self@.contains_key(key@) && flow@ == self@[key@],
                None => !self@.contains_key(key@),
            },
    {
        match self.position(key) {
            Some(i) => {
                proof {
                    use_type_invariant(self);
                    lemma_slot_found(self.slots@, i as int);
                }
                Some(&self.slots[i].flow)
            },
            None => None,
        }
    }

    /// Puts `flow` under `key`, in place of what was there.
    pub fn insert(&mut self, key: String, flow: ClientLocalConnection)
        ensures
            final(self)@ == old(self)@.insert(key@, flow@),
    {
        proof {
            use_type_invariant(&*self);
        }
        let ghost before = self.slots@;
        let found = self.position(&key);
        let mut slots: Vec<Slot> = Vec::new();
        std::mem::swap(&mut self.slots, &mut slots);
        match found {
            Some(i) => {
                slots.set(i, Slot { key, flow });
                proof {
                    let after = slots@;
                    assert(distinct(after)) by {
                        assert forall|a: int, b: int| 0 <= a < b < after.len() implies after[a].key@
                            != after[b].key@ by {
                            assert(before[a].key@ != before[b].key@);
                        }
                    }
                    assert(slots_view(after) =~= slots_view(before).insert(key@, flow@)) by {
                        assert forall|k: Seq<char>|
                            slots_view(after).contains_key(k) <==> #[trigger] slots_view(
                                before,
                            ).insert(key@, flow@).contains_key(k) by {
                            if slots_view(after).contains_key(k) {
                                let c = choose|c: int| holds(after, k, c);
                                assert(holds(before, k, c));
                            }
                            if slots_view(before).contains_key(k) {
                                let c = choose|c: int| holds(before, k, c);
                                assert(holds(after, k, c));
                            }
                            assert(holds(after, key@, i as int));
                        }
                        assert forall|k: Seq<char>| slots_view(after).contains_key(k) implies (
                        #[trigger] slots_view(after)[k]) == slots_view(before).insert(
                            key@,
                            flow@,
                        )[k] by {
                            let c = choose|c: int| holds(after, k, c);
                            lemma_slot_found(after, c);
                            if k != key@ {
                                assert(holds(before, k, c));
                                lemma_slot_found(before, c);
                            } else {
                                lemma_slot_found(after, i as int);
                            }
                        }
                    }
                }
            },
            None => {
                slots.push(Slot { key, flow });
                proof {
                    let after = slots@;
                    let last = before.len() as int;
                    assert(distinct(after)) by {
                        assert forall|a: int, b: int| 0 <= a < b < after.len() implies after[a].key@
                            != after[b].key@ by {
                            if b == last {
                                assert(!holds(before, key@, a));
                            } else {
                                assert(before[a].key@ != before[b].key@);
                            }
                        }
                    }
                    assert(slots_view(after) =~= slots_view(before).insert(key@, flow@)) by {
                        assert forall|k: Seq<char>|
                            slots_view(after).contains_key(k) <==> #[trigger] slots_view(
                                before,
                            ).insert(key@, flow@).contains_key(k) by {
                            if slots_view(after).contains_key(k) {
                                let c = choose|c: int| holds(after, k, c);
                                if c < last {
                                    assert(holds(before, k, c));
                                }
                            }
                            if slots_view(before).contains_key(k) {
                                let c = choose|c: int| holds(before, k, c);
                                assert(holds(after, k, c));
                            }
                            assert(holds(after, key@, last));
                        }
                        assert forall|k: Seq<char>| slots_view(after).contains_key(k) implies (
                        #[trigger] slots_view(after)[k]) == slots_view(before).insert(
                            key@,
                            flow@,
                        )[k] by {
                            let c = choose|c: int| holds(after, k, c);
                            lemma_slot_found(after, c);
                            if k != key@ {
                                assert(holds(before, k, c));
                                lemma_slot_found(before, c);
                            } else {
                                lemma_slot_found(after, last);
                            }
                        }
                    }
                }
            },
        }
        self.slots = slots;
    }

    /// The number of flows.
    pub fn len(&self) -> (r: usize)
        ensures
            r == self@.dom().len(),
            self@.dom().finite(),
    {
        proof {
            use_type_invariant(self);
            lemma_slots_count(self.slots@);
        }
        self.slots.len()
    }

    /// The identifiers of all flows, each once.
    pub fn keys(&self) -> (r: Vec<String>)
        ensures
            text_views(r@).no_duplicates(),
            text_views(r@).to_set() == self@.dom(),
    {
        let mut out: Vec<String> = Vec::new();
        let mut i: usize = 0;
        while i < self.slots.len()
            invariant
                i <= self.slots.len(),
                out.len() == i,
                forall|k: int| 0 <= k < i ==> (#[trigger] out@[k])@ == self.slots@[k].key@,
            decreases self.slots.len() - i,
        {
            out.push(self.slots[i].key.clone());
            i = i + 1;
        }
        proof {
            use_type_invariant(self);
            let names = text_views(out@);
            assert forall|a: int, b: int| 0 <= a < names.len() && 0 <= b < names.len() && a
                != b implies names[a] != names[b] by {
                if a < b {
                    assert(self.slots@[a].key@ != self.slots@[b].key@);
                } else {
                    assert(self.slots@[b].key@ != self.slots@[a].key@);
                }
            }
            assert(names.to_set() =~= self@.dom()) by {
                assert forall|k: Seq<char>| names.to_set().contains(k) <==> self@.dom().contains(
                    k,
                ) by {
                    if names.contains(k) {
                        let c = choose|c: int| 0 <= c < names.len() && names[c] == k;
                        assert(holds(self.slots@, k, c));
                    }
                    if self@.dom().contains(k) {
                        let c = choose|c: int| holds(self.slots@, k, c);
                        assert(names[c] == k);
                    }
                }
            }
        }
        out
    }
}

proof fn lemma_slots_count(slots: Seq<Slot>)
    requires
        distinct(slots),
    ensures
        slots_view(slots).dom().finite(),
        slots_view(slots).dom().len() == slots.len(),
    decreases slots.len(),
{
    let dom = slots_view(slots).dom();
    if slots.len() == 0 {
        assert(dom =~= Set::<Seq<char>>::empty()) by {
            assert forall|key: Seq<char>| !dom.contains(key) by {
                assert forall|i: int| !holds(slots, key, i) by {}
            }
        }
    } else {
        let rest = slots.drop_last();
        assert(distinct(rest)) by {
            assert forall|i: int, j: int| 0 <= i < j < rest.len() implies rest[i].key@
                != rest[j].key@ by {
                assert(slots[i].key@ != slots[j].key@);
            }
        }
        lemma_slots_count(rest);
        let key = slots.last().key@;
        let rest_dom = slots_view(rest).dom();
        assert(!rest_dom.contains(key)) by {
            if rest_dom.contains(key) {
                let c = choose|c: int| holds(rest, key, c);
                assert(slots[c].key@ != slots[slots.len() - 1].key@);
            }
        }
        assert(dom =~= rest_dom.insert(key)) by {
            assert forall|k: Seq<char>| dom.contains(k) <==> rest_dom.insert(key).contains(k) by {
                if dom.contains(k) {
                    let c = choose|c: int| holds(slots, k, c);
                    if c < rest.len() {
                        assert(holds(rest, k, c));
                    }
                }
                if rest_dom.contains(k) {
                    let c = choose|c: int| holds(rest, k, c);
                    assert(holds(slots, k, c));
                }
                assert(holds(slots, key, slots.len() - 1));
            }
        }
    }
}

/// The local flow table once a datagram socket bound to `socket` was offered for
/// the flow of the frame's sender. A flow that has its datagram half keeps it; a
/// flow without one takes the socket; where there is no flow yet, one is made
/// with the datagram half only.
pub open spec fn with_udp_flow(
    table: Map<Seq<char>, FlowView>,
    sender_name: Seq<char>,
    sender_port: u16,
    source_port: u16,
    socket: u16,
) -> Map<Seq<char>, FlowView> {
    let key = identifier(sender_name, source_port);
    if table.contains_key(key) {
        if table[key].udp_socket is Some {
            table
        } else {
            table.insert(key, FlowView { udp_socket: Some(socket), ..table[key] })
        }
    } else {
        table.insert(
            key,
            FlowView {
                player_name: sender_name,
                port: sender_port,
                original_socket_port: source_port,
                stream: None,
                udp_socket: Some(socket),
                received_udp_packets_counts: 0,
            },
        )
    }
}

/// The local flow table once the attempt to open a loopback stream for the flow
/// of the frame's sender ended with `socket`. A flow that has its stream half
/// keeps it. Where the attempt failed nothing changes. Otherwise a flow without
/// a stream takes it, and where there is no flow yet, one is made with the stream
/// half only.
pub open spec fn with_tcp_flow(
    table: Map<Seq<char>, FlowView>,
    sender_name: Seq<char>,
    sender_port: u16,
    source_port: u16,
    socket: Option<u16>,
) -> Map<Seq<char>, FlowView> {
    let key = identifier(sender_name, source_port);
    match socket {
        None => table,
        Some(peer_port) => if table.contains_key(key) {
            if table[key].stream is Some {
                table
            } else {
                table.insert(key, FlowView { stream: Some(peer_port), ..table[key] })
            }
        } else {
            table.insert(
                key,
                FlowView {
                    player_name: sender_name,
                    port: sender_port,
                    original_socket_port: source_port,
                    stream: Some(peer_port),
                    udp_socket: None,
                    received_udp_packets_counts: 0,
                },
            )
        },
    }
}

/// The local flow table once the datagram socket of the flow under `key`
/// received a datagram from the local application: the flow has counted it. A
/// table without such a flow, or with one that has no datagram socket, stays as
/// it is.
pub open spec fn with_datagram_counted(table: Map<Seq<char>, FlowView>, key: Seq<char>) -> Map<
    Seq<char>,
    FlowView,
> {
    if table.contains_key(key) && table[key].udp_socket is Some {
        table.insert(
            key,
            FlowView {
                received_udp_packets_counts: (table[key].received_udp_packets_counts + 1) as u64,
                ..table[key]
            },
        )
    } else {
        table
    }
}

/// Whether every flow stands under the identifier made of its own player name
/// and the port of the remote application's socket.
pub open spec fn keyed_by_origin(table: Map<Seq<char>, FlowView>) -> bool {
    forall|key: Seq<char>|
        table.contains_key(key) ==> key == identifier(
            (#[trigger] table[key]).player_name,
            table[key].original_socket_port,
        )
}

/// Filling in the halves of flows and counting their datagrams keeps every flow
/// under the identifier of its origin, so that what a flow's sockets receive
/// goes back to the application that the flow stands for.
pub proof fn lemma_flows_stay_keyed(
    table: Map<Seq<char>, FlowView>,
    sender_name: Seq<char>,
    sender_port: u16,
    source_port: u16,
    udp_socket: u16,
    tcp_socket: Option<u16>,
    key: Seq<char>,
)
    requires
        keyed_by_origin(table),
    ensures
        keyed_by_origin(with_udp_flow(table, sender_name, sender_port, source_port, udp_socket)),
        keyed_by_origin(with_tcp_flow(table, sender_name, sender_port, source_port, tcp_socket)),
        keyed_by_origin(with_datagram_counted(table, key)),
{
}

} // verus!
