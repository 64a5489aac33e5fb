//! The connection registry: one entry per accepted stream, keyed by the stream's
//! peer port, with lookup by player name.

use vstd::prelude::*;
use vstd::string::*;
use std::collections::hash_map::Entry;
use std::collections::HashMap;
use vstd::std_specs::iter::IteratorSpec;
use crate::packet::{GreetingPacket, GreetingView};
use crate::socket::{PeerAddress, SocketWrapper};

verus! {

/// The name an entry carries until its greeting arrives.
pub open spec fn missing_name() -> Seq<char> {
    "<missing>"@
}

/// What a [`PlayerData`] holds, as mathematical values.
pub struct PlayerView {
    pub address: PeerAddress,
    pub stream: SocketWrapper,
    pub name: Seq<char>,
    pub local_port: Option<u16>,
    pub last_known_udp_port: u16,
}

/// One peer as the registry knows it.
#[derive(Debug)]
pub struct PlayerData {
    /// The remote address of the peer's stream.
    pub address: PeerAddress,
    pub stream: SocketWrapper,
    pub name: String,
    /// The port the peer advertised in its greeting.
    pub local_port: Option<u16>,
    /// The source port of the peer's latest heartbeat datagram; datagrams for the
    /// peer are sent there.
    pub last_known_udp_port: u16,
}

impl View for PlayerData {
    type V = PlayerView;

    open spec fn view(&self) -> PlayerView {
        PlayerView {
            address: self.address,
            stream: self.stream,
            name: self.name@,
            local_port: self.local_port,
            last_known_udp_port: self.last_known_udp_port,
        }
    }
}

impl Clone for PlayerData {
    fn clone(&self) -> (r: Self)
        ensures
            r@ == self@,
    {
        PlayerData {
            address: self.address,
            stream: self.stream,
            name: self.name.clone(),
            local_port: self.local_port,
            last_known_udp_port: self.last_known_udp_port,
        }
    }
}

impl PlayerData {
    /// The entry of a freshly accepted stream from `peer`: no name yet, no
    /// advertised port, no datagram seen.
    pub open spec fn accepted_view(peer: PeerAddress) -> PlayerView {
        PlayerView {
            address: peer,
            stream: SocketWrapper { tcp: Some(peer), udp: None, last_datagram_ms: 0 },
            name: missing_name(),
            local_port: None,
            last_known_udp_port: 0,
        }
    }

    /// The entry of a freshly accepted stream from `peer`.
    pub fn accepted(peer: PeerAddress) -> (r: Self)
        ensures
            r@ == Self::accepted_view(peer),
    {
        PlayerData {
            address: peer,
            stream: SocketWrapper::from_tcp_socket(peer),
            name: "<missing>".to_owned(),
            local_port: None,
            last_known_udp_port: 0,
        }
    }
}

/// What of a peer may be shown to others.
#[derive(Debug, PartialEq, Eq)]
pub struct PublicPlayerData {
    pub name: String,
}

impl View for PublicPlayerData {
    type V = Seq<char>;

    open spec fn view(&self) -> Seq<char> {
        self.name@
    }
}

impl Clone for PublicPlayerData {
    fn clone(&self) -> (r: Self)
        ensures
            r@ == self@,
    {
        PublicPlayerData { name: self.name.clone() }
    }
}

/// Names as mathematical values.
pub open spec fn public_views(players: Seq<PublicPlayerData>) -> Seq<Seq<char>> {
    players.map_values(|p: PublicPlayerData| p@)
}

/// Whether `names` are the names of the entries under `ports`, in that order, and
/// `ports` holds every peer port of `m` once.
pub open spec fn lists(m: Map<u16, PlayerView>, ports: Seq<u16>, names: Seq<Seq<char>>) -> bool {
    &&& ports.no_duplicates()
    &&& ports.to_set() == m.dom()
    &&& names.len() == ports.len()
    &&& forall|k: int| 0 <= k < names.len() ==> #[trigger] names[k] == m[ports[k]].name
}

/// Whether `names` lists the registry: the name of every entry, each entry once,
/// in some order.
pub open spec fn is_listing(m: Map<u16, PlayerView>, names: Seq<Seq<char>>) -> bool {
    exists|ports: Seq<u16>| lists(m, ports, names)
}

/// Whether some entry of `m` carries `name`.
pub open spec fn name_taken(m: Map<u16, PlayerView>, name: Seq<char>) -> bool {
    exists|p: u16| #![trigger m[p]] m.contains_key(p) && m[p].name == name
}

/// Whether some entry of `m` other than the one under `port` carries `name`.
pub open spec fn name_taken_by_another(m: Map<u16, PlayerView>, port: u16, name: Seq<char>) -> bool {
    exists|q: u16| #![trigger m[q]] q != port && m.contains_key(q) && m[q].name == name
}

/// No two entries share a name, except that any number may still be unnamed.
pub open spec fn names_unique(m: Map<u16, PlayerView>) -> bool {
    forall|p: u16, q: u16|
        #![trigger m[p], m[q]]
        m.contains_key(p) && m.contains_key(q) && p != q && m[p].name != missing_name()
            ==> m[p].name != m[q].name
}

/// The registry after the greeting `g` arrived on the stream with peer port
/// `port`: a name that another entry carries is refused and nothing changes;
/// otherwise the entry under `port`, if there is one, takes the name and the
/// advertised port. An entry may be greeted again under the name it has.
pub open spec fn greeted(m: Map<u16, PlayerView>, port: u16, g: GreetingView) -> Map<
    u16,
    PlayerView,
> {
    if name_taken_by_another(m, port, g.player_name) || !m.contains_key(port) {
        m
    } else {
        m.insert(
            port,
            PlayerView { name: g.player_name, local_port: Some(g.local_port), ..m[port] },
        )
    }
}

/// The registry after a heartbeat datagram from source port `udp_port` arrived
/// for the entry under `port`.
pub open spec fn with_udp_port(m: Map<u16, PlayerView>, port: u16, udp_port: u16) -> Map<
    u16,
    PlayerView,
> {
    m.insert(port, PlayerView { last_known_udp_port: udp_port, ..m[port] })
}

/// A mutable reference to the value stored under `key`, or `None` where the map
/// has no such key. What is written through the reference replaces that value;
/// every other entry stays.
fn entry_mut<'a>(map: &'a mut HashMap<u16, PlayerData>, key: u16) -> (r: Option<
    &'a mut PlayerData,
>)
    ensures
        match r {
            Some(e) => old(map)@.contains_key(key) && *e == old(map)@[key] && final(map)@ == old(
                map,
            )@.insert(key, *final(e)),
            None => !old(map)@.contains_key(key) && final(map)@ == old(map)@,
        },
{
    broadcast use vstd::std_specs::hash::group_hash_axioms;

    match map.entry(key) {
        Entry::Occupied(occupied) => Some(occupied.into_mut()),
        Entry::Vacant(_) => {
            assert(old(map)@.remove(key) =~= old(map)@);
            None
        },
    }
}

spec fn entries_view(m: Map<u16, PlayerData>) -> Map<u16, PlayerView> {
    m.map_values(|p: PlayerData| p@)
}

proof fn lemma_entries_view_insert(m: Map<u16, PlayerData>, key: u16, value: PlayerData)
    ensures
        entries_view(m.insert(key, value)) == entries_view(m).insert(key, value@),
{
    assert(entries_view(m.insert(key, value)) =~= entries_view(m).insert(key, value@));
}

/// The registry proper.
#[derive(Debug)]
pub struct InnerConnections {
    by_tcp_port: HashMap<u16, PlayerData>,
}

impl View for InnerConnections {
    type V = Map<u16, PlayerView>;

    closed spec fn view(&self) -> Map<u16, PlayerView> {
        entries_view(self.by_tcp_port@)
    }
}

impl Default for InnerConnections {
    fn default() -> (r: Self)
        ensures
            r@ == Map::<u16, PlayerView>::empty(),
            names_unique(r@),
    {
        let r = InnerConnections { by_tcp_port: HashMap::new() };
        assert(r@ =~= Map::<u16, PlayerView>::empty());
        r
    }
}

impl InnerConnections {
    /// The peer port of an entry named `name`. Where names are unique there is at
    /// most one such entry.
    pub fn get_player_tcp_port_by_name(&self, name: &String) -> (r: Option<u16>)
        ensures
            match r {
                Some(p) => self@.contains_key(p) && self@[p].name == name@,
                None => !name_taken(self@, name@),
            },
    {
        broadcast use vstd::std_specs::hash::group_hash_axioms;

        let mut found: Option<u16> = None;
        for pair in it: self.by_tcp_port.iter()
            invariant
                match found {
                    Some(p) => self@.contains_key(p) && self@[p].name == name@,
                    None => forall|i: int|
                        0 <= i < it.index() ==> (#[trigger] it.seq()[i]).1.name@ != name@,
                },
        {
            let (port, player) = pair;
            if found.is_none() && player.name == *name {
                found = Some(*port);
            }
        }
        found
    }

    /// The datagram port on record for an entry named `name`, for writing. Where
    /// names are unique there is at most one such entry.
    pub fn get_player_udp_port_by_name_mut(&mut self, name: &String) -> (r: Option<&mut u16>)
        ensures
            match r {
                Some(udp_port) => exists|p: u16|
                    #![trigger old(self)@[p]]
                    old(self)@.contains_key(p) && old(self)@[p].name == name@ && *udp_port == old(
                        self,
                    )@[p].last_known_udp_port && final(self)@ == with_udp_port(
                        old(self)@,
                        p,
                        *final(udp_port),
                    ),
                None => !name_taken(old(self)@, name@) && final(self)@ == old(self)@,
            },
            names_unique(old(self)@) ==> names_unique(final(self)@),
    {
        proof {
            lemma_entries_keep_names_unique(old(self)@, final(self)@);
        }
        match self.get_player_tcp_port_by_name(name) {
            Some(port) => match entry_mut(&mut self.by_tcp_port, port) {
                Some(player) => {
                    proof {
                        lemma_entries_view_insert(old(self).by_tcp_port@, port, *final(player));
                    }
                    Some(&mut player.last_known_udp_port)
                },
                None => None,
            },
            None => None,
        }
    }

    /// The sockets of the entry under `tcp_port`, for writing.
    pub fn get_target_stream(&mut self, tcp_port: u16) -> (r: Option<&mut SocketWrapper>)
        ensures
            match r {
                Some(stream) => old(self)@.contains_key(tcp_port) && *stream == old(
                    self,
                )@[tcp_port].stream && final(self)@ == old(self)@.insert(
                    tcp_port,
                    PlayerView { stream: *final(stream), ..old(self)@[tcp_port] },
                ),
                None => !old(self)@.contains_key(tcp_port) && final(self)@ == old(self)@,
            },
            names_unique(old(self)@) ==> names_unique(final(self)@),
    {
        proof {
            lemma_entries_keep_names_unique(old(self)@, final(self)@);
        }
        match entry_mut(&mut self.by_tcp_port, tcp_port) {
            Some(player) => {
                proof {
                    lemma_entries_view_insert(old(self).by_tcp_port@, tcp_port, *final(player));
                }
                Some(&mut player.stream)
            },
            None => None,
        }
    }

    /// Whether some entry other than the one under `port` carries `name`.
    pub fn is_name_taken_by_another(&self, port: u16, name: &String) -> (r: bool)
        ensures
            r == name_taken_by_another(self@, port, name@),
    {
        broadcast use vstd::std_specs::hash::group_hash_axioms;

        let mut found: Option<u16> = None;
        for pair in it: self.by_tcp_port.iter()
            invariant
                match found {
                    Some(q) => q != port && self@.contains_key(q) && self@[q].name == name@,
                    None => forall|i: int|
                        0 <= i < it.index() ==> *(#[trigger] it.seq()[i]).0 == port
                            || it.seq()[i].1.name@ != name@,
                },
        {
            let (other, player) = pair;
            if found.is_none() && *other != port && player.name == *name {
                found = Some(*other);
            }
        }
        found.is_some()
    }

    /// Applies a greeting that arrived on the stream with peer port `tcp_port`.
    /// Returns `false`, and changes nothing, where another entry carries the
    /// greeting's name. An entry that is greeted again under its own name keeps
    /// the name and takes the newly advertised port.
    pub fn update_player_from_greeting(&mut self, tcp_port: u16, greeting: &GreetingPacket) -> (r:
        bool)
        ensures
            r == !name_taken_by_another(old(self)@, tcp_port, greeting@.player_name),
            final(self)@ == greeted(old(self)@, tcp_port, greeting@),
            names_unique(old(self)@) ==> names_unique(final(self)@),
    {
        broadcast use vstd::std_specs::hash::group_hash_axioms;

        proof {
            if names_unique(self@) {
                lemma_greeting_keeps_names_unique(self@, tcp_port, greeting@);
            }
        }
        if self.is_name_taken_by_another(tcp_port, &greeting.player_name) {
            return false;
        }
        match self.by_tcp_port.remove(&tcp_port) {
            Some(player) => {
                let updated = PlayerData {
                    address: player.address,
                    stream: player.stream,
                    name: greeting.player_name.clone(),
                    local_port: Some(greeting.local_port),
                    last_known_udp_port: player.last_known_udp_port,
                };
                self.by_tcp_port.insert(tcp_port, updated);
                assert(self@ =~= greeted(old(self)@, tcp_port, greeting@));
            },
            None => {
                assert(self@ =~= old(self)@);
            },
        }
        true
    }

    /// The entry under peer port `k`.
    pub fn get(&self, k: &u16) -> (r: Option<&PlayerData>)
        ensures
            match r {
                Some(player) => self@.contains_key(*k) && player@ == self@[*k],
                None => !self@.contains_key(*k),
            },
    {
        broadcast use vstd::std_specs::hash::group_hash_axioms;

        self.by_tcp_port.get(k)
    }

    /// An iterator over the entries, each with its peer port, in no particular
    /// order.
    pub fn iter(&self) -> (r: std::collections::hash_map::Iter<'_, u16, PlayerData>)
        ensures
            r.remaining().len() == self@.dom().len(),
            r.remaining().no_duplicates(),
            forall|i: int|
                0 <= i < r.remaining().len() ==> self@.contains_key(*(#[trigger] r.remaining()[i]).0)
                    && self@[*r.remaining()[i].0] == r.remaining()[i].1@,
    {
        broadcast use vstd::std_specs::hash::group_hash_axioms;

        let r = self.by_tcp_port.iter();
        assert(self@.dom() =~= self.by_tcp_port@.dom());
        r
    }

    /// The peer ports of all entries, each once, in no particular order.
    pub fn ports(&self) -> (r: Vec<u16>)
        ensures
            r@.no_duplicates(),
            r@.to_set() == self@.dom(),
    {
        broadcast use vstd::std_specs::hash::group_hash_axioms;

        let mut out: Vec<u16> = Vec::new();
        for port in it: self.by_tcp_port.keys()
            invariant
                out@.len() == it.index(),
                forall|i: int| 0 <= i < out@.len() ==> out@[i] == *(#[trigger] it.seq()[i]),
        {
            out.push(*port);
        }
        assert(out@ =~= self.by_tcp_port.keys().remaining().unref());
        assert(self@.dom() =~= self.by_tcp_port@.dom());
        out
    }

    /// The names of all entries, each entry once, in no particular order.
    pub fn public_players(&self) -> (r: Vec<PublicPlayerData>)
        ensures
            is_listing(self@, public_views(r@)),
    {
        let ports = self.ports();
        let mut out: Vec<PublicPlayerData> = Vec::new();
        let mut i: usize = 0;
        while i < ports.len()
            invariant
                i <= ports.len(),
                out.len() == i,
                ports@.to_set() == self@.dom(),
                forall|k: int| 0 <= k < i ==> (#[trigger] out@[k])@ == self@[ports@[k]].name,
            decreases ports.len() - i,
        {
            assert(ports@.to_set().contains(ports@[i as int])) by {
                assert(ports@.contains(ports@[i as int]));
            }
            match self.get(&ports[i]) {
                Some(player) => {
                    out.push(PublicPlayerData { name: player.name.clone() });
                },
                None => {
                    assert(false);
                },
            }
            i = i + 1;
        }
        proof {
            let names = public_views(out@);
            assert forall|k: int| 0 <= k < names.len() implies #[trigger] names[k]
                == self@[ports@[k]].name by {
                assert(names[k] == out@[k]@);
            }
            assert(lists(self@, ports@, names));
        }
        out
    }

    /// Stores `value` under peer port `key` and returns what was stored there
    /// before.
    pub fn insert(&mut self, key: u16, value: PlayerData) -> (r: Option<PlayerData>)
        ensures
            final(self)@ == old(self)@.insert(key, value@),
            match r {
                Some(previous) => old(self)@.contains_key(key) && previous@ == old(self)@[key],
                None => !old(self)@.contains_key(key),
            },
            names_unique(old(self)@) && (value@.name == missing_name() || !name_taken_by_another(
                old(self)@,
                key,
                value@.name,
            )) ==> names_unique(final(self)@),
    {
        broadcast use vstd::std_specs::hash::group_hash_axioms;

        let r = self.by_tcp_port.insert(key, value);
        assert(self@ =~= old(self)@.insert(key, value@));
        proof {
            let before = old(self)@;
            let after = self@;
            if names_unique(before) && (value@.name == missing_name() || !name_taken_by_another(
                before,
                key,
                value@.name,
            )) {
                assert forall|p: u16, q: u16|
                    #![trigger after[p], after[q]]
                    after.contains_key(p) && after.contains_key(q) && p != q && after[p].name
                        != missing_name() implies after[p].name != after[q].name by {
                    if p == key {
                        assert(before.contains_key(q) && before[q].name == after[q].name);
                    } else if q == key {
                        assert(before.contains_key(p) && before[p].name == after[p].name);
                    } else {
                        assert(before[p].name != before[q].name);
                    }
                }
            }
        }
        r
    }

    /// Drops the entry under peer port `key` and returns it.
    pub fn remove(&mut self, key: &u16) -> (r: Option<PlayerData>)
        ensures
            final(self)@ == old(self)@.remove(*key),
            match r {
                Some(previous) => old(self)@.contains_key(*key) && previous@ == old(self)@[*key],
                None => !old(self)@.contains_key(*key),
            },
            names_unique(old(self)@) ==> names_unique(final(self)@),
    {
        broadcast use vstd::std_specs::hash::group_hash_axioms;

        let r = self.by_tcp_port.remove(key);
        assert(self@ =~= old(self)@.remove(*key));
        proof {
            if names_unique(old(self)@) {
                lemma_removal_keeps_names_unique(old(self)@, *key);
            }
        }
        r
    }
}

/// Where names are unique, a name that is not the placeholder belongs to at most
/// one entry, so that lookup by such a name has one answer.
pub proof fn lemma_unique_name_one_port(m: Map<u16, PlayerView>, name: Seq<char>, p: u16, q: u16)
    requires
        names_unique(m),
        name != missing_name(),
        m.contains_key(p),
        m.contains_key(q),
        m[p].name == name,
        m[q].name == name,
    ensures
        p == q,
{
}

/// What changes no name and adds no entry never makes two entries share a name.
pub proof fn lemma_entries_keep_names_unique(before: Map<u16, PlayerView>, after: Map<u16, PlayerView>)
    ensures
        names_unique(before) && (forall|p: u16|
            after.contains_key(p) ==> before.contains_key(p) && (#[trigger] after[p]).name
                == before[p].name) ==> names_unique(after),
{
    if names_unique(before) && (forall|p: u16|
        after.contains_key(p) ==> before.contains_key(p) && (#[trigger] after[p]).name
            == before[p].name) {
        assert forall|p: u16, q: u16|
            #![trigger after[p], after[q]]
            after.contains_key(p) && after.contains_key(q) && p != q && after[p].name
                != missing_name() implies after[p].name != after[q].name by {
            assert(before[p].name != before[q].name);
        }
    }
}

/// A greeting never makes two entries share a name.
pub proof fn lemma_greeting_keeps_names_unique(m: Map<u16, PlayerView>, port: u16, g: GreetingView)
    requires
        names_unique(m),
    ensures
        names_unique(greeted(m, port, g)),
{
    let after = greeted(m, port, g);
    if !name_taken_by_another(m, port, g.player_name) && m.contains_key(port) {
        assert forall|p: u16, q: u16|
            #![trigger after[p], after[q]]
            after.contains_key(p) && after.contains_key(q) && p != q && after[p].name
                != missing_name() implies after[p].name != after[q].name by {
            if p == port {
                assert(m.contains_key(q) && m[q].name != g.player_name);
            } else if q == port {
                assert(m.contains_key(p) && m[p].name != g.player_name);
            } else {
                assert(m[p].name != m[q].name);
            }
        }
    }
}

/// Dropping entries never makes two entries share a name.
pub proof fn lemma_removal_keeps_names_unique(m: Map<u16, PlayerView>, port: u16)
    requires
        names_unique(m),
    ensures
        names_unique(m.remove(port)),
{
    let after = m.remove(port);
    assert forall|p: u16, q: u16|
        #![trigger after[p], after[q]]
        after.contains_key(p) && after.contains_key(q) && p != q && after[p].name
            != missing_name() implies after[p].name != after[q].name by {
        assert(m[p].name != m[q].name);
    }
}

/// Drops the entries of the streams found closed.
pub fn process_disconnection(connections: &mut InnerConnections, disconnected: &Vec<u16>)
    ensures
        final(connections)@ == old(connections)@.remove_keys(disconnected@.to_set()),
        names_unique(old(connections)@) ==> names_unique(final(connections)@),
{
    let mut i: usize = 0;
    while i < disconnected.len()
        invariant
            i <= disconnected.len(),
            connections@ == old(connections)@.remove_keys(disconnected@.take(i as int).to_set()),
            names_unique(old(connections)@) ==> names_unique(connections@),
        decreases disconnected.len() - i,
    {
        proof {
            let before = disconnected@.take(i as int);
            let after = disconnected@.take(i + 1);
            assert(after =~= before.push(disconnected@[i as int]));
            assert(after.to_set() =~= before.to_set().insert(disconnected@[i as int])) by {
                assert forall|x: u16| after.to_set().contains(x) <==> before.to_set().insert(
                    disconnected@[i as int],
                ).contains(x) by {
                    if before.contains(x) {
                        let k = choose|k: int| 0 <= k < before.len() && before[k] == x;
                        assert(after[k] == x);
                    }
                    if after.contains(x) {
                        let k = choose|k: int| 0 <= k < after.len() && after[k] == x;
                        if k < before.len() {
                            assert(before[k] == x);
                        }
                    }
                    assert(after[i as int] == disconnected@[i as int]);
                }
            }
            assert(old(connections)@.remove_keys(before.to_set()).remove(disconnected@[i as int])
                =~= old(connections)@.remove_keys(after.to_set()));
            if names_unique(connections@) {
                lemma_removal_keeps_names_unique(connections@, disconnected@[i as int]);
            }
        }
        connections.remove(&disconnected[i]);
        i = i + 1;
    }
    proof {
        assert(disconnected@.take(i as int) =~= disconnected@);
    }
}

} // verus!
