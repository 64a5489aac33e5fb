use rubicon::common::accept_connections;
use rubicon::connections::{process_disconnection, InnerConnections, PlayerData};
use rubicon::packet::GreetingPacket;
use rubicon::socket::{PeerAddress, PeerHost, SocketWrapper};

fn peer(port: u16) -> PeerAddress {
    PeerAddress { host: PeerHost::V4(0xc0a8_0105), port }
}

fn greeting(name: &str, local_port: u16) -> GreetingPacket {
    GreetingPacket { player_name: name.to_string(), local_port }
}

fn registry_of(ports: &[u16]) -> InnerConnections {
    let mut registry = InnerConnections::default();
    for port in ports {
        accept_connections(&mut registry, peer(*port));
    }
    registry
}

fn names(registry: &InnerConnections) -> Vec<String> {
    let mut names: Vec<String> =
        registry.public_players().into_iter().map(|player| player.name).collect();
    names.sort();
    names
}

#[test]
fn a_new_registry_is_empty() {
    let registry = InnerConnections::default();
    assert!(registry.ports().is_empty());
    assert!(registry.public_players().is_empty());
    assert!(registry.get(&1).is_none());
    assert_eq!(registry.get_player_tcp_port_by_name(&"<missing>".to_string()), None);
}

#[test]
fn insert_returns_what_was_there() {
    let mut registry = InnerConnections::default();
    assert!(registry.insert(5000, PlayerData::accepted(peer(5000))).is_none());
    let mut replacement = PlayerData::accepted(peer(5000));
    replacement.name = "Alice".to_string();
    let previous = registry.insert(5000, replacement).expect("previous entry");
    assert_eq!(previous.name, "<missing>");
    assert_eq!(registry.get(&5000).expect("entry").name, "Alice");
    assert_eq!(registry.ports(), vec![5000]);
}

#[test]
fn remove_returns_the_entry_and_drops_it() {
    let mut registry = registry_of(&[5000, 5001]);
    let removed = registry.remove(&5000).expect("entry");
    assert_eq!(removed.address, peer(5000));
    assert!(registry.get(&5000).is_none());
    assert!(registry.get(&5001).is_some());
    assert!(registry.remove(&5000).is_none());
}

#[test]
fn ports_lists_every_entry_once() {
    let registry = registry_of(&[5002, 5000, 5001, 5000]);
    let mut ports = registry.ports();
    ports.sort();
    assert_eq!(ports, vec![5000, 5001, 5002]);
}

#[test]
fn a_greeting_names_the_entry() {
    let mut registry = registry_of(&[5000, 5001]);
    assert!(registry.update_player_from_greeting(5000, &greeting("Alice", 7000)));
    let entry = registry.get(&5000).expect("entry");
    assert_eq!(entry.name, "Alice");
    assert_eq!(entry.local_port, Some(7000));
    assert_eq!(entry.address, peer(5000));
    assert_eq!(entry.last_known_udp_port, 0);
    let other = registry.get(&5001).expect("entry");
    assert_eq!(other.name, "<missing>");
    assert_eq!(other.local_port, None);
}

#[test]
fn a_taken_name_is_refused_and_nothing_changes() {
    let mut registry = registry_of(&[5000, 5001]);
    assert!(registry.update_player_from_greeting(5000, &greeting("Alice", 7000)));
    assert!(!registry.update_player_from_greeting(5001, &greeting("Alice", 7001)));
    assert_eq!(registry.get(&5001).expect("entry").name, "<missing>");
    assert_eq!(registry.get(&5001).expect("entry").local_port, None);
    assert_eq!(registry.get(&5000).expect("entry").local_port, Some(7000));
    assert_eq!(names(&registry), vec!["<missing>".to_string(), "Alice".to_string()]);
}

#[test]
fn greeting_again_under_the_own_name_is_accepted() {
    let mut registry = registry_of(&[5000, 5001]);
    assert!(registry.update_player_from_greeting(5000, &greeting("Alice", 7000)));
    assert!(registry.update_player_from_greeting(5000, &greeting("Alice", 7005)));
    let entry = registry.get(&5000).expect("entry");
    assert_eq!(entry.name, "Alice");
    assert_eq!(entry.local_port, Some(7005));
    assert_eq!(entry.address, peer(5000));
    assert_eq!(registry.get(&5001).expect("entry").name, "<missing>");
}

#[test]
fn a_renamed_entry_frees_its_old_name() {
    let mut registry = registry_of(&[5000, 5001]);
    assert!(registry.update_player_from_greeting(5000, &greeting("Alice", 7000)));
    assert!(registry.update_player_from_greeting(5000, &greeting("Alicia", 7000)));
    assert!(registry.update_player_from_greeting(5001, &greeting("Alice", 7001)));
    assert_eq!(registry.get(&5000).expect("entry").name, "Alicia");
    assert_eq!(registry.get(&5001).expect("entry").name, "Alice");
}

#[test]
fn the_placeholder_name_counts_as_taken_while_another_is_unnamed() {
    let mut registry = registry_of(&[5000, 5001]);
    assert!(!registry.update_player_from_greeting(5000, &greeting("<missing>", 7000)));
    assert_eq!(registry.get(&5000).expect("entry").local_port, None);
    // alone, an entry may greet under the name it has, whatever that name is
    let mut registry = registry_of(&[5000]);
    assert!(registry.update_player_from_greeting(5000, &greeting("<missing>", 7000)));
    assert_eq!(registry.get(&5000).expect("entry").name, "<missing>");
    assert_eq!(registry.get(&5000).expect("entry").local_port, Some(7000));
}

#[test]
fn another_entry_with_the_name_is_found_and_the_own_is_not() {
    let mut registry = registry_of(&[5000, 5001]);
    registry.update_player_from_greeting(5000, &greeting("Alice", 7000));
    assert!(!registry.is_name_taken_by_another(5000, &"Alice".to_string()));
    assert!(registry.is_name_taken_by_another(5001, &"Alice".to_string()));
    assert!(registry.is_name_taken_by_another(6000, &"Alice".to_string()));
    assert!(!registry.is_name_taken_by_another(5001, &"Bob".to_string()));
    assert!(registry.is_name_taken_by_another(5000, &"<missing>".to_string()));
    assert!(!registry.is_name_taken_by_another(5001, &"<missing>".to_string()));
}

#[test]
fn a_greeting_for_an_unknown_stream_changes_nothing() {
    let mut registry = registry_of(&[5000]);
    assert!(registry.update_player_from_greeting(6000, &greeting("Alice", 7000)));
    assert!(registry.get(&6000).is_none());
    assert_eq!(registry.get(&5000).expect("entry").name, "<missing>");
}

#[test]
fn lookup_by_name_finds_the_port() {
    let mut registry = registry_of(&[5000, 5001, 5002]);
    registry.update_player_from_greeting(5001, &greeting("Bob", 8000));
    registry.update_player_from_greeting(5002, &greeting("Alice", 7000));
    assert_eq!(registry.get_player_tcp_port_by_name(&"Bob".to_string()), Some(5001));
    assert_eq!(registry.get_player_tcp_port_by_name(&"Alice".to_string()), Some(5002));
    assert_eq!(registry.get_player_tcp_port_by_name(&"Carol".to_string()), None);
    assert_eq!(registry.get_player_tcp_port_by_name(&"<missing>".to_string()), Some(5000));
}

#[test]
fn the_datagram_port_is_written_through_the_reference() {
    let mut registry = registry_of(&[5000, 5001]);
    registry.update_player_from_greeting(5000, &greeting("Alice", 7000));
    registry.update_player_from_greeting(5001, &greeting("Bob", 8000));
    {
        let port = registry
            .get_player_udp_port_by_name_mut(&"Bob".to_string())
            .expect("Bob is registered");
        assert_eq!(*port, 0);
        *port = 61000;
    }
    assert_eq!(registry.get(&5001).expect("entry").last_known_udp_port, 61000);
    assert_eq!(registry.get(&5001).expect("entry").name, "Bob");
    assert_eq!(registry.get(&5001).expect("entry").local_port, Some(8000));
    assert_eq!(registry.get(&5000).expect("entry").last_known_udp_port, 0);
    assert_eq!(
        registry.get_player_udp_port_by_name_mut(&"Bob".to_string()).copied(),
        Some(61000)
    );
}

#[test]
fn the_datagram_port_of_an_unknown_name_is_none() {
    let mut registry = registry_of(&[5000]);
    assert!(registry.get_player_udp_port_by_name_mut(&"Nobody".to_string()).is_none());
    assert_eq!(registry.get(&5000).expect("entry").last_known_udp_port, 0);
}

#[test]
fn the_sockets_are_written_through_the_reference() {
    let mut registry = registry_of(&[5000, 5001]);
    {
        let stream = registry.get_target_stream(5000).expect("entry");
        assert_eq!(*stream, SocketWrapper::from_tcp_socket(peer(5000)));
        stream.attach_udp(40001, 77);
    }
    let entry = registry.get(&5000).expect("entry");
    assert_eq!(
        entry.stream,
        SocketWrapper { tcp: Some(peer(5000)), udp: Some(40001), last_datagram_ms: 77 }
    );
    assert_eq!(entry.name, "<missing>");
    assert_eq!(
        registry.get(&5001).expect("entry").stream,
        SocketWrapper::from_tcp_socket(peer(5001))
    );
    assert!(registry.get_target_stream(6000).is_none());
}

#[test]
fn public_players_names_every_entry() {
    let mut registry = registry_of(&[5000, 5001, 5002]);
    registry.update_player_from_greeting(5001, &greeting("Bob", 8000));
    assert_eq!(
        names(&registry),
        vec!["<missing>".to_string(), "<missing>".to_string(), "Bob".to_string()]
    );
}

#[test]
fn disconnection_drops_the_listed_entries() {
    let mut registry = registry_of(&[5000, 5001, 5002]);
    process_disconnection(&mut registry, &vec![5001, 7000, 5001]);
    let mut ports = registry.ports();
    ports.sort();
    assert_eq!(ports, vec![5000, 5002]);
    process_disconnection(&mut registry, &Vec::new());
    assert_eq!(registry.ports().len(), 2);
}

#[test]
fn a_clone_of_an_entry_has_the_same_fields() {
    let mut entry = PlayerData::accepted(peer(5000));
    entry.name = "Alice".to_string();
    entry.local_port = Some(7000);
    entry.last_known_udp_port = 61000;
    let copy = entry.clone();
    assert_eq!(copy.address, entry.address);
    assert_eq!(copy.stream, entry.stream);
    assert_eq!(copy.name, entry.name);
    assert_eq!(copy.local_port, entry.local_port);
    assert_eq!(copy.last_known_udp_port, entry.last_known_udp_port);
}
