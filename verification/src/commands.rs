//! The command-line surface as plain data: what the executable was asked to do.

use vstd::prelude::*;

verus! {

/// The transport a frame or a diagnostic subcommand refers to.
#[derive(Copy, Clone, Debug, PartialEq, Eq, Structural)]
pub enum SocketType {
    /// Datagram transport.
    Udp,
    /// Stream transport.
    Tcp,
}

impl Default for SocketType {
    fn default() -> (r: Self)
        ensures
            r == SocketType::Tcp,
    {
        SocketType::Tcp
    }
}

impl SocketType {
    /// The variant's name as it appears in trace lines.
    pub open spec fn label_spec(self) -> Seq<char> {
        match self {
            SocketType::Udp => seq!['U', 'd', 'p'],
            SocketType::Tcp => seq!['T', 'c', 'p'],
        }
    }

    /// The variant's name as it appears in trace lines.
    pub fn label(self) -> (r: &'static str)
        ensures
            r@ == self.label_spec(),
    {
        proof {
            reveal_strlit("Udp");
            reveal_strlit("Tcp");
        }
        let r = match self {
            SocketType::Udp => "Udp",
            SocketType::Tcp => "Tcp",
        };
        assert(r@ =~= self.label_spec());
        r
    }
}

/// The parsed command line: exactly one subcommand.
#[derive(Debug)]
pub struct Args {
    pub command: Commands,
}

/// The subcommands of the executable.
#[derive(Debug)]
pub enum Commands {
    /// Run the rendezvous on `port`, for streams and datagrams alike.
    Host { port: u16 },
    /// Run one agent: register as `player_name` on `player_port` and route local
    /// traffic to `other_player_name` at `other_player_port`.
    Connect {
        server_address: String,
        player_name: String,
        player_port: u16,
        other_player_name: String,
        other_player_port: u16,
    },
    /// Run one agent per listed port.
    MultiConnect {
        server_address: String,
        player_name: String,
        other_player_name: String,
        player_ports: Vec<u16>,
    },
    /// Run one agent per port of an inclusive range.
    MassConnect {
        server_address: String,
        player_name: String,
        other_player_name: String,
        lower_port_inclusive: u16,
        upper_port_inclusive: u16,
    },
    /// Send test traffic of `data_size` bytes to `address` from `port`.
    Ping { port: u16, address: String, socket: SocketType, data_size: usize },
    /// Listen on `port` and echo what arrives.
    Listen { port: u16, socket: SocketType },
    /// Send one operator command to the rendezvous at `address`.
    Command { address: String, command: String },
}

} // verus!
