//! The small rules of the diagnostic subcommands.

use vstd::prelude::*;
use crate::packet::{CommandPacket, CommandView, Packet, PacketView};

verus! {

/// The period of the test pattern that `ping` sends.
pub const PING_PATTERN_PERIOD: usize = 255;

/// A listener on the datagram transport echoes the first datagram of each peer
/// and then every datagram that is this many later.
pub const ECHO_EVERY: u64 = 3;

/// The test pattern of `data_size` bytes: the byte at index `i` is `i` modulo
/// [`PING_PATTERN_PERIOD`].
pub fn ping_payload(data_size: usize) -> (r: Vec<u8>)
    ensures
        r.len() == data_size,
        forall|i: int| 0 <= i < r.len() ==> #[trigger] r@[i] == i % (PING_PATTERN_PERIOD as int),
{
    let mut out: Vec<u8> = Vec::new();
    let mut i: usize = 0;
    while i < data_size
        invariant
            i <= data_size,
            out.len() == i,
            forall|k: int|
                0 <= k < out.len() ==> #[trigger] out@[k] == k % (PING_PATTERN_PERIOD as int),
        decreases data_size - i,
    {
        out.push((i % PING_PATTERN_PERIOD) as u8);
        i = i + 1;
    }
    out
}

/// Whether a listener echoes the datagram that is the `received`-th of its peer,
/// counted from one.
pub fn echo_due(received: u64) -> (r: bool)
    ensures
        r == (received % ECHO_EVERY == 1),
{
    received % ECHO_EVERY == 1
}

/// The frame that carries the operator command `command`.
pub fn send_command(command: String) -> (r: Packet)
    ensures
        r@ == PacketView::Command(CommandView { command: command@ }),
{
    Packet::Command(CommandPacket { command })
}

} // verus!
