//! What both roles share: the protocol's constants, the bounded counters between
//! the loops, the pacing of a tick, and the bookkeeping of an accepted stream.

use vstd::prelude::*;
use crate::connections::{names_unique, InnerConnections, PlayerData};
use crate::socket::PeerAddress;

verus! {

/// Streams are configured without delay coalescing.
pub const DISABLE_NAGLE_ALGORITHM: bool = true;

/// The length of one tick of a cooperative loop, in milliseconds.
pub const MINIMUM_TICK_RATE_IN_MS: u128 = 1;

/// The size of the read buffer, and so the largest frame.
pub const BUFFER_SIZE: usize = 65536;

/// How many frames are read from one stream in one tick at most. A stream is
/// drained as far as it gives, so that a flooding peer does not pile up what it
/// sent.
pub const MAX_PACKETS_TO_GO_THROUGH: usize = usize::MAX;

/// How many datagrams may wait between the datagram loop and the redirection
/// loop, in either direction.
pub const MAX_QUEUE_SIZE: u64 = 1024;

/// How often an agent sends a heartbeat datagram.
pub const HEARTBEATS_PER_SECOND: u128 = 4;

/// An agent sends a stream heartbeat once more than this has passed since the
/// last one.
pub const STREAM_HEARTBEAT_INTERVAL_MS: u128 = 500;

/// The number of nanoseconds in a second.
pub const NANOS_PER_SECOND: u128 = 1_000_000_000;

/// The number of items waiting in one of the channels between the loops. It never
/// exceeds [`MAX_QUEUE_SIZE`].
#[derive(Debug)]
pub struct QueueCounter {
    size: u64,
}

impl QueueCounter {
    #[verifier::type_invariant]
    spec fn bounded(self) -> bool {
        self.size <= MAX_QUEUE_SIZE
    }

    /// The number of items waiting.
    pub closed spec fn len(&self) -> nat {
        self.size as nat
    }

    /// The counter of an empty channel.
    pub fn new() -> (r: Self)
        ensures
            r.len() == 0,
    {
        QueueCounter { size: 0 }
    }

    /// The number of items waiting.
    pub fn size(&self) -> (r: u64)
        ensures
            r == self.len(),
            r <= MAX_QUEUE_SIZE,
    {
        proof {
            use_type_invariant(self);
        }
        self.size
    }

    /// Whether one more item may be put into the channel.
    pub fn has_capacity(&self) -> (r: bool)
        ensures
            r == (self.len() < MAX_QUEUE_SIZE),
    {
        self.size < MAX_QUEUE_SIZE
    }

    /// Counts one more item if the channel has room. On `false` nothing was
    /// counted: the caller drops the item and reports the overflow.
    pub fn try_enqueue(&mut self) -> (accepted: bool)
        ensures
            accepted == (old(self).len() < MAX_QUEUE_SIZE),
            final(self).len() == after_enqueue(old(self).len()),
            final(self).len() <= MAX_QUEUE_SIZE,
    {
        if self.size < MAX_QUEUE_SIZE {
            self.size = self.size + 1;
            true
        } else {
            proof {
                use_type_invariant(&*self);
            }
            false
        }
    }

    /// Counts one item less: it was taken out of the channel.
    pub fn dequeue(&mut self)
        requires
            old(self).len() > 0,
        ensures
            final(self).len() == old(self).len() - 1,
            final(self).len() < MAX_QUEUE_SIZE,
    {
        proof {
            use_type_invariant(&*self);
        }
        self.size = self.size - 1;
    }
}

/// The count after an attempt to enqueue at count `size`.
pub open spec fn after_enqueue(size: nat) -> nat {
    if size < MAX_QUEUE_SIZE {
        size + 1
    } else {
        size
    }
}

/// Whether an attempt to enqueue at count `size` is refused.
pub open spec fn refused_at(size: nat) -> bool {
    size >= MAX_QUEUE_SIZE
}

/// The count after `attempts` attempts to enqueue in a row, starting at `size`.
pub open spec fn after_burst(size: nat, attempts: nat) -> nat
    decreases attempts,
{
    if attempts == 0 {
        size
    } else {
        after_enqueue(after_burst(size, (attempts - 1) as nat))
    }
}

/// The number of refused attempts among `attempts` attempts to enqueue in a row,
/// starting at `size`. Each refusal is one dropped item and one overflow report.
pub open spec fn refusals_in_burst(size: nat, attempts: nat) -> nat
    decreases attempts,
{
    if attempts == 0 {
        0
    } else {
        let before = (attempts - 1) as nat;
        refusals_in_burst(size, before) + if refused_at(after_burst(size, before)) {
            1nat
        } else {
            0nat
        }
    }
}

/// A burst of attempts fills the channel up to its limit and no further; every
/// attempt beyond the free room is refused, and no other.
pub proof fn lemma_burst(size: nat, attempts: nat)
    requires
        size <= MAX_QUEUE_SIZE,
    ensures
        after_burst(size, attempts) <= MAX_QUEUE_SIZE,
        after_burst(size, attempts) == if size + attempts <= MAX_QUEUE_SIZE {
            size + attempts
        } else {
            MAX_QUEUE_SIZE as nat
        },
        refusals_in_burst(size, attempts) == if size + attempts <= MAX_QUEUE_SIZE {
            0
        } else {
            size + attempts - MAX_QUEUE_SIZE
        },
        after_burst(size, attempts) + refusals_in_burst(size, attempts) == size + attempts,
    decreases attempts,
{
    if attempts > 0 {
        lemma_burst(size, (attempts - 1) as nat);
    }
}

/// Whether the datagram heartbeat is due, `since_heartbeat_nanos` after the last
/// one: once more than one `HEARTBEATS_PER_SECOND`-th of a second has passed.
pub fn datagram_heartbeat_due(since_heartbeat_nanos: u128) -> (due: bool)
    ensures
        due == (since_heartbeat_nanos * HEARTBEATS_PER_SECOND > NANOS_PER_SECOND),
{
    since_heartbeat_nanos > NANOS_PER_SECOND / HEARTBEATS_PER_SECOND
}

/// Whether the stream heartbeat is due, `since_heartbeat_millis` after the last
/// one.
pub fn stream_heartbeat_due(since_heartbeat_millis: u128) -> (due: bool)
    ensures
        due == (since_heartbeat_millis > STREAM_HEARTBEAT_INTERVAL_MS),
{
    since_heartbeat_millis > STREAM_HEARTBEAT_INTERVAL_MS
}

/// How long a loop sleeps at the end of a tick that took `elapsed_millis`: the
/// rest of the tick if nothing happened in it, and not at all otherwise.
pub open spec fn idle_sleep(had_one: bool, elapsed_millis: u128) -> Option<u64> {
    if !had_one && elapsed_millis < MINIMUM_TICK_RATE_IN_MS {
        Some((MINIMUM_TICK_RATE_IN_MS - elapsed_millis) as u64)
    } else {
        None
    }
}

/// How long a loop sleeps at the end of a tick, in milliseconds.
pub fn idle_sleep_millis(had_one: bool, elapsed_millis: u128) -> (r: Option<u64>)
    ensures
        r == idle_sleep(had_one, elapsed_millis),
{
    if !had_one && elapsed_millis < MINIMUM_TICK_RATE_IN_MS {
        Some((MINIMUM_TICK_RATE_IN_MS - elapsed_millis) as u64)
    } else {
        None
    }
}

/// What the datagram loop of an agent observed in one tick.
pub struct UdpTick {
    /// The time since the last heartbeat datagram was sent, in nanoseconds.
    pub since_heartbeat_nanos: u128,
    /// The datagram received in this tick, if any, with its source port.
    pub received: Option<(u16, Vec<u8>)>,
    /// The item taken from the outbound channel in this tick, if any: a
    /// destination address and the bytes for it.
    pub relayed: Option<(String, Vec<u8>)>,
}

/// What the datagram loop of an agent does in one tick.
pub struct UdpPlan {
    /// Send a heartbeat datagram to the rendezvous and restart the heartbeat
    /// timer.
    pub send_heartbeat: bool,
    /// Hand this datagram to the redirection loop.
    pub to_redirection: Option<(u16, Vec<u8>)>,
    /// The received datagram found the inbound channel full: it is dropped, and
    /// the overflow is reported.
    pub over_capacity: bool,
    /// Send these bytes to this address.
    pub to_network: Option<(String, Vec<u8>)>,
    /// Whether anything happened in this tick.
    pub had_one: bool,
}

/// One tick of an agent's datagram loop. A received datagram goes on to the
/// redirection loop while the inbound channel has room and is dropped otherwise;
/// the overflow is reported exactly when a datagram is dropped. An item from the
/// outbound channel is sent and no longer counted.
pub fn handle_udp_traffic(
    tick: UdpTick,
    udp_queue_size: &mut QueueCounter,
    relay_queue_size: &mut QueueCounter,
) -> (plan: UdpPlan)
    requires
        tick.relayed is Some ==> old(relay_queue_size).len() > 0,
    ensures
        plan.send_heartbeat == (tick.since_heartbeat_nanos * HEARTBEATS_PER_SECOND
            > NANOS_PER_SECOND),
        plan.to_redirection == if old(udp_queue_size).len() < MAX_QUEUE_SIZE {
            tick.received
        } else {
            None
        },
        plan.over_capacity == (tick.received is Some && old(udp_queue_size).len()
            >= MAX_QUEUE_SIZE),
        plan.over_capacity == (tick.received is Some && plan.to_redirection is None),
        final(udp_queue_size).len() == if tick.received is Some {
            after_enqueue(old(udp_queue_size).len())
        } else {
            old(udp_queue_size).len()
        },
        plan.to_network == tick.relayed,
        final(relay_queue_size).len() == if tick.relayed is Some {
            (old(relay_queue_size).len() - 1) as nat
        } else {
            old(relay_queue_size).len()
        },
        plan.had_one == (tick.received is Some || tick.relayed is Some),
{
    let send_heartbeat = datagram_heartbeat_due(tick.since_heartbeat_nanos);
    let mut had_one = false;
    let mut to_redirection: Option<(u16, Vec<u8>)> = None;
    let mut over_capacity = false;
    if tick.received.is_some() {
        had_one = true;
        if udp_queue_size.try_enqueue() {
            to_redirection = tick.received;
        } else {
            over_capacity = true;
        }
    }
    if tick.relayed.is_some() {
        had_one = true;
        relay_queue_size.dequeue();
    }
    UdpPlan { send_heartbeat, to_redirection, over_capacity, to_network: tick.relayed, had_one }
}

/// Records a freshly accepted stream from `peer`: the registry gets an unnamed
/// entry under the peer's port, replacing what was there.
pub fn accept_connections(connections: &mut InnerConnections, peer: PeerAddress)
    ensures
        final(connections)@ == old(connections)@.insert(peer.port, PlayerData::accepted_view(peer)),
        names_unique(old(connections)@) ==> names_unique(final(connections)@),
{
    connections.insert(peer.port, PlayerData::accepted(peer));
}

} // verus!
