//! The bundle of sockets behind one connection, as far as decisions depend on it:
//! which halves exist, where the stream leads, and when the datagram half was last
//! active. The sockets themselves stay with the caller.

use vstd::prelude::*;

verus! {

/// The datagram half counts as dead once it has been silent for longer than this.
pub const DATAGRAM_TIMEOUT_MS: u64 = 1400;

/// The host part of a network address.
#[derive(Copy, Clone, Debug, PartialEq, Eq, Structural)]
pub enum PeerHost {
    /// An IPv4 address, the first octet in the highest byte.
    V4(u32),
    /// An IPv6 address with its flow information and scope.
    V6 { bits: u128, flowinfo: u32, scope_id: u32 },
}

/// A network address: host and port.
#[derive(Copy, Clone, Debug, PartialEq, Eq, Structural)]
pub struct PeerAddress {
    pub host: PeerHost,
    pub port: u16,
}

impl PeerAddress {
    /// The same host with another port.
    pub fn with_port(self, port: u16) -> (r: PeerAddress)
        ensures
            r == (PeerAddress { host: self.host, port }),
    {
        PeerAddress { host: self.host, port }
    }
}

/// One connection's sockets: an optional stream and an optional datagram socket.
#[derive(Copy, Clone, Debug, PartialEq, Eq, Structural)]
pub struct SocketWrapper {
    /// The peer of the stream, if there is a stream.
    pub tcp: Option<PeerAddress>,
    /// The local port of the datagram socket, if there is one.
    pub udp: Option<u16>,
    /// When the datagram half was last active, in milliseconds of a monotonic
    /// clock.
    pub last_datagram_ms: u64,
}

/// A stream is closed when a peek succeeds with no bytes. `None` stands for a peek
/// that failed, for instance because it would block.
pub open spec fn stream_timed_out(peek: Option<usize>) -> bool {
    peek == Some(0usize)
}

impl SocketWrapper {
    /// Whether the datagram half has been silent for more than
    /// [`DATAGRAM_TIMEOUT_MS`] at `now_ms`.
    pub open spec fn datagram_timed_out(&self, now_ms: u64) -> bool {
        now_ms - self.last_datagram_ms > DATAGRAM_TIMEOUT_MS
    }

    /// The wrapper is dead when every half that is present is timed out.
    pub open spec fn timed_out(&self, peek: Option<usize>, now_ms: u64) -> bool {
        &&& self.tcp is Some ==> stream_timed_out(peek)
        &&& self.udp is Some ==> self.datagram_timed_out(now_ms)
    }

    /// A wrapper around a stream to `peer`, without a datagram half.
    pub fn from_tcp_socket(peer: PeerAddress) -> (r: Self)
        ensures
            r == (SocketWrapper { tcp: Some(peer), udp: None, last_datagram_ms: 0 }),
    {
        SocketWrapper { tcp: Some(peer), udp: None, last_datagram_ms: 0 }
    }

    /// A wrapper around a datagram socket bound to `port` and active at `now_ms`,
    /// without a stream half.
    pub fn from_udp_socket(port: u16, now_ms: u64) -> (r: Self)
        ensures
            r == (SocketWrapper { tcp: None, udp: Some(port), last_datagram_ms: now_ms }),
    {
        SocketWrapper { tcp: None, udp: Some(port), last_datagram_ms: now_ms }
    }

    /// Fills in the stream half.
    pub fn attach_tcp(&mut self, peer: PeerAddress)
        ensures
            *final(self) == (SocketWrapper { tcp: Some(peer), ..*old(self) }),
    {
        self.tcp = Some(peer);
    }

    /// Fills in the datagram half, active at `now_ms`.
    pub fn attach_udp(&mut self, port: u16, now_ms: u64)
        ensures
            *final(self) == (SocketWrapper {
                udp: Some(port),
                last_datagram_ms: now_ms,
                ..*old(self)
            }),
    {
        self.udp = Some(port);
        self.last_datagram_ms = now_ms;
    }

    /// Records datagram activity at `now_ms`.
    pub fn touch(&mut self, now_ms: u64)
        ensures
            *final(self) == (SocketWrapper { last_datagram_ms: now_ms, ..*old(self) }),
            !final(self).datagram_timed_out(now_ms),
    {
        self.last_datagram_ms = now_ms;
    }

    pub fn has_tcp(&self) -> (r: bool)
        ensures
            r == (self.tcp is Some),
    {
        self.tcp.is_some()
    }

    pub fn has_udp(&self) -> (r: bool)
        ensures
            r == (self.udp is Some),
    {
        self.udp.is_some()
    }

    /// The peer of the stream.
    pub fn get_tcp_addr(&self) -> (r: PeerAddress)
        requires
            self.tcp is Some,
        ensures
            Some(r) == self.tcp,
    {
        self.tcp.unwrap()
    }

    /// Whether the connection is dead, given the outcome of a peek on its stream
    /// and the time. `peek` is `Some(n)` for a peek that returned `n` bytes and
    /// `None` for one that failed; it is not looked at when there is no stream.
    pub fn is_timed_out(&self, peek: Option<usize>, now_ms: u64) -> (r: bool)
        ensures
            r == self.timed_out(peek, now_ms),
    {
        let stream_dead = match self.tcp {
            Some(_) => match peek {
                Some(n) => n == 0,
                None => false,
            },
            None => true,
        };
        let datagram_dead = match self.udp {
            Some(_) => now_ms > self.last_datagram_ms && now_ms - self.last_datagram_ms
                > DATAGRAM_TIMEOUT_MS,
            None => true,
        };
        stream_dead && datagram_dead
    }
}

/// With both halves present, a datagram silence beyond the limit makes the
/// connection dead exactly when the stream is closed as well; within the limit the
/// connection is alive whatever the stream says.
pub proof fn lemma_silence_alone_does_not_kill(w: SocketWrapper, peek: Option<usize>, now_ms: u64)
    requires
        w.tcp is Some,
        w.udp is Some,
    ensures
        now_ms - w.last_datagram_ms > DATAGRAM_TIMEOUT_MS ==> (w.timed_out(peek, now_ms)
            <==> peek == Some(0usize)),
        now_ms - w.last_datagram_ms <= DATAGRAM_TIMEOUT_MS ==> !w.timed_out(peek, now_ms),
{
}

/// A connection with only one half is dead exactly when that half is; one with no
/// half at all is dead.
pub proof fn lemma_single_half(w: SocketWrapper, peek: Option<usize>, now_ms: u64)
    ensures
        w.tcp is Some && w.udp is None ==> (w.timed_out(peek, now_ms) <==> peek == Some(0usize)),
        w.tcp is None && w.udp is Some ==> (w.timed_out(peek, now_ms) <==> now_ms
            - w.last_datagram_ms > DATAGRAM_TIMEOUT_MS),
        w.tcp is None && w.udp is None ==> w.timed_out(peek, now_ms),
{
}

} // verus!
