//! A relay that lets two peers behind NATs exchange stream and datagram traffic
//! through a publicly reachable rendezvous node.
//!
//! The crate holds the protocol's frame types and the decisions of both roles:
//! what the rendezvous does with a frame, and how an agent maps remote flows to
//! local loopback sockets. It performs no I/O; the caller owns the sockets, reports
//! what it read, and carries out what the functions here return.

pub mod text;
pub mod commands;
pub mod packet;
pub mod socket;
pub mod connections;
pub mod common;
pub mod dispatch;
pub mod server;
pub mod flows;
pub mod client;
pub mod diag;
