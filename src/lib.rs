//! A transport that carries typed connection and substream messages over an
//! anonymous, packet-oriented mixnet.
//!
//! The library holds the message protocol (the typed messages and their wire
//! encoding), the addressing rules for outbound messages, and the decisions of
//! the bridging pump that moves packets between the mixnet client and the
//! inbound and outbound queues.
pub mod error;
pub mod message;
pub mod routing;
pub mod bridge;
