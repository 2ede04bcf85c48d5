//! Connection-lifecycle and behaviour-composition core of a peer-to-peer node.
//!
//! Several independent network behaviours (peer discovery bootstrap, automatic
//! reconnection, a one-shot greeting exchange) observe connection events on a
//! shared transport and emit outbound actions through a single non-blocking
//! poll interface. Transport establishment, encryption and the distributed
//! hash table internals are external collaborators: this crate holds the glue
//! state machines and the wire codec of the greeting protocol, each with a
//! verified contract.

pub mod types;
pub mod varint;
pub mod simple;
pub mod handler;
pub mod welcome;
pub mod reconnect;
pub mod kad;
pub mod compose;
