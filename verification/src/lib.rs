//! Reliable-broadcast consensus engine of a peer-to-peer node.
//!
//! A message proposed by a member of the cluster goes through three phases
//! (pre-prepare, prepare, commit). Every node keeps one context per message
//! and counts the votes of the members; a quorum policy decides when a phase
//! is complete.

pub mod api;
pub mod application;
pub mod block;
pub mod clock;
pub mod codec;
pub mod configuration;
pub mod context;
pub mod crypto;
pub mod dispatcher;
pub mod ephemera_message;
pub mod laws;
pub mod membership;
pub mod message;
pub mod model;
pub mod peer;
pub mod quorum;
pub mod quorum_consensus;
pub mod recency;
pub mod store;
pub mod text;
pub mod varint;
