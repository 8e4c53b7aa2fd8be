//! Node infrastructure for Maelstrom distributed-systems workloads: the wire
//! message model, error codes, the inbound/outbound multiplexing decisions, and
//! the echo, unique-id and broadcast services built on top of them.

pub mod error;
pub mod message;
pub mod mux;
pub mod decimal;
pub mod protocol;
pub mod service;
pub mod echo;
pub mod unique_ids;
pub mod broadcast;
pub mod runtime;
