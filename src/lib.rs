//! A bidirectional data bridge between a packet link and a stream link,
//! with bounded channels, per-direction connection tracking and a status
//! aggregator that derives a single visual signal.

pub mod chunk;
pub mod channel;
pub mod state;
pub mod status;
pub mod ingress;
pub mod egress;
pub mod lane;
pub mod trace;
