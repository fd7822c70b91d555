//! Coordination helpers that sit above the replicated durable store and the
//! replicated cache: group dispatch, the initialization guard and the binary
//! codec for the plain payloads that travel between nodes.

pub mod codec;
pub mod group;
pub mod guard;

