//! Verified core of a local context broker that stores per-repository,
//! per-branch checkpoints for coding agents.

pub mod text;
pub mod json;
pub mod error;
pub mod checkpoint;
pub mod scope;
pub mod store;
pub mod framing;
pub mod codec;
pub mod mcp;
