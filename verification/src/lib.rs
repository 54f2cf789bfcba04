//! Verified core of a rollup proving service.
//!
//! The library covers the parts of the proving workflow where soundness and
//! cost decisions are made: selecting a capacity tier for a block, decoding
//! untrusted request text into fixed-width cryptographic public inputs,
//! building circuit descriptions from a witness, driving the prove / verify /
//! mock stages, and tracking a proof task through its lifecycle.

pub mod artifact;
pub mod circuits;
pub mod codec;
pub mod config;
pub mod error;
pub mod instance;
pub mod pipeline;
pub mod proofs;
pub mod request;
