//! Application layer of a replicated database node driven by a BFT
//! consensus engine: admission checks, staging of delivered transactions,
//! and the ordered, all-or-nothing commit of each block, with the node's
//! counters. Decoding, signature recovery and the authenticated store are
//! collaborators: the library takes their results as values.

pub mod admission;
pub mod clock;
pub mod error;
pub mod laws;
pub mod node;
pub mod state;
pub mod types;
