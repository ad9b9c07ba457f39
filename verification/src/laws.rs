//! What holds of the engine whatever calls it receives, proved over the
//! state machine that the contracts of the operations are written in.

pub mod execution;
pub mod invariants;
pub mod locality;
pub mod proposals;
pub mod runs;
pub mod stake;
pub mod voting;
