//! Round-based secret-ballot state machine.
//!
//! Voters contribute hidden yes/no votes, an opaque secret-computation engine
//! tallies them, the tally is declassified, a multi-party attestation is
//! produced over the serialized result, and the round resets. This crate
//! holds the open state machine: phase gating of vote intake and tally
//! triggering, the result record with its big-endian attested serialization,
//! and the formatting of the per-party signatures into a portable proof
//! string. The secret-computation, declassification and signing engines are
//! external: the handlers here only read the state the engine reports and
//! return the requests to send back to it.

pub mod codec;
pub mod contract;
pub mod evm;
pub mod find;
pub mod state;
pub mod tally;
