//! Epoch lifecycle and holder-genome accounting for a token transfer pipeline.
//!
//! The library accumulates transfer activity into time-boxed epochs, mutates
//! an asset's classification and policy parameters once an epoch's minimum
//! duration has elapsed (archiving an immutable fossil snapshot with a
//! SHA-256 fingerprint), and derives bounded per-holder trait scores from
//! cumulative interaction history. All state transitions are pure functions
//! from (record state, inputs) to (new record state, emitted event) or an
//! explicit error; the host supplies timestamps and persists the records.

pub mod epoch;
pub mod genome;
pub mod hashing;
pub mod mutation;
pub mod state;
pub mod trigger;
