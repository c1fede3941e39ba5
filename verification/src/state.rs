//! Record types: the mutable epoch accumulator, the per-holder genome record,
//! the immutable fossil snapshot, the emitted events, and the error codes.

use vstd::prelude::*;

verus! {

/// Minimum length of one epoch, in seconds (seven days).
pub const EPOCH_DURATION: i64 = 7 * 24 * 60 * 60;

/// Four-tier ordinal classification of an asset's activity within one epoch.
#[derive(Clone, Copy, Debug, PartialEq, Eq, Structural)]
pub enum EmotionalState {
    Calm,
    Active,
    Excited,
    Frenzied,
}

/// The wire code of a classification, as it is persisted and hashed.
pub open spec fn state_code_spec(s: EmotionalState) -> u8 {
    match s {
        EmotionalState::Calm => 0,
        EmotionalState::Active => 1,
        EmotionalState::Excited => 2,
        EmotionalState::Frenzied => 3,
    }
}

/// Returns the single-byte wire code of a classification.
pub fn state_code(s: EmotionalState) -> (c: u8)
    ensures
        c == state_code_spec(s),
{
    match s {
        EmotionalState::Calm => 0,
        EmotionalState::Active => 1,
        EmotionalState::Excited => 2,
        EmotionalState::Frenzied => 3,
    }
}

/// Mutable per-asset accumulator: one epoch's running counters and the
/// asset's current classification and policy parameters.
#[derive(Clone, Copy, Debug, PartialEq, Eq)]
pub struct EpochState {
    pub mint: [u8; 32],
    pub epoch_id: u64,
    pub start_time: i64,
    pub tx_count: u64,
    pub total_volume: u64,
    pub emotional_state: EmotionalState,
    pub burn_rate_bps: u16,
    pub max_wallet_bps: u16,
}

/// Mutable per-(asset, holder) record: lifetime cumulative counters and the
/// three derived trait scores, each in [0, 100].
#[derive(Clone, Copy, Debug, PartialEq, Eq)]
pub struct WalletDna {
    pub wallet: [u8; 32],
    pub mint: [u8; 32],
    pub first_interaction: i64,
    pub last_interaction: i64,
    pub tx_count: u64,
    pub total_volume: u64,
    pub loyalty_gene: u8,
    pub activity_gene: u8,
    pub appetite_gene: u8,
}

/// Immutable snapshot of one completed epoch: its counters, the newly
/// computed classification and parameters, and a tamper-evident fingerprint.
#[derive(Clone, Copy, Debug, PartialEq, Eq)]
pub struct Fossil {
    pub epoch_id: u64,
    pub mint: [u8; 32],
    pub start_time: i64,
    pub end_time: i64,
    pub tx_count: u64,
    pub total_volume: u64,
    pub emotional_state: EmotionalState,
    pub burn_rate_bps: u16,
    pub max_wallet_bps: u16,
    pub genome_hash: [u8; 32],
}

/// Event emitted after every holder interaction: the new gene triple.
#[derive(Clone, Copy, Debug, PartialEq, Eq)]
pub struct DnaUpdated {
    pub wallet: [u8; 32],
    pub loyalty: u8,
    pub activity: u8,
    pub appetite: u8,
}

/// Event emitted after a successful mutation: the completed epoch's id, the
/// new classification and parameters, and the fossil's fingerprint.
#[derive(Clone, Copy, Debug, PartialEq, Eq)]
pub struct MutationTriggered {
    pub epoch_id: u64,
    pub emotional_state: EmotionalState,
    pub burn_rate_bps: u16,
    pub max_wallet_bps: u16,
    pub genome_hash: [u8; 32],
}

/// Error codes. Every failure is terminal for its invocation and leaves the
/// records untouched.
#[derive(Clone, Copy, Debug, PartialEq, Eq, Structural)]
pub enum ThyxelError {
    EpochNotEnded,
    IsNotCurrentlyTransferring,
    InvalidTrigger,
}

/// The fixed descriptive message of each error code.
pub open spec fn error_message_spec(e: ThyxelError) -> Seq<char> {
    match e {
        ThyxelError::EpochNotEnded => "Epoch has not ended yet. Wait 7 days."@,
        ThyxelError::IsNotCurrentlyTransferring => "Not currently transferring."@,
        ThyxelError::InvalidTrigger => "Unrecognized transfer hook trigger."@,
    }
}

impl ThyxelError {
    /// Returns the fixed descriptive message surfaced to the host.
    pub fn message(&self) -> (m: &'static str)
        ensures
            m@ == error_message_spec(*self),
    {
        match self {
            ThyxelError::EpochNotEnded => "Epoch has not ended yet. Wait 7 days.",
            ThyxelError::IsNotCurrentlyTransferring => "Not currently transferring.",
            ThyxelError::InvalidTrigger => "Unrecognized transfer hook trigger.",
        }
    }
}

} // verus!
