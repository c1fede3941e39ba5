//! The epoch accumulator: creation of a fresh per-asset record and the
//! per-transfer counter update, together with the law that counters track
//! the whole history of recorded transfers until saturation.

use vstd::prelude::*;

use crate::state::{EmotionalState, EpochState};

verus! {

/// A fresh accumulator for an asset: epoch 0 starting at `now`, zero
/// counters, Calm, and the initial policy parameters.
pub open spec fn fresh_epoch_spec(mint: [u8; 32], now: i64) -> EpochState {
    EpochState {
        mint: mint,
        epoch_id: 0,
        start_time: now,
        tx_count: 0,
        total_volume: 0,
        emotional_state: EmotionalState::Calm,
        burn_rate_bps: 100,
        max_wallet_bps: 150,
    }
}

/// Creates the accumulator for a new asset at time `now`.
pub fn initialize_epoch(mint: [u8; 32], now: i64) -> (e: EpochState)
    ensures
        e == fresh_epoch_spec(mint, now),
{
    EpochState {
        mint: mint,
        epoch_id: 0,
        start_time: now,
        tx_count: 0,
        total_volume: 0,
        emotional_state: EmotionalState::Calm,
        burn_rate_bps: 100,
        max_wallet_bps: 150,
    }
}

/// The accumulator after one recorded transfer of `amount`: the transfer
/// count and the volume grow saturatingly; every other field is unchanged.
pub open spec fn record_transfer_spec(e: EpochState, amount: u64) -> EpochState {
    EpochState {
        mint: e.mint,
        epoch_id: e.epoch_id,
        start_time: e.start_time,
        tx_count: e.tx_count.saturating_add(1),
        total_volume: e.total_volume.saturating_add(amount),
        emotional_state: e.emotional_state,
        burn_rate_bps: e.burn_rate_bps,
        max_wallet_bps: e.max_wallet_bps,
    }
}

/// Records one observed transfer of `amount` against the asset's current
/// epoch. Never fails; overflow saturates at `u64::MAX` by policy.
pub fn transfer_hook(e: &mut EpochState, amount: u64)
    ensures
        *final(e) == record_transfer_spec(*old(e), amount),
{
    e.tx_count = e.tx_count.saturating_add(1);
    e.total_volume = e.total_volume.saturating_add(amount);
}

/// Law: within an epoch the counters never decrease; recording a transfer
/// touches nothing else.
pub proof fn lemma_counters_monotone(e: EpochState, amount: u64)
    ensures
        record_transfer_spec(e, amount).tx_count >= e.tx_count,
        record_transfer_spec(e, amount).total_volume >= e.total_volume,
        record_transfer_spec(e, amount).epoch_id == e.epoch_id,
        record_transfer_spec(e, amount).start_time == e.start_time,
{
}

/// The accumulator after a whole sequence of recorded transfers.
pub open spec fn apply_transfers_spec(e: EpochState, amounts: Seq<u64>) -> EpochState
    decreases amounts.len(),
{
    if amounts.len() == 0 {
        e
    } else {
        apply_transfers_spec(record_transfer_spec(e, amounts.first()), amounts.drop_first())
    }
}

/// The sum of a sequence of transfer amounts, as an unbounded integer.
pub open spec fn sum_amounts_spec(amounts: Seq<u64>) -> int
    decreases amounts.len(),
{
    if amounts.len() == 0 {
        0
    } else {
        amounts.first() + sum_amounts_spec(amounts.drop_first())
    }
}

proof fn lemma_sum_amounts_nonneg(amounts: Seq<u64>)
    ensures
        sum_amounts_spec(amounts) >= 0,
    decreases amounts.len(),
{
    if amounts.len() > 0 {
        lemma_sum_amounts_nonneg(amounts.drop_first());
    }
}

proof fn lemma_transfer_counters_general(e: EpochState, amounts: Seq<u64>)
    requires
        e.tx_count + amounts.len() <= u64::MAX,
        e.total_volume + sum_amounts_spec(amounts) <= u64::MAX,
    ensures
        apply_transfers_spec(e, amounts).tx_count == e.tx_count + amounts.len(),
        apply_transfers_spec(e, amounts).total_volume == e.total_volume + sum_amounts_spec(
            amounts,
        ),
    decreases amounts.len(),
{
    if amounts.len() > 0 {
        lemma_sum_amounts_nonneg(amounts.drop_first());
        lemma_transfer_counters_general(
            record_transfer_spec(e, amounts.first()),
            amounts.drop_first(),
        );
    }
}

/// Law: over any sequence of recorded transfers on a fresh epoch, as long as
/// neither counter saturates, `tx_count` equals the number of transfers and
/// `total_volume` equals the sum of their amounts.
pub proof fn lemma_transfer_counters(e: EpochState, amounts: Seq<u64>)
    requires
        e.tx_count == 0,
        e.total_volume == 0,
        amounts.len() <= u64::MAX,
        sum_amounts_spec(amounts) <= u64::MAX,
    ensures
        apply_transfers_spec(e, amounts).tx_count == amounts.len(),
        apply_transfers_spec(e, amounts).total_volume == sum_amounts_spec(amounts),
{
    lemma_transfer_counters_general(e, amounts);
}

} // verus!
