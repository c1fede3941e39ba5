//! The mutation engine: once an epoch's minimum duration has elapsed it
//! reclassifies the asset from the accumulated transfer count, adjusts the
//! policy parameters within their clamped ranges, archives an immutable
//! fossil snapshot carrying a SHA-256 fingerprint, and resets the
//! accumulator for the next epoch.

use vstd::prelude::*;

use crate::hashing::{genome_hash, genome_hash_spec};
use crate::state::{
    state_code, state_code_spec, EmotionalState, EpochState, Fossil, MutationTriggered,
    ThyxelError, EPOCH_DURATION,
};

verus! {

/// The tiered classification of an epoch's activity, evaluated in strict
/// descending order with the first match winning.
pub open spec fn classify_spec(tx_count: u64) -> EmotionalState {
    if tx_count > 1000 {
        EmotionalState::Frenzied
    } else if tx_count > 500 {
        EmotionalState::Excited
    } else if tx_count > 100 {
        EmotionalState::Active
    } else {
        EmotionalState::Calm
    }
}

/// Classifies a transfer count into its activity tier.
pub fn classify(tx_count: u64) -> (s: EmotionalState)
    ensures
        s == classify_spec(tx_count),
{
    if tx_count > 1000 {
        EmotionalState::Frenzied
    } else if tx_count > 500 {
        EmotionalState::Excited
    } else if tx_count > 100 {
        EmotionalState::Active
    } else {
        EmotionalState::Calm
    }
}

/// The burn rate after the adjustment that the new classification dictates:
/// Frenzied adds 20 capped at 300; the calmer tiers subtract 10, 20 or 30,
/// floored at 10.
pub open spec fn adjusted_burn_rate_spec(burn: u16, s: EmotionalState) -> u16 {
    match s {
        EmotionalState::Frenzied => if burn.saturating_add(20) < 300 {
            burn.saturating_add(20)
        } else {
            300
        },
        EmotionalState::Excited => if burn.saturating_sub(10) > 10 {
            burn.saturating_sub(10)
        } else {
            10
        },
        EmotionalState::Active => if burn.saturating_sub(20) > 10 {
            burn.saturating_sub(20)
        } else {
            10
        },
        EmotionalState::Calm => if burn.saturating_sub(30) > 10 {
            burn.saturating_sub(30)
        } else {
            10
        },
    }
}

/// The maximum wallet share after the adjustment that the new classification
/// dictates: Frenzied subtracts 10 floored at 50, Excited leaves it
/// unchanged, Active adds 10 and Calm adds 20, each capped at 200.
pub open spec fn adjusted_max_wallet_spec(wallet: u16, s: EmotionalState) -> u16 {
    match s {
        EmotionalState::Frenzied => if wallet.saturating_sub(10) > 50 {
            wallet.saturating_sub(10)
        } else {
            50
        },
        EmotionalState::Excited => wallet,
        EmotionalState::Active => if wallet.saturating_add(10) < 200 {
            wallet.saturating_add(10)
        } else {
            200
        },
        EmotionalState::Calm => if wallet.saturating_add(20) < 200 {
            wallet.saturating_add(20)
        } else {
            200
        },
    }
}

/// Whether the epoch's minimum duration has elapsed at time `now`.
pub open spec fn epoch_ended_spec(e: EpochState, now: i64) -> bool {
    now >= e.start_time + EPOCH_DURATION
}

/// The accumulator after a successful mutation at time `now`: the epoch id
/// advances (saturating), the counters reset, the new epoch starts at `now`,
/// and the new classification and adjusted parameters carry forward.
pub open spec fn mutated_epoch_spec(e: EpochState, now: i64) -> EpochState {
    let s = classify_spec(e.tx_count);
    EpochState {
        mint: e.mint,
        epoch_id: e.epoch_id.saturating_add(1),
        start_time: now,
        tx_count: 0,
        total_volume: 0,
        emotional_state: s,
        burn_rate_bps: adjusted_burn_rate_spec(e.burn_rate_bps, s),
        max_wallet_bps: adjusted_max_wallet_spec(e.max_wallet_bps, s),
    }
}

/// Whether `f` is exactly the fossil of the epoch `e` completed at `now`:
/// the pre-mutation counters, the newly computed classification and
/// parameters, `end_time = now`, and the fingerprint over the five defining
/// inputs.
pub open spec fn fossil_spec_matches(e: EpochState, now: i64, f: Fossil) -> bool {
    let s = classify_spec(e.tx_count);
    &&& f.epoch_id == e.epoch_id
    &&& f.mint == e.mint
    &&& f.start_time == e.start_time
    &&& f.end_time == now
    &&& f.tx_count == e.tx_count
    &&& f.total_volume == e.total_volume
    &&& f.emotional_state == s
    &&& f.burn_rate_bps == adjusted_burn_rate_spec(e.burn_rate_bps, s)
    &&& f.max_wallet_bps == adjusted_max_wallet_spec(e.max_wallet_bps, s)
    &&& f.genome_hash@ == genome_hash_spec(
        e.epoch_id,
        e.tx_count,
        e.total_volume,
        state_code_spec(s),
        now,
    )
}

/// Mutates the asset's epoch at time `now`. Before the minimum duration has
/// elapsed it fails with `EpochNotEnded` and changes nothing; afterwards it
/// returns the fossil of the completed epoch and resets the accumulator.
pub fn trigger_mutation(e: &mut EpochState, now: i64) -> (r: Result<Fossil, ThyxelError>)
    ensures
        epoch_ended_spec(*old(e), now) ==> (r matches Ok(f) && fossil_spec_matches(*old(e), now, f)
            && *final(e) == mutated_epoch_spec(*old(e), now)),
        !epoch_ended_spec(*old(e), now) ==> (r matches Err(err) && err
            == ThyxelError::EpochNotEnded && *final(e) == *old(e)),
{
    if (now as i128) < (e.start_time as i128) + (EPOCH_DURATION as i128) {
        return Err(ThyxelError::EpochNotEnded);
    }
    let new_state = classify(e.tx_count);
    match new_state {
        EmotionalState::Frenzied => {
            let burn = e.burn_rate_bps.saturating_add(20);
            e.burn_rate_bps = if burn < 300 {
                burn
            } else {
                300
            };
            let wallet = e.max_wallet_bps.saturating_sub(10);
            e.max_wallet_bps = if wallet > 50 {
                wallet
            } else {
                50
            };
        },
        EmotionalState::Excited => {
            let burn = e.burn_rate_bps.saturating_sub(10);
            e.burn_rate_bps = if burn > 10 {
                burn
            } else {
                10
            };
        },
        EmotionalState::Active => {
            let burn = e.burn_rate_bps.saturating_sub(20);
            e.burn_rate_bps = if burn > 10 {
                burn
            } else {
                10
            };
            let wallet = e.max_wallet_bps.saturating_add(10);
            e.max_wallet_bps = if wallet < 200 {
                wallet
            } else {
                200
            };
        },
        EmotionalState::Calm => {
            let burn = e.burn_rate_bps.saturating_sub(30);
            e.burn_rate_bps = if burn > 10 {
                burn
            } else {
                10
            };
            let wallet = e.max_wallet_bps.saturating_add(20);
            e.max_wallet_bps = if wallet < 200 {
                wallet
            } else {
                200
            };
        },
    }
    let code = state_code(new_state);
    let hash = genome_hash(e.epoch_id, e.tx_count, e.total_volume, code, now);
    let f = Fossil {
        epoch_id: e.epoch_id,
        mint: e.mint,
        start_time: e.start_time,
        end_time: now,
        tx_count: e.tx_count,
        total_volume: e.total_volume,
        emotional_state: new_state,
        burn_rate_bps: e.burn_rate_bps,
        max_wallet_bps: e.max_wallet_bps,
        genome_hash: hash,
    };
    e.epoch_id = e.epoch_id.saturating_add(1);
    e.start_time = now;
    e.tx_count = 0;
    e.total_volume = 0;
    e.emotional_state = new_state;
    Ok(f)
}

/// Builds the notification emitted after a successful mutation: the
/// completed epoch's id, the new classification and parameters, and the
/// fossil's fingerprint.
pub fn mutation_event(f: &Fossil) -> (ev: MutationTriggered)
    ensures
        ev == (MutationTriggered {
            epoch_id: f.epoch_id,
            emotional_state: f.emotional_state,
            burn_rate_bps: f.burn_rate_bps,
            max_wallet_bps: f.max_wallet_bps,
            genome_hash: f.genome_hash,
        }),
{
    MutationTriggered {
        epoch_id: f.epoch_id,
        emotional_state: f.emotional_state,
        burn_rate_bps: f.burn_rate_bps,
        max_wallet_bps: f.max_wallet_bps,
        genome_hash: f.genome_hash,
    }
}

/// Law: a successful mutation advances the epoch id by exactly one (below
/// the saturation point), resets both counters to zero, and fossilizes the
/// completed epoch under its prior id with `end_time = now`.
pub proof fn lemma_mutation_advances_epoch(e: EpochState, now: i64, f: Fossil)
    requires
        epoch_ended_spec(e, now),
        e.epoch_id < u64::MAX,
        fossil_spec_matches(e, now, f),
    ensures
        mutated_epoch_spec(e, now).epoch_id == e.epoch_id + 1,
        mutated_epoch_spec(e, now).tx_count == 0,
        mutated_epoch_spec(e, now).total_volume == 0,
        mutated_epoch_spec(e, now).start_time == now,
        f.epoch_id == e.epoch_id,
        f.end_time == now,
{
}

/// The policy-parameter ranges: the burn rate stays within [10, 300] basis
/// points and the maximum wallet share within [50, 200].
pub open spec fn param_bounds_spec(e: EpochState) -> bool {
    &&& 10 <= e.burn_rate_bps <= 300
    &&& 50 <= e.max_wallet_bps <= 200
}

/// Law: a fresh accumulator satisfies the policy-parameter bounds, and both
/// recording a transfer and a successful mutation preserve them, so every
/// reachable accumulator satisfies them.
pub proof fn lemma_param_bounds_invariant(e: EpochState, mint: [u8; 32], amount: u64, now: i64)
    ensures
        param_bounds_spec(crate::epoch::fresh_epoch_spec(mint, now)),
        param_bounds_spec(e) ==> param_bounds_spec(crate::epoch::record_transfer_spec(e, amount)),
        param_bounds_spec(e) ==> param_bounds_spec(mutated_epoch_spec(e, now)),
{
}

/// Law: the fossil fingerprint is a pure function of its five documented
/// inputs. Two mutations at the same time over epochs that agree on the
/// completed epoch id and both counters produce identical fingerprints,
/// whatever their other fields hold.
pub proof fn lemma_genome_hash_pure(e1: EpochState, e2: EpochState, now: i64, f1: Fossil, f2: Fossil)
    requires
        e1.epoch_id == e2.epoch_id,
        e1.tx_count == e2.tx_count,
        e1.total_volume == e2.total_volume,
        fossil_spec_matches(e1, now, f1),
        fossil_spec_matches(e2, now, f2),
    ensures
        f1.genome_hash@ == f2.genome_hash@,
{
}

} // verus!
