//! The holder genome engine: per-(asset, holder) cumulative counters and the
//! three bounded trait scores recomputed from scratch on every interaction.

use vstd::prelude::*;

use crate::state::{DnaUpdated, WalletDna};

verus! {

/// A cumulative counter clamped to the gene range [0, 100].
pub open spec fn gene_clamp_spec(x: u64) -> u8 {
    if x < 100 {
        x as u8
    } else {
        100
    }
}

/// Loyalty: whole days held since the first interaction, clamped to 100.
/// Meaningful when `first <= now`, which the monotone clock guarantees.
pub open spec fn loyalty_gene_spec(now: i64, first: i64) -> u8
    recommends
        0 <= first <= now,
{
    gene_clamp_spec(((now - first) / 86400) as u64)
}

/// Activity: lifetime transfer count, clamped to 100.
pub open spec fn activity_gene_spec(tx_count: u64) -> u8 {
    gene_clamp_spec(tx_count)
}

/// Appetite: lifetime volume in units of ten billion, clamped to 100.
pub open spec fn appetite_gene_spec(total_volume: u64) -> u8 {
    gene_clamp_spec(total_volume / 10_000_000_000)
}

/// The holder record after one interaction of `amount` at time `now`. A
/// record whose `first_interaction` is still zero is fresh: it takes the
/// holder and asset identity and `now` as its first interaction, exactly
/// once. The counters grow saturatingly and all three genes are recomputed
/// in full from the updated cumulative state.
pub open spec fn updated_dna_spec(
    d: WalletDna,
    wallet: [u8; 32],
    mint: [u8; 32],
    amount: u64,
    now: i64,
) -> WalletDna {
    let fresh = d.first_interaction == 0;
    let first = if fresh {
        now
    } else {
        d.first_interaction
    };
    let tx_count = d.tx_count.saturating_add(1);
    let total_volume = d.total_volume.saturating_add(amount);
    WalletDna {
        wallet: if fresh {
            wallet
        } else {
            d.wallet
        },
        mint: if fresh {
            mint
        } else {
            d.mint
        },
        first_interaction: first,
        last_interaction: now,
        tx_count: tx_count,
        total_volume: total_volume,
        loyalty_gene: loyalty_gene_spec(now, first),
        activity_gene: activity_gene_spec(tx_count),
        appetite_gene: appetite_gene_spec(total_volume),
    }
}

/// Records one interaction of `holder` with the asset and recomputes the
/// gene triple. Never fails; the clamps are total over the `u64` domain.
/// The timestamp bounds restate the monotone non-negative clock: `now` is
/// never earlier than the recorded first interaction.
pub fn update_dna(d: &mut WalletDna, wallet: [u8; 32], mint: [u8; 32], amount: u64, now: i64) -> (ev:
    DnaUpdated)
    requires
        0 <= old(d).first_interaction <= now,
    ensures
        *final(d) == updated_dna_spec(*old(d), wallet, mint, amount, now),
        ev == (DnaUpdated {
            wallet: final(d).wallet,
            loyalty: final(d).loyalty_gene,
            activity: final(d).activity_gene,
            appetite: final(d).appetite_gene,
        }),
{
    if d.first_interaction == 0 {
        d.first_interaction = now;
        d.wallet = wallet;
        d.mint = mint;
    }
    d.last_interaction = now;
    d.tx_count = d.tx_count.saturating_add(1);
    d.total_volume = d.total_volume.saturating_add(amount);
    let held: u64 = (now - d.first_interaction) as u64;
    let hold_days: u64 = held / 86400;
    d.loyalty_gene = if hold_days < 100 {
        hold_days as u8
    } else {
        100
    };
    d.activity_gene = if d.tx_count < 100 {
        d.tx_count as u8
    } else {
        100
    };
    d.appetite_gene = if d.total_volume / 10_000_000_000 < 100 {
        (d.total_volume / 10_000_000_000) as u8
    } else {
        100
    };
    DnaUpdated {
        wallet: d.wallet,
        loyalty: d.loyalty_gene,
        activity: d.activity_gene,
        appetite: d.appetite_gene,
    }
}

/// Law: a first interaction stamps `first_interaction = now` and yields a
/// loyalty of zero, an activity of one, and an appetite of
/// `min(amount / 10_000_000_000, 100)`.
pub proof fn lemma_first_interaction(
    d: WalletDna,
    wallet: [u8; 32],
    mint: [u8; 32],
    amount: u64,
    now: i64,
)
    requires
        d.first_interaction == 0,
        d.tx_count == 0,
        d.total_volume == 0,
        now >= 0,
    ensures
        updated_dna_spec(d, wallet, mint, amount, now).first_interaction == now,
        updated_dna_spec(d, wallet, mint, amount, now).loyalty_gene == 0,
        updated_dna_spec(d, wallet, mint, amount, now).activity_gene == 1,
        updated_dna_spec(d, wallet, mint, amount, now).appetite_gene == gene_clamp_spec(
            amount / 10_000_000_000,
        ),
{
}

} // verus!
