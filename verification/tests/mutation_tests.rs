use thyxel_hook::epoch::{initialize_epoch, transfer_hook};
use thyxel_hook::hashing::genome_hash;
use thyxel_hook::mutation::{classify, mutation_event, trigger_mutation};
use thyxel_hook::state::{state_code, EmotionalState, EpochState, ThyxelError, EPOCH_DURATION};

fn mint_id(tag: u8) -> [u8; 32] {
    let mut id = [0u8; 32];
    id[0] = tag;
    id
}

fn epoch_with_count(tx_count: u64) -> EpochState {
    EpochState {
        mint: mint_id(9),
        epoch_id: 4,
        start_time: 1_000,
        tx_count,
        total_volume: 10 * tx_count,
        emotional_state: EmotionalState::Calm,
        burn_rate_bps: 100,
        max_wallet_bps: 150,
    }
}

#[test]
fn mutation_before_seven_days_fails_and_changes_nothing() {
    let mut e = initialize_epoch(mint_id(4), 1_000);
    transfer_hook(&mut e, 50);
    let before = e;
    let r = trigger_mutation(&mut e, 1_000 + EPOCH_DURATION - 1);
    assert_eq!(r, Err(ThyxelError::EpochNotEnded));
    assert_eq!(e, before);
}

#[test]
fn mutation_at_exactly_seven_days_succeeds() {
    let mut e = initialize_epoch(mint_id(5), 1_000);
    let r = trigger_mutation(&mut e, 1_000 + EPOCH_DURATION);
    assert!(r.is_ok());
}

#[test]
fn successful_mutation_advances_epoch_and_fossilizes() {
    let mut e = epoch_with_count(600);
    let now = 1_000 + EPOCH_DURATION + 30;
    let f = trigger_mutation(&mut e, now).unwrap();
    assert_eq!(f.epoch_id, 4);
    assert_eq!(f.mint, mint_id(9));
    assert_eq!(f.start_time, 1_000);
    assert_eq!(f.end_time, now);
    assert_eq!(f.tx_count, 600);
    assert_eq!(f.total_volume, 6_000);
    assert_eq!(f.emotional_state, EmotionalState::Excited);
    assert_eq!(e.epoch_id, 5);
    assert_eq!(e.start_time, now);
    assert_eq!(e.tx_count, 0);
    assert_eq!(e.total_volume, 0);
    assert_eq!(e.emotional_state, EmotionalState::Excited);
}

#[test]
fn classification_boundaries() {
    assert_eq!(classify(0), EmotionalState::Calm);
    assert_eq!(classify(100), EmotionalState::Calm);
    assert_eq!(classify(101), EmotionalState::Active);
    assert_eq!(classify(500), EmotionalState::Active);
    assert_eq!(classify(501), EmotionalState::Excited);
    assert_eq!(classify(1000), EmotionalState::Excited);
    assert_eq!(classify(1001), EmotionalState::Frenzied);
}

#[test]
fn boundary_counts_through_mutation() {
    let now = 1_000 + EPOCH_DURATION;
    let mut calm = epoch_with_count(0);
    assert_eq!(trigger_mutation(&mut calm, now).unwrap().emotional_state, EmotionalState::Calm);
    let mut at_thousand = epoch_with_count(1000);
    assert_eq!(
        trigger_mutation(&mut at_thousand, now).unwrap().emotional_state,
        EmotionalState::Excited
    );
    let mut over_thousand = epoch_with_count(1001);
    assert_eq!(
        trigger_mutation(&mut over_thousand, now).unwrap().emotional_state,
        EmotionalState::Frenzied
    );
}

#[test]
fn parameter_adjustments_per_tier() {
    let now = 1_000 + EPOCH_DURATION;

    // Frenzied: burn +20 capped at 300, wallet -10 floored at 50.
    let mut e = epoch_with_count(2_000);
    e.burn_rate_bps = 290;
    e.max_wallet_bps = 55;
    let f = trigger_mutation(&mut e, now).unwrap();
    assert_eq!(f.burn_rate_bps, 300);
    assert_eq!(f.max_wallet_bps, 50);

    // Excited: burn -10 floored at 10, wallet unchanged.
    let mut e = epoch_with_count(600);
    e.burn_rate_bps = 15;
    let f = trigger_mutation(&mut e, now).unwrap();
    assert_eq!(f.burn_rate_bps, 10);
    assert_eq!(f.max_wallet_bps, 150);

    // Active: burn -20 floored at 10, wallet +10 capped at 200.
    let mut e = epoch_with_count(200);
    e.max_wallet_bps = 195;
    let f = trigger_mutation(&mut e, now).unwrap();
    assert_eq!(f.burn_rate_bps, 80);
    assert_eq!(f.max_wallet_bps, 200);

    // Calm: burn -30 floored at 10, wallet +20 capped at 200.
    let mut e = epoch_with_count(5);
    let f = trigger_mutation(&mut e, now).unwrap();
    assert_eq!(f.burn_rate_bps, 70);
    assert_eq!(f.max_wallet_bps, 170);
}

#[test]
fn genome_hash_is_reproducible_and_input_sensitive() {
    let h1 = genome_hash(4, 600, 6_000, 2, 700_000);
    let h2 = genome_hash(4, 600, 6_000, 2, 700_000);
    assert_eq!(h1, h2);
    let h3 = genome_hash(4, 600, 6_000, 3, 700_000);
    assert_ne!(h1, h3);
    let h4 = genome_hash(4, 601, 6_000, 2, 700_000);
    assert_ne!(h1, h4);
}

#[test]
fn genome_hash_matches_independent_sha256() {
    let epoch_id: u64 = 4;
    let tx_count: u64 = 600;
    let total_volume: u64 = 6_000;
    let state: u8 = 2;
    let now: i64 = 1_000 + EPOCH_DURATION + 30;
    let mut message = Vec::new();
    message.extend_from_slice(&epoch_id.to_le_bytes());
    message.extend_from_slice(&tx_count.to_le_bytes());
    message.extend_from_slice(&total_volume.to_le_bytes());
    message.push(state);
    message.extend_from_slice(&now.to_le_bytes());
    let expected = solana_sha256_hasher::hash(&message).to_bytes();
    assert_eq!(genome_hash(epoch_id, tx_count, total_volume, state, now), expected);

    let mut e = epoch_with_count(600);
    let f = trigger_mutation(&mut e, now).unwrap();
    assert_eq!(f.genome_hash, expected);
}

#[test]
fn mutation_event_copies_fossil_fields() {
    let mut e = epoch_with_count(600);
    let f = trigger_mutation(&mut e, 1_000 + EPOCH_DURATION).unwrap();
    let ev = mutation_event(&f);
    assert_eq!(ev.epoch_id, f.epoch_id);
    assert_eq!(ev.emotional_state, f.emotional_state);
    assert_eq!(ev.burn_rate_bps, f.burn_rate_bps);
    assert_eq!(ev.max_wallet_bps, f.max_wallet_bps);
    assert_eq!(ev.genome_hash, f.genome_hash);
}

#[test]
fn state_codes_match_the_wire_format() {
    assert_eq!(state_code(EmotionalState::Calm), 0);
    assert_eq!(state_code(EmotionalState::Active), 1);
    assert_eq!(state_code(EmotionalState::Excited), 2);
    assert_eq!(state_code(EmotionalState::Frenzied), 3);
}

#[test]
fn error_messages_are_fixed() {
    assert_eq!(ThyxelError::EpochNotEnded.message(), "Epoch has not ended yet. Wait 7 days.");
    assert_eq!(ThyxelError::IsNotCurrentlyTransferring.message(), "Not currently transferring.");
    assert_eq!(ThyxelError::InvalidTrigger.message(), "Unrecognized transfer hook trigger.");
}

#[test]
fn end_to_end_epoch_lifecycle() {
    let mut e = initialize_epoch(mint_id(8), 0);
    for _ in 0..600 {
        transfer_hook(&mut e, 1);
    }
    assert_eq!(e.tx_count, 600);
    assert_eq!(e.total_volume, 600);
    let now = 7 * 24 * 60 * 60 + 1;
    let f = trigger_mutation(&mut e, now).unwrap();
    assert_eq!(f.emotional_state, EmotionalState::Excited);
    assert_eq!(f.burn_rate_bps, 90);
    assert_eq!(f.max_wallet_bps, 150);
    assert_eq!(f.tx_count, 600);
    assert_eq!(f.total_volume, 600);
    assert_eq!(f.epoch_id, 0);
    assert_eq!(f.end_time, now);
    assert_eq!(e.tx_count, 0);
    assert_eq!(e.total_volume, 0);
    assert_eq!(e.epoch_id, 1);
    assert_eq!(e.start_time, now);
}
