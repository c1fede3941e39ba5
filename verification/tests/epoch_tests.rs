use thyxel_hook::epoch::{initialize_epoch, transfer_hook};
use thyxel_hook::state::{EmotionalState, EpochState};

fn mint_id(tag: u8) -> [u8; 32] {
    let mut id = [0u8; 32];
    id[0] = tag;
    id
}

#[test]
fn fresh_epoch_fields() {
    let e = initialize_epoch(mint_id(1), 1_700_000_000);
    assert_eq!(e.mint, mint_id(1));
    assert_eq!(e.epoch_id, 0);
    assert_eq!(e.start_time, 1_700_000_000);
    assert_eq!(e.tx_count, 0);
    assert_eq!(e.total_volume, 0);
    assert_eq!(e.emotional_state, EmotionalState::Calm);
    assert_eq!(e.burn_rate_bps, 100);
    assert_eq!(e.max_wallet_bps, 150);
}

#[test]
fn counters_track_transfer_history() {
    let mut e = initialize_epoch(mint_id(2), 0);
    let amounts: [u64; 5] = [3, 0, 41, 1, 55];
    for &a in amounts.iter() {
        transfer_hook(&mut e, a);
    }
    assert_eq!(e.tx_count, 5);
    assert_eq!(e.total_volume, 100);
    assert_eq!(e.epoch_id, 0);
    assert_eq!(e.start_time, 0);
    assert_eq!(e.emotional_state, EmotionalState::Calm);
    assert_eq!(e.burn_rate_bps, 100);
    assert_eq!(e.max_wallet_bps, 150);
}

#[test]
fn counters_saturate_instead_of_wrapping() {
    let mut e = EpochState {
        mint: mint_id(3),
        epoch_id: 0,
        start_time: 0,
        tx_count: u64::MAX,
        total_volume: u64::MAX - 5,
        emotional_state: EmotionalState::Calm,
        burn_rate_bps: 100,
        max_wallet_bps: 150,
    };
    transfer_hook(&mut e, 10);
    assert_eq!(e.tx_count, u64::MAX);
    assert_eq!(e.total_volume, u64::MAX);
}
