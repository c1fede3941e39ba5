use spl_transfer_hook_interface::instruction::TransferHookInstruction;
use thyxel_hook::epoch::initialize_epoch;
use thyxel_hook::state::ThyxelError;
use thyxel_hook::trigger::{fallback, interpret_trigger};

fn mint_id(tag: u8) -> [u8; 32] {
    let mut id = [0u8; 32];
    id[0] = tag;
    id
}

#[test]
fn execute_instruction_records_the_transfer() {
    let mut e = initialize_epoch(mint_id(1), 0);
    let data = TransferHookInstruction::Execute { amount: 42 }.pack();
    let r = fallback(&mut e, &data);
    assert_eq!(r, Ok(()));
    assert_eq!(e.tx_count, 1);
    assert_eq!(e.total_volume, 42);
}

#[test]
fn short_or_garbage_bytes_are_an_invalid_trigger() {
    let mut e = initialize_epoch(mint_id(2), 0);
    let before = e;
    assert_eq!(fallback(&mut e, &vec![0u8, 1, 2, 3]), Err(ThyxelError::InvalidTrigger));
    assert_eq!(e, before);
    let garbage = vec![7u8; 16];
    assert_eq!(fallback(&mut e, &garbage), Err(ThyxelError::InvalidTrigger));
    assert_eq!(e, before);
}

#[test]
fn other_variants_are_an_invalid_trigger() {
    let mut e = initialize_epoch(mint_id(3), 0);
    let before = e;
    let data = TransferHookInstruction::UpdateExtraAccountMetaList {
        extra_account_metas: Vec::new(),
    }
    .pack();
    assert_eq!(fallback(&mut e, &data), Err(ThyxelError::InvalidTrigger));
    assert_eq!(e, before);
}

#[test]
fn interpretation_of_parsed_triggers() {
    assert_eq!(interpret_trigger(Some(9)), Ok(9));
    assert_eq!(interpret_trigger(None), Err(ThyxelError::InvalidTrigger));
}
