//! Raw transfer-hook triggers: unpacking the instruction bytes handed over
//! by the transfer pipeline and recording the transfer they carry, or
//! rejecting a shape the core cannot interpret.

use vstd::prelude::*;

use spl_transfer_hook_interface::instruction::TransferHookInstruction;
use vstd::bytes::spec_u64_from_le_bytes;

use crate::epoch::{record_transfer_spec, transfer_hook};
use crate::state::{EpochState, ThyxelError};

verus! {

/// The transfer amount carried by transfer-hook instruction bytes, if they
/// are an Execute instruction; a function of the bytes alone.
pub uninterp spec fn trigger_amount_of(data: Seq<u8>) -> Option<u64>;

/// Relies on spl_transfer_hook_interface's TransferHookInstruction::unpack:
/// it reads an 8-byte discriminator and, for an Execute instruction, a
/// little-endian amount from the 8 bytes that follow; any other shape is a
/// different variant or an error, and all are folded to `None` here.
#[verifier::external_body]
fn unpack_execute_amount(data: &Vec<u8>) -> (r: Option<u64>)
    ensures
        r == trigger_amount_of(data@),
        data@.len() < 16 ==> r is None,
        r matches Some(amount) ==> amount == spec_u64_from_le_bytes(data@.subrange(8, 16)),
{
    match TransferHookInstruction::unpack(data.as_slice()) {
        Ok(TransferHookInstruction::Execute { amount }) => Some(amount),
        Ok(TransferHookInstruction::InitializeExtraAccountMetaList { .. }) => None,
        Ok(TransferHookInstruction::UpdateExtraAccountMetaList { .. }) => None,
        Err(_) => None,
    }
}

/// Interprets an unpacked trigger: an Execute amount is accepted; anything
/// else is rejected as an invalid trigger.
pub fn interpret_trigger(parsed: Option<u64>) -> (r: Result<u64, ThyxelError>)
    ensures
        parsed matches Some(amount) ==> r == Ok::<u64, ThyxelError>(amount),
        parsed is None ==> r == Err::<u64, ThyxelError>(ThyxelError::InvalidTrigger),
{
    match parsed {
        Some(amount) => Ok(amount),
        None => Err(ThyxelError::InvalidTrigger),
    }
}

/// Entry point for raw transfer-hook instruction bytes: unpacks them and,
/// for an Execute instruction, records the carried transfer against the
/// asset's epoch; every other shape fails with `InvalidTrigger` and changes
/// nothing.
pub fn fallback(e: &mut EpochState, data: &Vec<u8>) -> (r: Result<(), ThyxelError>)
    ensures
        trigger_amount_of(data@) matches Some(amount) ==> (r == Ok::<(), ThyxelError>(())
            && *final(e) == record_transfer_spec(*old(e), amount)),
        trigger_amount_of(data@) is None ==> (r == Err::<(), ThyxelError>(
            ThyxelError::InvalidTrigger,
        ) && *final(e) == *old(e)),
{
    match interpret_trigger(unpack_execute_amount(data)) {
        Ok(amount) => {
            transfer_hook(e, amount);
            Ok(())
        },
        Err(err) => Err(err),
    }
}

} // verus!
