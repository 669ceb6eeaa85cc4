//! Validated accessors over indexed references.
//!
//! These mirror the keyed-reference accessors, but the caller names the
//! account by an index into an instruction frame; resolving that index can
//! itself fail, and such a failure is propagated unchanged, before any
//! address comparison is attempted.

use vstd::prelude::*;

use std::sync::Arc;

use crate::address::clock_id;
use crate::address::instructions_id;
use crate::address::recent_blockhashes_id;
use crate::address::rent_id;
use crate::address::slot_hashes_id;
use crate::address::stake_history_id;
use crate::address::Address;
use crate::address::CLOCK_ADDRESS;
use crate::address::INSTRUCTIONS_ADDRESS;
use crate::address::RECENT_BLOCKHASHES_ADDRESS;
use crate::address::RENT_ADDRESS;
use crate::address::SLOT_HASHES_ADDRESS;
use crate::address::STAKE_HISTORY_ADDRESS;
use crate::context::resolved_key;
use crate::context::InstructionContext;
use crate::context::InvokeContext;
use crate::context::TransactionContext;
use crate::sysvars::Clock;
use crate::sysvars::Instructions;
use crate::sysvars::RecentBlockhashes;
use crate::sysvars::Rent;
use crate::sysvars::SlotHashes;
use crate::sysvars::StakeHistory;
use crate::InstructionError;

verus! {

/// What a validated indexed access yields before the cache is consulted:
/// `Ok` when the reference resolves to the expected well-known address, the
/// resolver's own error when resolution fails, and `InvalidArgument` when the
/// resolved address differs from the expected one.
pub open spec fn checked_key(
    transaction_context: TransactionContext,
    instruction_context: InstructionContext,
    instruction_account_index: usize,
    expected: Seq<u8>,
) -> Result<(), InstructionError> {
    match resolved_key(transaction_context, instruction_context, instruction_account_index) {
        Err(e) => Err(e),
        Ok(k) => if k != expected {
            Err(InstructionError::InvalidArgument)
        } else {
            Ok(())
        },
    }
}

/// Rejects an indexed reference that does not resolve to the expected
/// well-known address, propagating the resolver's error unchanged when
/// resolution itself fails.
fn check_sysvar_account(
    transaction_context: &TransactionContext,
    instruction_context: &InstructionContext,
    instruction_account_index: usize,
    expected: &Address,
) -> (r: Result<(), InstructionError>)
    ensures
        r == checked_key(
            *transaction_context,
            *instruction_context,
            instruction_account_index,
            expected@,
        ),
{
    let key = match instruction_context.get_instruction_account_key(
        transaction_context,
        instruction_account_index,
    ) {
        Ok(k) => k,
        Err(e) => return Err(e),
    };
    if !key.equals(expected) {
        return Err(InstructionError::InvalidArgument);
    }
    Ok(())
}

/// Returns the cached clock snapshot, provided the indexed reference
/// resolves to the clock's well-known address.
pub fn clock(
    invoke_context: &InvokeContext,
    instruction_context: &InstructionContext,
    index_in_instruction: usize,
) -> (r: Result<Arc<Clock>, InstructionError>)
    ensures
        match checked_key(
            invoke_context.transaction_context,
            *instruction_context,
            index_in_instruction,
            CLOCK_ADDRESS@,
        ) {
            Err(e) => r matches Err(e2) && e2 == e,
            Ok(_) => match invoke_context.sysvar_cache_model().clock {
                Some(v) => r matches Ok(h) && *h == v,
                None => r matches Err(e) && e == InstructionError::UnsupportedSysvar,
            },
        },
{
    let expected = clock_id();
    match check_sysvar_account(
        &invoke_context.transaction_context,
        instruction_context,
        index_in_instruction,
        &expected,
    ) {
        Ok(_) => invoke_context.get_sysvar_cache().get_clock(),
        Err(e) => Err(e),
    }
}

/// Returns the cached instructions snapshot, provided the indexed reference
/// resolves to the instructions sysvar's well-known address.
pub fn instructions(
    invoke_context: &InvokeContext,
    instruction_context: &InstructionContext,
    index_in_instruction: usize,
) -> (r: Result<Arc<Instructions>, InstructionError>)
    ensures
        match checked_key(
            invoke_context.transaction_context,
            *instruction_context,
            index_in_instruction,
            INSTRUCTIONS_ADDRESS@,
        ) {
            Err(e) => r matches Err(e2) && e2 == e,
            Ok(_) => match invoke_context.sysvar_cache_model().instructions {
                Some(v) => r matches Ok(h) && *h == v,
                None => r matches Err(e) && e == InstructionError::UnsupportedSysvar,
            },
        },
{
    let expected = instructions_id();
    match check_sysvar_account(
        &invoke_context.transaction_context,
        instruction_context,
        index_in_instruction,
        &expected,
    ) {
        Ok(_) => invoke_context.get_sysvar_cache().get_instructions(),
        Err(e) => Err(e),
    }
}

/// Returns the cached rent snapshot, provided the indexed reference resolves
/// to the rent sysvar's well-known address.
pub fn rent(
    invoke_context: &InvokeContext,
    instruction_context: &InstructionContext,
    index_in_instruction: usize,
) -> (r: Result<Arc<Rent>, InstructionError>)
    ensures
        match checked_key(
            invoke_context.transaction_context,
            *instruction_context,
            index_in_instruction,
            RENT_ADDRESS@,
        ) {
            Err(e) => r matches Err(e2) && e2 == e,
            Ok(_) => match invoke_context.sysvar_cache_model().rent {
                Some(v) => r matches Ok(h) && *h == v,
                None => r matches Err(e) && e == InstructionError::UnsupportedSysvar,
            },
        },
{
    let expected = rent_id();
    match check_sysvar_account(
        &invoke_context.transaction_context,
        instruction_context,
        index_in_instruction,
        &expected,
    ) {
        Ok(_) => invoke_context.get_sysvar_cache().get_rent(),
        Err(e) => Err(e),
    }
}

/// Returns the cached slot-hashes snapshot, provided the indexed reference
/// resolves to the slot-hashes sysvar's well-known address.
pub fn slot_hashes(
    invoke_context: &InvokeContext,
    instruction_context: &InstructionContext,
    index_in_instruction: usize,
) -> (r: Result<Arc<SlotHashes>, InstructionError>)
    ensures
        match checked_key(
            invoke_context.transaction_context,
            *instruction_context,
            index_in_instruction,
            SLOT_HASHES_ADDRESS@,
        ) {
            Err(e) => r matches Err(e2) && e2 == e,
            Ok(_) => match invoke_context.sysvar_cache_model().slot_hashes {
                Some(v) => r matches Ok(h) && *h == v,
                None => r matches Err(e) && e == InstructionError::UnsupportedSysvar,
            },
        },
{
    let expected = slot_hashes_id();
    match check_sysvar_account(
        &invoke_context.transaction_context,
        instruction_context,
        index_in_instruction,
        &expected,
    ) {
        Ok(_) => invoke_context.get_sysvar_cache().get_slot_hashes(),
        Err(e) => Err(e),
    }
}

/// Returns the cached legacy recent-blockhashes snapshot, provided the
/// indexed reference resolves to that sysvar's well-known address.
pub fn recent_blockhashes(
    invoke_context: &InvokeContext,
    instruction_context: &InstructionContext,
    index_in_instruction: usize,
) -> (r: Result<Arc<RecentBlockhashes>, InstructionError>)
    ensures
        match checked_key(
            invoke_context.transaction_context,
            *instruction_context,
            index_in_instruction,
            RECENT_BLOCKHASHES_ADDRESS@,
        ) {
            Err(e) => r matches Err(e2) && e2 == e,
            Ok(_) => match invoke_context.sysvar_cache_model().recent_blockhashes {
                Some(v) => r matches Ok(h) && *h == v,
                None => r matches Err(e) && e == InstructionError::UnsupportedSysvar,
            },
        },
{
    let expected = recent_blockhashes_id();
    match check_sysvar_account(
        &invoke_context.transaction_context,
        instruction_context,
        index_in_instruction,
        &expected,
    ) {
        Ok(_) => invoke_context.get_sysvar_cache().get_recent_blockhashes(),
        Err(e) => Err(e),
    }
}

/// Returns the cached stake-history snapshot, provided the indexed reference
/// resolves to the stake-history sysvar's well-known address.
pub fn stake_history(
    invoke_context: &InvokeContext,
    instruction_context: &InstructionContext,
    index_in_instruction: usize,
) -> (r: Result<Arc<StakeHistory>, InstructionError>)
    ensures
        match checked_key(
            invoke_context.transaction_context,
            *instruction_context,
            index_in_instruction,
            STAKE_HISTORY_ADDRESS@,
        ) {
            Err(e) => r matches Err(e2) && e2 == e,
            Ok(_) => match invoke_context.sysvar_cache_model().stake_history {
                Some(v) => r matches Ok(h) && *h == v,
                None => r matches Err(e) && e == InstructionError::UnsupportedSysvar,
            },
        },
{
    let expected = stake_history_id();
    match check_sysvar_account(
        &invoke_context.transaction_context,
        instruction_context,
        index_in_instruction,
        &expected,
    ) {
        Ok(_) => invoke_context.get_sysvar_cache().get_stake_history(),
        Err(e) => Err(e),
    }
}

} // verus!
