//! Validated accessors over legacy keyed references.
//!
//! Each accessor confirms that the caller-supplied reference carries the
//! system variable's well-known address before handing out the cached value.
//! The address check is a backward-compatibility contract: a program proves
//! it wants system variable X by passing an account whose address equals X's
//! fixed address, even though the value now comes from the cache.

use vstd::prelude::*;

use std::sync::Arc;

use crate::address::clock_id;
use crate::address::instructions_id;
use crate::address::recent_blockhashes_id;
use crate::address::rent_id;
use crate::address::slot_hashes_id;
use crate::address::stake_history_id;
use crate::address::Address;
use crate::address::CLOCK_ADDRESS;
use crate::address::INSTRUCTIONS_ADDRESS;
use crate::address::RECENT_BLOCKHASHES_ADDRESS;
use crate::address::RENT_ADDRESS;
use crate::address::SLOT_HASHES_ADDRESS;
use crate::address::STAKE_HISTORY_ADDRESS;
use crate::context::InvokeContext;
use crate::context::KeyedAccount;
use crate::sysvars::Clock;
use crate::sysvars::Instructions;
use crate::sysvars::RecentBlockhashes;
use crate::sysvars::Rent;
use crate::sysvars::SlotHashes;
use crate::sysvars::StakeHistory;
use crate::InstructionError;

verus! {

/// Rejects a keyed reference whose address is not the expected well-known
/// address.
fn check_sysvar_keyed_account(keyed_account: &KeyedAccount, expected: &Address) -> (r: Result<
    (),
    InstructionError,
>)
    ensures
        keyed_account@ == expected@ ==> r is Ok,
        keyed_account@ != expected@ ==> (r matches Err(e) && e
            == InstructionError::InvalidArgument),
{
    if !keyed_account.unsigned_key().equals(expected) {
        return Err(InstructionError::InvalidArgument);
    }
    Ok(())
}

/// Returns the cached clock snapshot, provided the reference carries the
/// clock's well-known address.
pub fn clock(keyed_account: &KeyedAccount, invoke_context: &InvokeContext) -> (r: Result<
    Arc<Clock>,
    InstructionError,
>)
    ensures
        keyed_account@ != CLOCK_ADDRESS@ ==> (r matches Err(e) && e
            == InstructionError::InvalidArgument),
        keyed_account@ == CLOCK_ADDRESS@ ==> match invoke_context.sysvar_cache_model().clock {
            Some(v) => r matches Ok(h) && *h == v,
            None => r matches Err(e) && e == InstructionError::UnsupportedSysvar,
        },
{
    let expected = clock_id();
    match check_sysvar_keyed_account(keyed_account, &expected) {
        Ok(_) => invoke_context.get_sysvar_cache().get_clock(),
        Err(e) => Err(e),
    }
}

/// Returns the cached instructions snapshot, provided the reference carries
/// the instructions sysvar's well-known address.
pub fn instructions(keyed_account: &KeyedAccount, invoke_context: &InvokeContext) -> (r: Result<
    Arc<Instructions>,
    InstructionError,
>)
    ensures
        keyed_account@ != INSTRUCTIONS_ADDRESS@ ==> (r matches Err(e) && e
            == InstructionError::InvalidArgument),
        keyed_account@ == INSTRUCTIONS_ADDRESS@ ==> match invoke_context.sysvar_cache_model()
            .instructions {
            Some(v) => r matches Ok(h) && *h == v,
            None => r matches Err(e) && e == InstructionError::UnsupportedSysvar,
        },
{
    let expected = instructions_id();
    match check_sysvar_keyed_account(keyed_account, &expected) {
        Ok(_) => invoke_context.get_sysvar_cache().get_instructions(),
        Err(e) => Err(e),
    }
}

/// Returns the cached rent snapshot, provided the reference carries the rent
/// sysvar's well-known address.
pub fn rent(keyed_account: &KeyedAccount, invoke_context: &InvokeContext) -> (r: Result<
    Arc<Rent>,
    InstructionError,
>)
    ensures
        keyed_account@ != RENT_ADDRESS@ ==> (r matches Err(e) && e
            == InstructionError::InvalidArgument),
        keyed_account@ == RENT_ADDRESS@ ==> match invoke_context.sysvar_cache_model().rent {
            Some(v) => r matches Ok(h) && *h == v,
            None => r matches Err(e) && e == InstructionError::UnsupportedSysvar,
        },
{
    let expected = rent_id();
    match check_sysvar_keyed_account(keyed_account, &expected) {
        Ok(_) => invoke_context.get_sysvar_cache().get_rent(),
        Err(e) => Err(e),
    }
}

/// Returns the cached slot-hashes snapshot, provided the reference carries
/// the slot-hashes sysvar's well-known address.
pub fn slot_hashes(keyed_account: &KeyedAccount, invoke_context: &InvokeContext) -> (r: Result<
    Arc<SlotHashes>,
    InstructionError,
>)
    ensures
        keyed_account@ != SLOT_HASHES_ADDRESS@ ==> (r matches Err(e) && e
            == InstructionError::InvalidArgument),
        keyed_account@ == SLOT_HASHES_ADDRESS@ ==> match invoke_context.sysvar_cache_model()
            .slot_hashes {
            Some(v) => r matches Ok(h) && *h == v,
            None => r matches Err(e) && e == InstructionError::UnsupportedSysvar,
        },
{
    let expected = slot_hashes_id();
    match check_sysvar_keyed_account(keyed_account, &expected) {
        Ok(_) => invoke_context.get_sysvar_cache().get_slot_hashes(),
        Err(e) => Err(e),
    }
}

/// Returns the cached legacy recent-blockhashes snapshot, provided the
/// reference carries that sysvar's well-known address.
pub fn recent_blockhashes(keyed_account: &KeyedAccount, invoke_context: &InvokeContext) -> (r:
    Result<Arc<RecentBlockhashes>, InstructionError>)
    ensures
        keyed_account@ != RECENT_BLOCKHASHES_ADDRESS@ ==> (r matches Err(e) && e
            == InstructionError::InvalidArgument),
        keyed_account@ == RECENT_BLOCKHASHES_ADDRESS@ ==> match invoke_context.sysvar_cache_model()
            .recent_blockhashes {
            Some(v) => r matches Ok(h) && *h == v,
            None => r matches Err(e) && e == InstructionError::UnsupportedSysvar,
        },
{
    let expected = recent_blockhashes_id();
    match check_sysvar_keyed_account(keyed_account, &expected) {
        Ok(_) => invoke_context.get_sysvar_cache().get_recent_blockhashes(),
        Err(e) => Err(e),
    }
}

/// Returns the cached stake-history snapshot, provided the reference carries
/// the stake-history sysvar's well-known address.
pub fn stake_history(keyed_account: &KeyedAccount, invoke_context: &InvokeContext) -> (r: Result<
    Arc<StakeHistory>,
    InstructionError,
>)
    ensures
        keyed_account@ != STAKE_HISTORY_ADDRESS@ ==> (r matches Err(e) && e
            == InstructionError::InvalidArgument),
        keyed_account@ == STAKE_HISTORY_ADDRESS@ ==> match invoke_context.sysvar_cache_model()
            .stake_history {
            Some(v) => r matches Ok(h) && *h == v,
            None => r matches Err(e) && e == InstructionError::UnsupportedSysvar,
        },
{
    let expected = stake_history_id();
    match check_sysvar_keyed_account(keyed_account, &expected) {
        Ok(_) => invoke_context.get_sysvar_cache().get_stake_history(),
        Err(e) => Err(e),
    }
}

} // verus!
