//! Tests of the validated accessors, in both the keyed-reference and the
//! indexed-reference variant.

use sysvar_cache::address::clock_id;
use sysvar_cache::address::instructions_id;
use sysvar_cache::address::recent_blockhashes_id;
use sysvar_cache::address::rent_id;
use sysvar_cache::address::slot_hashes_id;
use sysvar_cache::address::stake_history_id;
use sysvar_cache::address::Address;
use sysvar_cache::context::InstructionContext;
use sysvar_cache::context::InvokeContext;
use sysvar_cache::context::KeyedAccount;
use sysvar_cache::context::TransactionContext;
use sysvar_cache::get_sysvar_with_account_check;
use sysvar_cache::get_sysvar_with_account_check2;
use sysvar_cache::sysvar_cache::SysvarCache;
use sysvar_cache::sysvars::Clock;
use sysvar_cache::sysvars::FeeCalculator;
use sysvar_cache::sysvars::Instructions;
use sysvar_cache::sysvars::RecentBlockhashes;
use sysvar_cache::sysvars::Rent;
use sysvar_cache::sysvars::SlotHashes;
use sysvar_cache::sysvars::StakeHistory;
use sysvar_cache::InstructionError;

fn sample_clock() -> Clock {
    Clock {
        slot: 7,
        epoch_start_timestamp: 10,
        epoch: 1,
        leader_schedule_epoch: 2,
        unix_timestamp: 20,
    }
}

fn populated_cache() -> SysvarCache {
    let mut cache = SysvarCache::default();
    cache.set_clock(sample_clock());
    cache.set_instructions(Instructions { data: vec![1, 2] });
    cache.set_rent(Rent {
        lamports_per_byte_year: 1,
        exemption_threshold_bits: 2.0f64.to_bits(),
        burn_percent: 3,
    });
    cache.set_slot_hashes(SlotHashes { entries: vec![] });
    cache.set_recent_blockhashes(RecentBlockhashes { entries: vec![] });
    cache.set_stake_history(StakeHistory { entries: vec![] });
    cache
}

fn context_with(cache: SysvarCache, keys: Vec<Address>) -> InvokeContext {
    InvokeContext::new(TransactionContext::new(keys), cache)
}

#[test]
fn keyed_accessor_returns_the_cached_value_on_matching_address() {
    let ctx = context_with(populated_cache(), vec![]);
    let clock = get_sysvar_with_account_check::clock(&KeyedAccount::new(clock_id()), &ctx);
    assert_eq!(*clock.unwrap(), sample_clock());
    let instructions =
        get_sysvar_with_account_check::instructions(&KeyedAccount::new(instructions_id()), &ctx);
    assert_eq!(instructions.unwrap().data, vec![1, 2]);
    let rent = get_sysvar_with_account_check::rent(&KeyedAccount::new(rent_id()), &ctx);
    assert_eq!(rent.unwrap().burn_percent, 3);
    let slot_hashes =
        get_sysvar_with_account_check::slot_hashes(&KeyedAccount::new(slot_hashes_id()), &ctx);
    assert!(slot_hashes.unwrap().entries.is_empty());
    let recent = get_sysvar_with_account_check::recent_blockhashes(
        &KeyedAccount::new(recent_blockhashes_id()),
        &ctx,
    );
    assert!(recent.unwrap().entries.is_empty());
    let stake_history =
        get_sysvar_with_account_check::stake_history(&KeyedAccount::new(stake_history_id()), &ctx);
    assert!(stake_history.unwrap().entries.is_empty());
}

#[test]
fn keyed_accessor_rejects_a_mismatched_address_even_when_populated() {
    let ctx = context_with(populated_cache(), vec![]);
    let wrong = KeyedAccount::new(rent_id());
    assert_eq!(
        get_sysvar_with_account_check::clock(&wrong, &ctx).unwrap_err(),
        InstructionError::InvalidArgument
    );
    let arbitrary = KeyedAccount::new(Address::new([9u8; 32]));
    assert_eq!(
        get_sysvar_with_account_check::rent(&arbitrary, &ctx).unwrap_err(),
        InstructionError::InvalidArgument
    );
    // The same rejection comes from an empty cache: the address check is
    // independent of cache state.
    let empty_ctx = context_with(SysvarCache::default(), vec![]);
    assert_eq!(
        get_sysvar_with_account_check::clock(&wrong, &empty_ctx).unwrap_err(),
        InstructionError::InvalidArgument
    );
}

#[test]
fn keyed_accessor_reports_an_empty_slot_as_unsupported() {
    let ctx = context_with(SysvarCache::default(), vec![]);
    assert_eq!(
        get_sysvar_with_account_check::clock(&KeyedAccount::new(clock_id()), &ctx).unwrap_err(),
        InstructionError::UnsupportedSysvar
    );
    assert_eq!(
        get_sysvar_with_account_check::stake_history(&KeyedAccount::new(stake_history_id()), &ctx)
            .unwrap_err(),
        InstructionError::UnsupportedSysvar
    );
}

#[test]
fn indexed_accessor_returns_the_cached_value_on_matching_address() {
    let keys = vec![
        clock_id(),
        instructions_id(),
        rent_id(),
        slot_hashes_id(),
        recent_blockhashes_id(),
        stake_history_id(),
    ];
    let ctx = context_with(populated_cache(), keys);
    let frame = InstructionContext::new(vec![0, 1, 2, 3, 4, 5]);
    assert_eq!(*get_sysvar_with_account_check2::clock(&ctx, &frame, 0).unwrap(), sample_clock());
    assert_eq!(
        get_sysvar_with_account_check2::instructions(&ctx, &frame, 1).unwrap().data,
        vec![1, 2]
    );
    assert_eq!(
        get_sysvar_with_account_check2::rent(&ctx, &frame, 2).unwrap().lamports_per_byte_year,
        1
    );
    assert!(get_sysvar_with_account_check2::slot_hashes(&ctx, &frame, 3)
        .unwrap()
        .entries
        .is_empty());
    assert!(get_sysvar_with_account_check2::recent_blockhashes(&ctx, &frame, 4)
        .unwrap()
        .entries
        .is_empty());
    assert!(get_sysvar_with_account_check2::stake_history(&ctx, &frame, 5)
        .unwrap()
        .entries
        .is_empty());
}

#[test]
fn indexed_accessor_rejects_a_mismatched_address() {
    let ctx = context_with(populated_cache(), vec![rent_id()]);
    let frame = InstructionContext::new(vec![0]);
    assert_eq!(
        get_sysvar_with_account_check2::clock(&ctx, &frame, 0).unwrap_err(),
        InstructionError::InvalidArgument
    );
}

#[test]
fn indexed_accessor_propagates_the_resolver_error_on_a_bad_index() {
    let ctx = context_with(populated_cache(), vec![clock_id()]);
    let frame = InstructionContext::new(vec![0]);
    // Index beyond the instruction frame.
    assert_eq!(
        get_sysvar_with_account_check2::clock(&ctx, &frame, 5).unwrap_err(),
        InstructionError::NotEnoughAccountKeys
    );
    // Frame entry pointing beyond the transaction's account list.
    let dangling = InstructionContext::new(vec![3]);
    assert_eq!(
        get_sysvar_with_account_check2::clock(&ctx, &dangling, 0).unwrap_err(),
        InstructionError::NotEnoughAccountKeys
    );
    // An empty cache makes no difference: resolution fails first.
    let empty_ctx = context_with(SysvarCache::default(), vec![]);
    let empty_frame = InstructionContext::new(vec![]);
    assert_eq!(
        get_sysvar_with_account_check2::rent(&empty_ctx, &empty_frame, 0).unwrap_err(),
        InstructionError::NotEnoughAccountKeys
    );
}

#[test]
fn fill_then_validated_access_scenario() {
    // The cache starts empty; the loader supplies valid clock bytes and
    // nothing else.
    let mut cache = SysvarCache::default();
    let loader = |a: Address| -> Option<Vec<u8>> {
        if a.to_bytes() == sysvar_cache::address::CLOCK_ADDRESS {
            Some(
                bincode::serialize(&solana_sdk::sysvar::clock::Clock {
                    slot: 7,
                    epoch_start_timestamp: 10,
                    epoch: 1,
                    leader_schedule_epoch: 2,
                    unix_timestamp: 20,
                })
                .unwrap(),
            )
        } else {
            None
        }
    };
    cache.fill_missing_entries(loader);
    assert_eq!(*cache.get_clock().unwrap(), sample_clock());
    assert_eq!(cache.get_rent().unwrap_err(), InstructionError::UnsupportedSysvar);

    let ctx = context_with(cache, vec![]);
    // The rent accessor with the correct well-known rent address still fails,
    // because nothing was cached for rent.
    assert_eq!(
        get_sysvar_with_account_check::rent(&KeyedAccount::new(rent_id()), &ctx).unwrap_err(),
        InstructionError::UnsupportedSysvar
    );
    // The clock accessor with a non-clock address fails the identity check
    // even though the clock is populated.
    assert_eq!(
        get_sysvar_with_account_check::clock(&KeyedAccount::new(rent_id()), &ctx).unwrap_err(),
        InstructionError::InvalidArgument
    );
    // And with the right address it hands the decoded snapshot out.
    assert_eq!(
        *get_sysvar_with_account_check::clock(&KeyedAccount::new(clock_id()), &ctx).unwrap(),
        sample_clock()
    );
}
