//! Tests that the library's well-known address constants agree with the
//! cluster-wide identifiers, and that address comparison behaves as equality
//! on the bytes.

use sysvar_cache::address::clock_id;
use sysvar_cache::address::epoch_schedule_id;
use sysvar_cache::address::fees_id;
use sysvar_cache::address::instructions_id;
use sysvar_cache::address::recent_blockhashes_id;
use sysvar_cache::address::rent_id;
use sysvar_cache::address::slot_hashes_id;
use sysvar_cache::address::stake_history_id;
use sysvar_cache::address::Address;

#[test]
fn well_known_addresses_match_the_cluster_identifiers() {
    assert_eq!(clock_id().to_bytes(), solana_sdk::sysvar::clock::id().to_bytes());
    assert_eq!(
        epoch_schedule_id().to_bytes(),
        solana_sdk::sysvar::epoch_schedule::id().to_bytes()
    );
    assert_eq!(instructions_id().to_bytes(), solana_sdk::sysvar::instructions::id().to_bytes());
    assert_eq!(fees_id().to_bytes(), solana_sdk::sysvar::fees::id().to_bytes());
    assert_eq!(rent_id().to_bytes(), solana_sdk::sysvar::rent::id().to_bytes());
    assert_eq!(slot_hashes_id().to_bytes(), solana_sdk::sysvar::slot_hashes::id().to_bytes());
    assert_eq!(
        recent_blockhashes_id().to_bytes(),
        solana_sdk::sysvar::recent_blockhashes::id().to_bytes()
    );
    assert_eq!(stake_history_id().to_bytes(), solana_sdk::sysvar::stake_history::id().to_bytes());
}

#[test]
fn address_equality_is_byte_equality() {
    let a = Address::new([5u8; 32]);
    let b = Address::new([5u8; 32]);
    assert!(a.equals(&b));
    let mut bytes = [5u8; 32];
    bytes[31] = 6;
    let c = Address::new(bytes);
    assert!(!a.equals(&c));
    assert!(!c.equals(&a));
}
