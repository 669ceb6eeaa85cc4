//! An in-memory cache of decoded system-variable snapshots, together with
//! accessor functions that validate a caller-supplied account reference
//! against each system variable's well-known address before handing out the
//! cached value.
//!
//! The cache holds at most one shared, immutable snapshot per kind. It is
//! populated lazily from raw account bytes supplied by a loader callback;
//! records that are missing or fail to decode are silently left absent.

use vstd::prelude::*;

pub mod address;
pub mod codec;
pub mod context;
pub mod get_sysvar_with_account_check;
pub mod get_sysvar_with_account_check2;
pub mod sysvar_cache;
pub mod sysvars;

verus! {

/// Errors surfaced by cache reads and by the validated accessors.
#[derive(Clone, Copy, Debug, PartialEq, Eq, Structural)]
pub enum InstructionError {
    /// The requested system variable has no cached value.
    UnsupportedSysvar,
    /// The caller-supplied account reference does not carry the system
    /// variable's well-known address.
    InvalidArgument,
    /// An account index was out of range while resolving a reference.
    NotEnoughAccountKeys,
}

/// The closed set of system-variable kinds the cache can hold.
///
/// `Fees` and `RecentBlockhashes` are legacy kinds, retained only for
/// backward compatibility.
#[derive(Clone, Copy, Debug, PartialEq, Eq, Structural)]
pub enum SysvarKind {
    Clock,
    EpochSchedule,
    Instructions,
    Fees,
    Rent,
    SlotHashes,
    RecentBlockhashes,
    StakeHistory,
}

} // verus!
