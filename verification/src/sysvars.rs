//! The decoded snapshot type of each system-variable kind.
//!
//! The cache never inspects these values: it stores them whole and hands out
//! shared handles. Each type mirrors the fields of the corresponding on-chain
//! record so that callers receive plain values.

use vstd::prelude::*;

verus! {

/// The clock system variable: the network's notion of slot, epoch and time.
#[derive(Clone, Copy, Debug, PartialEq, Eq, Structural)]
pub struct Clock {
    /// The current slot.
    pub slot: u64,
    /// The timestamp of the first slot in the current epoch.
    pub epoch_start_timestamp: i64,
    /// The current epoch.
    pub epoch: u64,
    /// The most recent epoch for which a leader schedule exists.
    pub leader_schedule_epoch: u64,
    /// The approximate real-world time of the current slot.
    pub unix_timestamp: i64,
}

/// The epoch-schedule system variable: how slots are grouped into epochs.
#[derive(Clone, Copy, Debug, PartialEq, Eq, Structural)]
pub struct EpochSchedule {
    /// The maximum number of slots in each epoch.
    pub slots_per_epoch: u64,
    /// How many slots before an epoch its leader schedule is computed.
    pub leader_schedule_slot_offset: u64,
    /// Whether epochs start short and grow.
    pub warmup: bool,
    /// The first epoch after the warmup period.
    pub first_normal_epoch: u64,
    /// The first slot after the warmup period.
    pub first_normal_slot: u64,
}

/// The instructions system variable: the serialized instruction list of the
/// transaction being executed, kept as raw bytes. This core never decodes it
/// further.
#[derive(Clone, Debug, PartialEq, Eq)]
pub struct Instructions {
    /// The serialized instruction data.
    pub data: Vec<u8>,
}

/// The cost of a signature, part of the legacy fees system variable.
#[derive(Clone, Copy, Debug, PartialEq, Eq, Structural)]
pub struct FeeCalculator {
    /// The current cost of a signature, in lamports.
    pub lamports_per_signature: u64,
}

/// The legacy fees system variable, retained only for backward compatibility.
#[derive(Clone, Copy, Debug, PartialEq, Eq, Structural)]
pub struct Fees {
    /// The current fee schedule.
    pub fee_calculator: FeeCalculator,
}

/// The rent system variable: the parameters of rent collection.
#[derive(Clone, Copy, Debug, PartialEq, Eq, Structural)]
pub struct Rent {
    /// Rental rate, in lamports per byte-year.
    pub lamports_per_byte_year: u64,
    /// The bit pattern of the rent-exemption threshold, a binary64 number of
    /// years. It is carried through opaquely and never used in arithmetic
    /// here.
    pub exemption_threshold_bits: u64,
    /// The percentage of collected rent that is burned.
    pub burn_percent: u8,
}

/// One entry of the slot-hashes system variable.
#[derive(Clone, Copy, Debug, PartialEq, Eq)]
pub struct SlotHash {
    /// The slot the hash belongs to.
    pub slot: u64,
    /// The hash of the slot's bank state.
    pub hash: [u8; 32],
}

/// The slot-hashes system variable: the most recent slots and their hashes.
#[derive(Clone, Debug, PartialEq, Eq)]
pub struct SlotHashes {
    /// The recorded entries, most recent slot first.
    pub entries: Vec<SlotHash>,
}

/// One entry of the legacy recent-blockhashes system variable.
#[derive(Clone, Copy, Debug, PartialEq, Eq)]
pub struct BlockhashEntry {
    /// A recent block hash.
    pub blockhash: [u8; 32],
    /// The fee schedule in force for that block.
    pub fee_calculator: FeeCalculator,
}

/// The legacy recent-blockhashes system variable, retained only for backward
/// compatibility.
#[derive(Clone, Debug, PartialEq, Eq)]
pub struct RecentBlockhashes {
    /// The recorded entries, most recent block first.
    pub entries: Vec<BlockhashEntry>,
}

/// The stake activation totals of one epoch, part of the stake-history
/// system variable.
#[derive(Clone, Copy, Debug, PartialEq, Eq, Structural)]
pub struct StakeHistoryEntry {
    /// Effective stake at this epoch.
    pub effective: u64,
    /// Stake not yet fully warmed up.
    pub activating: u64,
    /// Stake requested to cool down, not yet fully deactivated.
    pub deactivating: u64,
}

/// One entry of the stake-history system variable.
#[derive(Clone, Copy, Debug, PartialEq, Eq)]
pub struct StakeHistoryRecord {
    /// The epoch the totals belong to.
    pub epoch: u64,
    /// The stake totals of that epoch.
    pub entry: StakeHistoryEntry,
}

/// The stake-history system variable: per-epoch stake activation totals.
#[derive(Clone, Debug, PartialEq, Eq)]
pub struct StakeHistory {
    /// The recorded entries, most recent epoch first.
    pub entries: Vec<StakeHistoryRecord>,
}

} // verus!
