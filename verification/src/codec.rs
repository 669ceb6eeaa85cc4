//! The per-kind byte decoders.
//!
//! Each system variable's backing record is stored in an externally defined
//! byte encoding. This core treats each decoder as an opaque total function
//! from bytes to an optional value: `decoded_<kind>` names the result, and the
//! matching `decode_<kind>` function computes it by calling the external
//! codec.

use vstd::prelude::*;

use crate::sysvars::BlockhashEntry;
use crate::sysvars::Clock;
use crate::sysvars::EpochSchedule;
use crate::sysvars::FeeCalculator;
use crate::sysvars::Fees;
use crate::sysvars::Instructions;
use crate::sysvars::RecentBlockhashes;
use crate::sysvars::Rent;
use crate::sysvars::SlotHash;
use crate::sysvars::SlotHashes;
use crate::sysvars::StakeHistory;
use crate::sysvars::StakeHistoryEntry;
use crate::sysvars::StakeHistoryRecord;

verus! {

/// What the clock decoder returns on given bytes.
pub uninterp spec fn decoded_clock(data: Seq<u8>) -> Option<Clock>;

/// What the epoch-schedule decoder returns on given bytes.
pub uninterp spec fn decoded_epoch_schedule(data: Seq<u8>) -> Option<EpochSchedule>;

/// What the instructions decoder returns on given bytes.
pub uninterp spec fn decoded_instructions(data: Seq<u8>) -> Option<Instructions>;

/// What the fees decoder returns on given bytes.
pub uninterp spec fn decoded_fees(data: Seq<u8>) -> Option<Fees>;

/// What the rent decoder returns on given bytes.
pub uninterp spec fn decoded_rent(data: Seq<u8>) -> Option<Rent>;

/// What the slot-hashes decoder returns on given bytes.
pub uninterp spec fn decoded_slot_hashes(data: Seq<u8>) -> Option<SlotHashes>;

/// What the recent-blockhashes decoder returns on given bytes.
pub uninterp spec fn decoded_recent_blockhashes(data: Seq<u8>) -> Option<RecentBlockhashes>;

/// What the stake-history decoder returns on given bytes.
pub uninterp spec fn decoded_stake_history(data: Seq<u8>) -> Option<StakeHistory>;

/// Relies on bincode::deserialize for solana_sdk's clock sysvar type: the
/// result depends on the bytes alone.
#[verifier::external_body]
pub(crate) fn decode_clock(data: &[u8]) -> (r: Option<Clock>)
    ensures
        r == decoded_clock(data@),
{
    match bincode::deserialize::<solana_sdk::sysvar::clock::Clock>(data) {
        Ok(c) => Some(Clock {
            slot: c.slot,
            epoch_start_timestamp: c.epoch_start_timestamp,
            epoch: c.epoch,
            leader_schedule_epoch: c.leader_schedule_epoch,
            unix_timestamp: c.unix_timestamp,
        }),
        Err(_) => None,
    }
}

/// Relies on bincode::deserialize for solana_sdk's epoch-schedule sysvar
/// type: the result depends on the bytes alone.
#[verifier::external_body]
pub(crate) fn decode_epoch_schedule(data: &[u8]) -> (r: Option<EpochSchedule>)
    ensures
        r == decoded_epoch_schedule(data@),
{
    match bincode::deserialize::<solana_sdk::sysvar::epoch_schedule::EpochSchedule>(data) {
        Ok(s) => Some(EpochSchedule {
            slots_per_epoch: s.slots_per_epoch,
            leader_schedule_slot_offset: s.leader_schedule_slot_offset,
            warmup: s.warmup,
            first_normal_epoch: s.first_normal_epoch,
            first_normal_slot: s.first_normal_slot,
        }),
        Err(_) => None,
    }
}

/// Relies on bincode::deserialize for a length-prefixed byte vector, the wire
/// form of the instructions sysvar record: the result depends on the bytes
/// alone.
#[verifier::external_body]
pub(crate) fn decode_instructions(data: &[u8]) -> (r: Option<Instructions>)
    ensures
        r == decoded_instructions(data@),
{
    match bincode::deserialize::<Vec<u8>>(data) {
        Ok(v) => Some(Instructions { data: v }),
        Err(_) => None,
    }
}

/// Relies on bincode::deserialize for solana_sdk's legacy fees sysvar type:
/// the result depends on the bytes alone.
#[verifier::external_body]
#[allow(deprecated)]
pub(crate) fn decode_fees(data: &[u8]) -> (r: Option<Fees>)
    ensures
        r == decoded_fees(data@),
{
    match bincode::deserialize::<solana_sdk::sysvar::fees::Fees>(data) {
        Ok(f) => Some(Fees {
            fee_calculator: FeeCalculator {
                lamports_per_signature: f.fee_calculator.lamports_per_signature,
            },
        }),
        Err(_) => None,
    }
}

/// Relies on bincode::deserialize for solana_sdk's rent sysvar type: the
/// result depends on the bytes alone. The threshold is carried over as its
/// binary64 bit pattern.
#[verifier::external_body]
pub(crate) fn decode_rent(data: &[u8]) -> (r: Option<Rent>)
    ensures
        r == decoded_rent(data@),
{
    match bincode::deserialize::<solana_sdk::sysvar::rent::Rent>(data) {
        Ok(rent) => Some(Rent {
            lamports_per_byte_year: rent.lamports_per_byte_year,
            exemption_threshold_bits: rent.exemption_threshold.to_bits(),
            burn_percent: rent.burn_percent,
        }),
        Err(_) => None,
    }
}

/// Relies on bincode::deserialize for solana_sdk's slot-hashes sysvar type:
/// the result depends on the bytes alone.
#[verifier::external_body]
pub(crate) fn decode_slot_hashes(data: &[u8]) -> (r: Option<SlotHashes>)
    ensures
        r == decoded_slot_hashes(data@),
{
    match bincode::deserialize::<solana_sdk::sysvar::slot_hashes::SlotHashes>(data) {
        Ok(sh) => Some(SlotHashes {
            entries: sh
                .iter()
                .map(|e| SlotHash { slot: e.0, hash: e.1.to_bytes() })
                .collect(),
        }),
        Err(_) => None,
    }
}

/// Relies on bincode::deserialize for solana_sdk's legacy recent-blockhashes
/// sysvar type: the result depends on the bytes alone.
#[verifier::external_body]
#[allow(deprecated)]
pub(crate) fn decode_recent_blockhashes(data: &[u8]) -> (r: Option<RecentBlockhashes>)
    ensures
        r == decoded_recent_blockhashes(data@),
{
    let decoded: Option<solana_sdk::sysvar::recent_blockhashes::RecentBlockhashes> =
        bincode::deserialize(data).ok();
    decoded.map(|rb| RecentBlockhashes {
        entries: rb.iter().map(|e| BlockhashEntry {
            blockhash: e.blockhash.to_bytes(),
            fee_calculator: FeeCalculator {
                lamports_per_signature: e.fee_calculator.lamports_per_signature,
            },
        }).collect(),
    })
}

/// Relies on bincode::deserialize for solana_sdk's stake-history sysvar type:
/// the result depends on the bytes alone.
#[verifier::external_body]
#[allow(deprecated)]
pub(crate) fn decode_stake_history(data: &[u8]) -> (r: Option<StakeHistory>)
    ensures
        r == decoded_stake_history(data@),
{
    let decoded: Option<solana_sdk::sysvar::stake_history::StakeHistory> =
        bincode::deserialize(data).ok();
    decoded.map(|sh| StakeHistory {
        entries: sh.iter().map(|e| StakeHistoryRecord {
            epoch: e.0,
            entry: StakeHistoryEntry {
                effective: e.1.effective,
                activating: e.1.activating,
                deactivating: e.1.deactivating,
            },
        }).collect(),
    })
}

} // verus!
