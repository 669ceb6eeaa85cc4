//! The snapshot cache itself: one optional, shared, immutable snapshot per
//! system-variable kind, with get/set/reset and lazy population.

use vstd::prelude::*;

use std::sync::Arc;

use crate::address::clock_id;
use crate::address::epoch_schedule_id;
use crate::address::fees_id;
use crate::address::instructions_id;
use crate::address::recent_blockhashes_id;
use crate::address::rent_id;
use crate::address::slot_hashes_id;
use crate::address::stake_history_id;
use crate::address::Address;
use crate::address::CLOCK_ADDRESS;
use crate::address::EPOCH_SCHEDULE_ADDRESS;
use crate::address::FEES_ADDRESS;
use crate::address::INSTRUCTIONS_ADDRESS;
use crate::address::RECENT_BLOCKHASHES_ADDRESS;
use crate::address::RENT_ADDRESS;
use crate::address::SLOT_HASHES_ADDRESS;
use crate::address::STAKE_HISTORY_ADDRESS;
use crate::codec::decode_clock;
use crate::codec::decode_epoch_schedule;
use crate::codec::decode_fees;
use crate::codec::decode_instructions;
use crate::codec::decode_recent_blockhashes;
use crate::codec::decode_rent;
use crate::codec::decode_slot_hashes;
use crate::codec::decode_stake_history;
use crate::codec::decoded_clock;
use crate::codec::decoded_epoch_schedule;
use crate::codec::decoded_fees;
use crate::codec::decoded_instructions;
use crate::codec::decoded_recent_blockhashes;
use crate::codec::decoded_rent;
use crate::codec::decoded_slot_hashes;
use crate::codec::decoded_stake_history;
use crate::sysvars::Clock;
use crate::sysvars::EpochSchedule;
use crate::sysvars::Fees;
use crate::sysvars::Instructions;
use crate::sysvars::RecentBlockhashes;
use crate::sysvars::Rent;
use crate::sysvars::SlotHashes;
use crate::sysvars::StakeHistory;
use crate::InstructionError;
use crate::SysvarKind;

verus! {

/// The mathematical content of a cache: the optional snapshot of each kind.
pub struct CacheModel {
    pub clock: Option<Clock>,
    pub epoch_schedule: Option<EpochSchedule>,
    pub instructions: Option<Instructions>,
    pub fees: Option<Fees>,
    pub rent: Option<Rent>,
    pub slot_hashes: Option<SlotHashes>,
    pub recent_blockhashes: Option<RecentBlockhashes>,
    pub stake_history: Option<StakeHistory>,
}

impl CacheModel {
    /// The model of a cache with every kind absent.
    pub open spec fn empty() -> CacheModel {
        CacheModel {
            clock: None,
            epoch_schedule: None,
            instructions: None,
            fees: None,
            rent: None,
            slot_hashes: None,
            recent_blockhashes: None,
            stake_history: None,
        }
    }

    /// Whether the given kind currently holds a snapshot.
    pub open spec fn populated(self, kind: SysvarKind) -> bool {
        match kind {
            SysvarKind::Clock => self.clock is Some,
            SysvarKind::EpochSchedule => self.epoch_schedule is Some,
            SysvarKind::Instructions => self.instructions is Some,
            SysvarKind::Fees => self.fees is Some,
            SysvarKind::Rent => self.rent is Some,
            SysvarKind::SlotHashes => self.slot_hashes is Some,
            SysvarKind::RecentBlockhashes => self.recent_blockhashes is Some,
            SysvarKind::StakeHistory => self.stake_history is Some,
        }
    }
}

/// In a freshly constructed or freshly reset cache no kind holds a snapshot,
/// so every read of it reports the system variable as unsupported.
pub proof fn lemma_empty_cache_unpopulated(kind: SysvarKind)
    ensures
        !CacheModel::empty().populated(kind),
{
}

/// What a kind's slot holds after one population attempt answered by `resp`:
/// the decoded value when bytes arrived and decode succeeded, absent
/// otherwise.
pub open spec fn loaded<T>(dec: spec_fn(Seq<u8>) -> Option<T>, resp: Option<Vec<u8>>) -> Option<T> {
    match resp {
        Some(bytes) => dec(bytes@),
        None => None,
    }
}

/// Relies on alloc::sync::Arc::clone: the returned handle refers to the same
/// immutable allocation, so it carries the same value.
#[verifier::external_body]
fn clone_handle<T>(handle: &Arc<T>) -> (r: Arc<T>)
    ensures
        r == *handle,
{
    Arc::clone(handle)
}

/// A cache of system-variable snapshots: zero or one shared, immutable,
/// fully decoded snapshot per kind.
///
/// Readers receive a handle to the stored value; replacing a slot installs a
/// new handle and leaves previously handed-out handles untouched.
#[derive(Clone, Debug)]
pub struct SysvarCache {
    clock: Option<Arc<Clock>>,
    epoch_schedule: Option<Arc<EpochSchedule>>,
    instructions: Option<Arc<Instructions>>,
    fees: Option<Arc<Fees>>,
    rent: Option<Arc<Rent>>,
    slot_hashes: Option<Arc<SlotHashes>>,
    recent_blockhashes: Option<Arc<RecentBlockhashes>>,
    stake_history: Option<Arc<StakeHistory>>,
}

impl View for SysvarCache {
    type V = CacheModel;

    closed spec fn view(&self) -> CacheModel {
        CacheModel {
            clock: match self.clock {
                Some(v) => Some(*v),
                None => None,
            },
            epoch_schedule: match self.epoch_schedule {
                Some(v) => Some(*v),
                None => None,
            },
            instructions: match self.instructions {
                Some(v) => Some(*v),
                None => None,
            },
            fees: match self.fees {
                Some(v) => Some(*v),
                None => None,
            },
            rent: match self.rent {
                Some(v) => Some(*v),
                None => None,
            },
            slot_hashes: match self.slot_hashes {
                Some(v) => Some(*v),
                None => None,
            },
            recent_blockhashes: match self.recent_blockhashes {
                Some(v) => Some(*v),
                None => None,
            },
            stake_history: match self.stake_history {
                Some(v) => Some(*v),
                None => None,
            },
        }
    }
}

impl Default for SysvarCache {
    /// A cache with every kind absent.
    fn default() -> (r: SysvarCache)
        ensures
            r@ == CacheModel::empty(),
    {
        SysvarCache {
            clock: None,
            epoch_schedule: None,
            instructions: None,
            fees: None,
            rent: None,
            slot_hashes: None,
            recent_blockhashes: None,
            stake_history: None,
        }
    }
}

impl SysvarCache {
    /// Returns a handle to the cached clock snapshot, or `UnsupportedSysvar`
    /// if none is cached.
    pub fn get_clock(&self) -> (r: Result<Arc<Clock>, InstructionError>)
        ensures
            match self@.clock {
                Some(v) => r matches Ok(h) && *h == v,
                None => r matches Err(e) && e == InstructionError::UnsupportedSysvar,
            },
    {
        match &self.clock {
            Some(handle) => Ok(clone_handle(handle)),
            None => Err(InstructionError::UnsupportedSysvar),
        }
    }

    /// Stores `clock` as the new shared clock snapshot, leaving every other
    /// kind untouched.
    pub fn set_clock(&mut self, clock: Clock)
        ensures
            final(self)@ == (CacheModel { clock: Some(clock), ..old(self)@ }),
    {
        self.clock = Some(Arc::new(clock));
    }

    /// Returns a handle to the cached epoch-schedule snapshot, or
    /// `UnsupportedSysvar` if none is cached.
    pub fn get_epoch_schedule(&self) -> (r: Result<Arc<EpochSchedule>, InstructionError>)
        ensures
            match self@.epoch_schedule {
                Some(v) => r matches Ok(h) && *h == v,
                None => r matches Err(e) && e == InstructionError::UnsupportedSysvar,
            },
    {
        match &self.epoch_schedule {
            Some(handle) => Ok(clone_handle(handle)),
            None => Err(InstructionError::UnsupportedSysvar),
        }
    }

    /// Stores `epoch_schedule` as the new shared snapshot of its kind,
    /// leaving every other kind untouched.
    pub fn set_epoch_schedule(&mut self, epoch_schedule: EpochSchedule)
        ensures
            final(self)@ == (CacheModel {
                epoch_schedule: Some(epoch_schedule),
                ..old(self)@
            }),
    {
        self.epoch_schedule = Some(Arc::new(epoch_schedule));
    }

    /// Returns a handle to the cached instructions snapshot, or
    /// `UnsupportedSysvar` if none is cached.
    pub fn get_instructions(&self) -> (r: Result<Arc<Instructions>, InstructionError>)
        ensures
            match self@.instructions {
                Some(v) => r matches Ok(h) && *h == v,
                None => r matches Err(e) && e == InstructionError::UnsupportedSysvar,
            },
    {
        match &self.instructions {
            Some(handle) => Ok(clone_handle(handle)),
            None => Err(InstructionError::UnsupportedSysvar),
        }
    }

    /// Stores `instructions` as the new shared snapshot of its kind, leaving
    /// every other kind untouched.
    pub fn set_instructions(&mut self, instructions: Instructions)
        ensures
            final(self)@ == (CacheModel {
                instructions: Some(instructions),
                ..old(self)@
            }),
    {
        self.instructions = Some(Arc::new(instructions));
    }

    /// Returns a handle to the cached legacy fees snapshot, or
    /// `UnsupportedSysvar` if none is cached.
    pub fn get_fees(&self) -> (r: Result<Arc<Fees>, InstructionError>)
        ensures
            match self@.fees {
                Some(v) => r matches Ok(h) && *h == v,
                None => r matches Err(e) && e == InstructionError::UnsupportedSysvar,
            },
    {
        match &self.fees {
            Some(handle) => Ok(clone_handle(handle)),
            None => Err(InstructionError::UnsupportedSysvar),
        }
    }

    /// Stores `fees` as the new shared snapshot of its kind, leaving every
    /// other kind untouched.
    pub fn set_fees(&mut self, fees: Fees)
        ensures
            final(self)@ == (CacheModel { fees: Some(fees), ..old(self)@ }),
    {
        self.fees = Some(Arc::new(fees));
    }

    /// Returns a handle to the cached rent snapshot, or `UnsupportedSysvar`
    /// if none is cached.
    pub fn get_rent(&self) -> (r: Result<Arc<Rent>, InstructionError>)
        ensures
            match self@.rent {
                Some(v) => r matches Ok(h) && *h == v,
                None => r matches Err(e) && e == InstructionError::UnsupportedSysvar,
            },
    {
        match &self.rent {
            Some(handle) => Ok(clone_handle(handle)),
            None => Err(InstructionError::UnsupportedSysvar),
        }
    }

    /// Stores `rent` as the new shared snapshot of its kind, leaving every
    /// other kind untouched.
    pub fn set_rent(&mut self, rent: Rent)
        ensures
            final(self)@ == (CacheModel { rent: Some(rent), ..old(self)@ }),
    {
        self.rent = Some(Arc::new(rent));
    }

    /// Returns a handle to the cached slot-hashes snapshot, or
    /// `UnsupportedSysvar` if none is cached.
    pub fn get_slot_hashes(&self) -> (r: Result<Arc<SlotHashes>, InstructionError>)
        ensures
            match self@.slot_hashes {
                Some(v) => r matches Ok(h) && *h == v,
                None => r matches Err(e) && e == InstructionError::UnsupportedSysvar,
            },
    {
        match &self.slot_hashes {
            Some(handle) => Ok(clone_handle(handle)),
            None => Err(InstructionError::UnsupportedSysvar),
        }
    }

    /// Stores `slot_hashes` as the new shared snapshot of its kind, leaving
    /// every other kind untouched.
    pub fn set_slot_hashes(&mut self, slot_hashes: SlotHashes)
        ensures
            final(self)@ == (CacheModel {
                slot_hashes: Some(slot_hashes),
                ..old(self)@
            }),
    {
        self.slot_hashes = Some(Arc::new(slot_hashes));
    }

    /// Returns a handle to the cached legacy recent-blockhashes snapshot, or
    /// `UnsupportedSysvar` if none is cached.
    pub fn get_recent_blockhashes(&self) -> (r: Result<Arc<RecentBlockhashes>, InstructionError>)
        ensures
            match self@.recent_blockhashes {
                Some(v) => r matches Ok(h) && *h == v,
                None => r matches Err(e) && e == InstructionError::UnsupportedSysvar,
            },
    {
        match &self.recent_blockhashes {
            Some(handle) => Ok(clone_handle(handle)),
            None => Err(InstructionError::UnsupportedSysvar),
        }
    }

    /// Stores `recent_blockhashes` as the new shared snapshot of its kind,
    /// leaving every other kind untouched.
    pub fn set_recent_blockhashes(&mut self, recent_blockhashes: RecentBlockhashes)
        ensures
            final(self)@ == (CacheModel {
                recent_blockhashes: Some(recent_blockhashes),
                ..old(self)@
            }),
    {
        self.recent_blockhashes = Some(Arc::new(recent_blockhashes));
    }

    /// Returns a handle to the cached stake-history snapshot, or
    /// `UnsupportedSysvar` if none is cached.
    pub fn get_stake_history(&self) -> (r: Result<Arc<StakeHistory>, InstructionError>)
        ensures
            match self@.stake_history {
                Some(v) => r matches Ok(h) && *h == v,
                None => r matches Err(e) && e == InstructionError::UnsupportedSysvar,
            },
    {
        match &self.stake_history {
            Some(handle) => Ok(clone_handle(handle)),
            None => Err(InstructionError::UnsupportedSysvar),
        }
    }

    /// Stores `stake_history` as the new shared snapshot of its kind, leaving
    /// every other kind untouched.
    pub fn set_stake_history(&mut self, stake_history: StakeHistory)
        ensures
            final(self)@ == (CacheModel {
                stake_history: Some(stake_history),
                ..old(self)@
            }),
    {
        self.stake_history = Some(Arc::new(stake_history));
    }

    /// For each kind in turn, if no snapshot is cached, asks the loader for
    /// the record at the kind's well-known address and decodes the answer.
    ///
    /// A kind that is already populated is never overwritten. A kind whose
    /// record is missing or fails to decode is silently left absent: the call
    /// as a whole never fails, and an absent kind surfaces only later, as
    /// `UnsupportedSysvar` from a read.
    #[verifier::rlimit(100)]
    pub fn fill_missing_entries<F: Fn(Address) -> Option<Vec<u8>>>(&mut self, load_sysvar_account: F)
        requires
            forall|a: Address| #[trigger] call_requires(load_sysvar_account, (a,)),
        ensures
            old(self)@.clock is Some ==> final(self)@.clock == old(self)@.clock,
            old(self)@.clock is None ==> exists|a: Address, resp: Option<Vec<u8>>|
                {
                    &&& a@ == CLOCK_ADDRESS@
                    &&& #[trigger] call_ensures(load_sysvar_account, (a,), resp)
                    &&& final(self)@.clock == loaded(|d: Seq<u8>| decoded_clock(d), resp)
                },
            old(self)@.epoch_schedule is Some ==> final(self)@.epoch_schedule == old(
                self,
            )@.epoch_schedule,
            old(self)@.epoch_schedule is None ==> exists|a: Address, resp: Option<Vec<u8>>|
                {
                    &&& a@ == EPOCH_SCHEDULE_ADDRESS@
                    &&& #[trigger] call_ensures(load_sysvar_account, (a,), resp)
                    &&& final(self)@.epoch_schedule == loaded(
                        |d: Seq<u8>| decoded_epoch_schedule(d),
                        resp,
                    )
                },
            old(self)@.instructions is Some ==> final(self)@.instructions == old(
                self,
            )@.instructions,
            old(self)@.instructions is None ==> exists|a: Address, resp: Option<Vec<u8>>|
                {
                    &&& a@ == INSTRUCTIONS_ADDRESS@
                    &&& #[trigger] call_ensures(load_sysvar_account, (a,), resp)
                    &&& final(self)@.instructions == loaded(
                        |d: Seq<u8>| decoded_instructions(d),
                        resp,
                    )
                },
            old(self)@.fees is Some ==> final(self)@.fees == old(self)@.fees,
            old(self)@.fees is None ==> exists|a: Address, resp: Option<Vec<u8>>|
                {
                    &&& a@ == FEES_ADDRESS@
                    &&& #[trigger] call_ensures(load_sysvar_account, (a,), resp)
                    &&& final(self)@.fees == loaded(|d: Seq<u8>| decoded_fees(d), resp)
                },
            old(self)@.rent is Some ==> final(self)@.rent == old(self)@.rent,
            old(self)@.rent is None ==> exists|a: Address, resp: Option<Vec<u8>>|
                {
                    &&& a@ == RENT_ADDRESS@
                    &&& #[trigger] call_ensures(load_sysvar_account, (a,), resp)
                    &&& final(self)@.rent == loaded(|d: Seq<u8>| decoded_rent(d), resp)
                },
            old(self)@.slot_hashes is Some ==> final(self)@.slot_hashes == old(
                self,
            )@.slot_hashes,
            old(self)@.slot_hashes is None ==> exists|a: Address, resp: Option<Vec<u8>>|
                {
                    &&& a@ == SLOT_HASHES_ADDRESS@
                    &&& #[trigger] call_ensures(load_sysvar_account, (a,), resp)
                    &&& final(self)@.slot_hashes == loaded(|d: Seq<u8>| decoded_slot_hashes(d), resp)
                },
            old(self)@.recent_blockhashes is Some ==> final(self)@.recent_blockhashes == old(
                self,
            )@.recent_blockhashes,
            old(self)@.recent_blockhashes is None ==> exists|a: Address, resp: Option<Vec<u8>>|
                {
                    &&& a@ == RECENT_BLOCKHASHES_ADDRESS@
                    &&& #[trigger] call_ensures(load_sysvar_account, (a,), resp)
                    &&& final(self)@.recent_blockhashes == loaded(
                        |d: Seq<u8>| decoded_recent_blockhashes(d),
                        resp,
                    )
                },
            old(self)@.stake_history is Some ==> final(self)@.stake_history == old(
                self,
            )@.stake_history,
            old(self)@.stake_history is None ==> exists|a: Address, resp: Option<Vec<u8>>|
                {
                    &&& a@ == STAKE_HISTORY_ADDRESS@
                    &&& #[trigger] call_ensures(load_sysvar_account, (a,), resp)
                    &&& final(self)@.stake_history == loaded(
                        |d: Seq<u8>| decoded_stake_history(d),
                        resp,
                    )
                },
    {
        if self.get_clock().is_err() {
            let addr = clock_id();
            let resp = load_sysvar_account(addr);
            match &resp {
                Some(bytes) => {
                    match decode_clock(bytes.as_slice()) {
                        Some(value) => self.set_clock(value),
                        None => {},
                    }
                },
                None => {},
            }
            assert(self@.clock == loaded(|d: Seq<u8>| decoded_clock(d), resp));
        }
        if self.get_epoch_schedule().is_err() {
            let addr = epoch_schedule_id();
            let resp = load_sysvar_account(addr);
            match &resp {
                Some(bytes) => {
                    match decode_epoch_schedule(bytes.as_slice()) {
                        Some(value) => self.set_epoch_schedule(value),
                        None => {},
                    }
                },
                None => {},
            }
            assert(self@.epoch_schedule == loaded(|d: Seq<u8>| decoded_epoch_schedule(d), resp));
        }
        if self.get_instructions().is_err() {
            let addr = instructions_id();
            let resp = load_sysvar_account(addr);
            match &resp {
                Some(bytes) => {
                    match decode_instructions(bytes.as_slice()) {
                        Some(value) => self.set_instructions(value),
                        None => {},
                    }
                },
                None => {},
            }
            assert(self@.instructions == loaded(|d: Seq<u8>| decoded_instructions(d), resp));
        }
        if self.get_fees().is_err() {
            let addr = fees_id();
            let resp = load_sysvar_account(addr);
            match &resp {
                Some(bytes) => {
                    match decode_fees(bytes.as_slice()) {
                        Some(value) => self.set_fees(value),
                        None => {},
                    }
                },
                None => {},
            }
            assert(self@.fees == loaded(|d: Seq<u8>| decoded_fees(d), resp));
        }
        if self.get_rent().is_err() {
            let addr = rent_id();
            let resp = load_sysvar_account(addr);
            match &resp {
                Some(bytes) => {
                    match decode_rent(bytes.as_slice()) {
                        Some(value) => self.set_rent(value),
                        None => {},
                    }
                },
                None => {},
            }
            assert(self@.rent == loaded(|d: Seq<u8>| decoded_rent(d), resp));
        }
        if self.get_slot_hashes().is_err() {
            let addr = slot_hashes_id();
            let resp = load_sysvar_account(addr);
            match &resp {
                Some(bytes) => {
                    match decode_slot_hashes(bytes.as_slice()) {
                        Some(value) => self.set_slot_hashes(value),
                        None => {},
                    }
                },
                None => {},
            }
            assert(self@.slot_hashes == loaded(|d: Seq<u8>| decoded_slot_hashes(d), resp));
        }
        if self.get_recent_blockhashes().is_err() {
            let addr = recent_blockhashes_id();
            let resp = load_sysvar_account(addr);
            match &resp {
                Some(bytes) => {
                    match decode_recent_blockhashes(bytes.as_slice()) {
                        Some(value) => self.set_recent_blockhashes(value),
                        None => {},
                    }
                },
                None => {},
            }
            assert(self@.recent_blockhashes == loaded(
                |d: Seq<u8>| decoded_recent_blockhashes(d),
                resp,
            ));
        }
        if self.get_stake_history().is_err() {
            let addr = stake_history_id();
            let resp = load_sysvar_account(addr);
            match &resp {
                Some(bytes) => {
                    match decode_stake_history(bytes.as_slice()) {
                        Some(value) => self.set_stake_history(value),
                        None => {},
                    }
                },
                None => {},
            }
            assert(self@.stake_history == loaded(|d: Seq<u8>| decoded_stake_history(d), resp));
        }
    }

    /// Clears every kind back to absent, as if the cache had just been
    /// constructed.
    pub fn reset(&mut self)
        ensures
            final(self)@ == CacheModel::empty(),
    {
        self.clock = None;
        self.epoch_schedule = None;
        self.instructions = None;
        self.fees = None;
        self.rent = None;
        self.slot_hashes = None;
        self.recent_blockhashes = None;
        self.stake_history = None;
    }
}

} // verus!
