//! Well-known 32-byte addresses that identify each system variable, and the
//! address type used to validate caller-supplied account references.

use vstd::prelude::*;

verus! {

/// The fixed, globally agreed identifier of the clock system variable.
pub const CLOCK_ADDRESS: [u8; 32] = [
    6, 167, 213, 23, 24, 199, 116, 201, 40, 86, 99, 152, 105, 29, 94, 182, 139, 94, 184, 163, 155,
    75, 109, 92, 115, 85, 91, 33, 0, 0, 0, 0,
];

/// The fixed, globally agreed identifier of the epoch-schedule system variable.
pub const EPOCH_SCHEDULE_ADDRESS: [u8; 32] = [
    6, 167, 213, 23, 24, 220, 63, 238, 2, 211, 228, 127, 1, 0, 248, 176, 84, 247, 148, 46, 96, 89,
    30, 63, 80, 135, 25, 168, 5, 0, 0, 0,
];

/// The fixed, globally agreed identifier of the instructions system variable.
pub const INSTRUCTIONS_ADDRESS: [u8; 32] = [
    6, 167, 213, 23, 24, 123, 209, 102, 53, 218, 212, 4, 85, 253, 194, 192, 193, 36, 198, 143, 33,
    86, 117, 165, 219, 186, 203, 95, 8, 0, 0, 0,
];

/// The fixed, globally agreed identifier of the legacy fees system variable.
pub const FEES_ADDRESS: [u8; 32] = [
    6, 167, 213, 23, 24, 226, 90, 141, 131, 80, 60, 37, 26, 122, 240, 113, 38, 253, 114, 0, 223,
    111, 196, 237, 82, 106, 156, 144, 0, 0, 0, 0,
];

/// The fixed, globally agreed identifier of the rent system variable.
pub const RENT_ADDRESS: [u8; 32] = [
    6, 167, 213, 23, 25, 44, 92, 81, 33, 140, 201, 76, 61, 74, 241, 127, 88, 218, 238, 8, 155,
    161, 253, 68, 227, 219, 217, 138, 0, 0, 0, 0,
];

/// The fixed, globally agreed identifier of the slot-hashes system variable.
pub const SLOT_HASHES_ADDRESS: [u8; 32] = [
    6, 167, 213, 23, 25, 47, 10, 175, 198, 242, 101, 227, 251, 119, 204, 122, 218, 130, 197, 41,
    208, 190, 59, 19, 110, 45, 0, 85, 32, 0, 0, 0,
];

/// The fixed, globally agreed identifier of the legacy recent-blockhashes
/// system variable.
pub const RECENT_BLOCKHASHES_ADDRESS: [u8; 32] = [
    6, 167, 213, 23, 25, 44, 86, 142, 224, 138, 132, 95, 115, 210, 151, 136, 207, 3, 92, 49, 69,
    178, 26, 179, 68, 216, 6, 46, 169, 64, 0, 0,
];

/// The fixed, globally agreed identifier of the stake-history system variable.
pub const STAKE_HISTORY_ADDRESS: [u8; 32] = [
    6, 167, 213, 23, 25, 53, 132, 208, 254, 237, 155, 179, 67, 29, 19, 32, 107, 229, 68, 40, 27,
    87, 184, 86, 108, 197, 55, 95, 244, 0, 0, 0,
];

/// A 32-byte account address. Caller-supplied references carry one of these,
/// and each system variable is identified by a fixed, well-known one.
#[derive(Clone, Copy, Debug)]
pub struct Address {
    bytes: [u8; 32],
}

impl View for Address {
    type V = Seq<u8>;

    closed spec fn view(&self) -> Seq<u8> {
        self.bytes@
    }
}

impl Address {
    /// Builds an address from its raw bytes.
    pub fn new(bytes: [u8; 32]) -> (r: Address)
        ensures
            r@ == bytes@,
    {
        Address { bytes }
    }

    /// Returns the raw bytes of the address.
    pub fn to_bytes(&self) -> (r: [u8; 32])
        ensures
            r@ == self@,
    {
        self.bytes
    }

    /// Compares two addresses byte for byte.
    pub fn equals(&self, other: &Address) -> (r: bool)
        ensures
            r == (self@ == other@),
    {
        let mut i: usize = 0;
        while i < 32
            invariant
                0 <= i <= 32,
                forall|j: int| 0 <= j < i ==> self.bytes@[j] == other.bytes@[j],
            decreases 32 - i,
        {
            if self.bytes[i] != other.bytes[i] {
                assert(self@[i as int] != other@[i as int]);
                return false;
            }
            i += 1;
        }
        assert(self@ =~= other@);
        true
    }
}

/// The well-known address of the clock system variable.
pub fn clock_id() -> (r: Address)
    ensures
        r@ == CLOCK_ADDRESS@,
{
    Address { bytes: CLOCK_ADDRESS }
}

/// The well-known address of the epoch-schedule system variable.
pub fn epoch_schedule_id() -> (r: Address)
    ensures
        r@ == EPOCH_SCHEDULE_ADDRESS@,
{
    Address { bytes: EPOCH_SCHEDULE_ADDRESS }
}

/// The well-known address of the instructions system variable.
pub fn instructions_id() -> (r: Address)
    ensures
        r@ == INSTRUCTIONS_ADDRESS@,
{
    Address { bytes: INSTRUCTIONS_ADDRESS }
}

/// The well-known address of the legacy fees system variable.
pub fn fees_id() -> (r: Address)
    ensures
        r@ == FEES_ADDRESS@,
{
    Address { bytes: FEES_ADDRESS }
}

/// The well-known address of the rent system variable.
pub fn rent_id() -> (r: Address)
    ensures
        r@ == RENT_ADDRESS@,
{
    Address { bytes: RENT_ADDRESS }
}

/// The well-known address of the slot-hashes system variable.
pub fn slot_hashes_id() -> (r: Address)
    ensures
        r@ == SLOT_HASHES_ADDRESS@,
{
    Address { bytes: SLOT_HASHES_ADDRESS }
}

/// The well-known address of the legacy recent-blockhashes system variable.
pub fn recent_blockhashes_id() -> (r: Address)
    ensures
        r@ == RECENT_BLOCKHASHES_ADDRESS@,
{
    Address { bytes: RECENT_BLOCKHASHES_ADDRESS }
}

/// The well-known address of the stake-history system variable.
pub fn stake_history_id() -> (r: Address)
    ensures
        r@ == STAKE_HISTORY_ADDRESS@,
{
    Address { bytes: STAKE_HISTORY_ADDRESS }
}

} // verus!
