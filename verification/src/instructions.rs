//! The instruction cost of data handed to a canister.

use vstd::prelude::*;

verus! {

/// Instructions charged for each byte of data handed to a canister.
pub const INSTRUCTIONS_PER_BYTE_CONVERSION_FACTOR: u64 = 50;

/// The instruction cost of `data_size` bytes.
pub fn instructions_per_byte(data_size: u64) -> (cost: u64)
    requires
        data_size * INSTRUCTIONS_PER_BYTE_CONVERSION_FACTOR <= u64::MAX,
    ensures
        cost == data_size * INSTRUCTIONS_PER_BYTE_CONVERSION_FACTOR,
{
    data_size * INSTRUCTIONS_PER_BYTE_CONVERSION_FACTOR
}

} // verus!
