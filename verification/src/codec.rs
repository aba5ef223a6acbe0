//! Counter codec.
//!
//! The counter lives in the first eight bytes of its account's data buffer,
//! as an unsigned 64-bit integer in little-endian byte order.  There is no
//! header before it, and the buffer is never resized after creation, so a
//! buffer of any other length holds no counter.

use vstd::bytes::spec_u64_from_le_bytes;
use vstd::bytes::spec_u64_to_le_bytes;
use vstd::bytes::u64_from_le_bytes;
use vstd::bytes::u64_to_le_bytes;
use vstd::prelude::*;

use crate::ProgramError;

verus! {

/// Number of bytes the stored counter occupies.
pub const COUNTER_LEN: usize = 8;

/// The counter value a data buffer holds, if it holds one.
pub open spec fn spec_read_counter(data: Seq<u8>) -> Result<u64, ProgramError> {
    if data.len() != COUNTER_LEN {
        Err(ProgramError::UninitializedAccount)
    } else {
        Ok(spec_u64_from_le_bytes(data))
    }
}

/// The data buffer after `value` is written over its first eight bytes.
pub open spec fn spec_write_counter(data: Seq<u8>, value: u64) -> Result<
    Seq<u8>,
    ProgramError,
> {
    if data.len() < COUNTER_LEN {
        Err(ProgramError::AccountDataTooSmall)
    } else {
        Ok(spec_u64_to_le_bytes(value) + data.skip(COUNTER_LEN as int))
    }
}

/// Decode the counter from an account's data buffer.
pub fn read_counter(data: &Vec<u8>) -> (r: Result<u64, ProgramError>)
    ensures
        r == spec_read_counter(data@),
{
    if data.len() != COUNTER_LEN {
        Err(ProgramError::UninitializedAccount)
    } else {
        Ok(u64_from_le_bytes(data.as_slice()))
    }
}

/// Overwrite the first eight bytes of an account's data buffer with
/// `value`, leaving any further bytes untouched.
pub fn write_counter(data: &mut Vec<u8>, value: u64) -> (r: Result<(), ProgramError>)
    ensures
        spec_write_counter(old(data)@, value) matches Ok(d) ==> r is Ok && final(data)@ == d,
        spec_write_counter(old(data)@, value) matches Err(e) ==> r == Err::<(), ProgramError>(e)
            && final(data)@ == old(data)@,
{
    if data.len() < COUNTER_LEN {
        return Err(ProgramError::AccountDataTooSmall);
    }
    let bytes = u64_to_le_bytes(value);
    let mut i: usize = 0;
    while i < COUNTER_LEN
        invariant
            bytes@ == spec_u64_to_le_bytes(value),
            bytes@.len() == COUNTER_LEN,
            data@.len() == old(data)@.len(),
            old(data)@.len() >= COUNTER_LEN,
            i <= COUNTER_LEN,
            forall|j: int| 0 <= j < i ==> data@[j] == bytes@[j],
            forall|j: int| i <= j < data@.len() ==> data@[j] == old(data)@[j],
        decreases COUNTER_LEN - i,
    {
        data[i] = bytes[i];
        i += 1;
    }
    proof {
        assert(data@ =~= spec_u64_to_le_bytes(value) + old(data)@.skip(COUNTER_LEN as int));
    }
    Ok(())
}

} // verus!
