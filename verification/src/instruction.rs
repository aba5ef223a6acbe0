//! Binary instruction decoder.
//!
//! The host hands the program an opaque byte sequence.  Byte 0 selects the
//! operation: `0` is initialize, `1` is increment.  Everything else, the
//! empty sequence included, is rejected, and exactly one handler runs per
//! invocation.

use vstd::prelude::*;

use crate::ProgramError;

verus! {

/// The two operations the program supports.
#[derive(Clone, Copy, Debug, PartialEq, Eq, Structural)]
pub enum Operation {
    /// Create the counter's backing account if needed and set it to zero.
    Initialize,
    /// Add one to the stored counter value, wrapping on overflow.
    Increment,
}

/// What decoding an instruction byte sequence yields.
pub open spec fn spec_decode(data: Seq<u8>) -> Result<Operation, ProgramError> {
    if data.len() == 0 {
        Err(ProgramError::InvalidInstructionData)
    } else if data[0] == 0u8 {
        Ok(Operation::Initialize)
    } else if data[0] == 1u8 {
        Ok(Operation::Increment)
    } else {
        Err(ProgramError::InvalidInstructionData)
    }
}

/// Decode the invocation's instruction bytes and pick the operation.
pub fn decode_instruction(data: &Vec<u8>) -> (r: Result<Operation, ProgramError>)
    ensures
        r == spec_decode(data@),
{
    if data.len() == 0 {
        Err(ProgramError::InvalidInstructionData)
    } else if data[0] == 0 {
        Ok(Operation::Initialize)
    } else if data[0] == 1 {
        Ok(Operation::Increment)
    } else {
        Err(ProgramError::InvalidInstructionData)
    }
}

} // verus!
