//! The instruction decoder: a pure function from raw instruction bytes to one
//! of three typed operations, with strict validation of tag and payload.

use vstd::prelude::*;

verus! {

use crate::InvocationError;
use vstd::bytes::spec_u32_from_le_bytes;
use vstd::bytes::u32_from_le_bytes;

/// One operation on the counter, decoded from the instruction bytes a client
/// sends: add one, subtract one, or set the counter outright.
#[derive(Debug, Clone, Copy, PartialEq, Eq, Structural)]
pub enum HelloInstruction {
    Increment,
    Decrement,
    SetTo(u32),
}

/// What a byte sequence decodes to. The first byte is the tag; the rest is
/// the payload. Tags 0 and 1 ignore any payload; tag 2 demands exactly four
/// payload bytes, read as a little-endian 32-bit value. Empty input, an
/// unknown tag, or a wrong payload length is invalid.
pub open spec fn unpack_spec(input: Seq<u8>) -> Result<HelloInstruction, InvocationError> {
    if input.len() == 0 {
        Err(InvocationError::InvalidInstructionData)
    } else if input[0] == 0 {
        Ok(HelloInstruction::Increment)
    } else if input[0] == 1 {
        Ok(HelloInstruction::Decrement)
    } else if input[0] == 2 {
        if input.len() == 5 {
            Ok(HelloInstruction::SetTo(spec_u32_from_le_bytes(input.subrange(1, 5))))
        } else {
            Err(InvocationError::InvalidInstructionData)
        }
    } else {
        Err(InvocationError::InvalidInstructionData)
    }
}

impl HelloInstruction {
    /// Decodes a client's instruction buffer into an operation, or rejects it
    /// as invalid. Pure and deterministic; accepts input of any length and
    /// assumes no prior validation.
    pub fn unpack(input: &[u8]) -> (r: Result<HelloInstruction, InvocationError>)
        ensures
            r == unpack_spec(input@),
    {
        if input.len() == 0 {
            return Err(InvocationError::InvalidInstructionData);
        }
        let tag: u8 = input[0];
        match tag {
            0 => Ok(HelloInstruction::Increment),
            1 => Ok(HelloInstruction::Decrement),
            2 => {
                if input.len() != 5 {
                    return Err(InvocationError::InvalidInstructionData);
                }
                let payload: &[u8] = &input[1..5];
                Ok(HelloInstruction::SetTo(u32_from_le_bytes(payload)))
            },
            _ => Err(InvocationError::InvalidInstructionData),
        }
    }
}

/// An increment or decrement tag decodes on its own: whatever trailing bytes
/// follow tag 0 or tag 1, decoding succeeds and the payload is ignored.
pub proof fn lemma_unpack_ignores_trailing(input: Seq<u8>)
    requires
        input.len() >= 1,
    ensures
        input[0] == 0 ==> unpack_spec(input) == Ok::<HelloInstruction, InvocationError>(
            HelloInstruction::Increment,
        ),
        input[0] == 1 ==> unpack_spec(input) == Ok::<HelloInstruction, InvocationError>(
            HelloInstruction::Decrement,
        ),
{
}

/// Tag 2 with exactly four payload bytes decodes to the set operation whose
/// value is those bytes read little-endian.
pub proof fn lemma_unpack_set_exact(b0: u8, b1: u8, b2: u8, b3: u8)
    ensures
        unpack_spec(seq![2u8, b0, b1, b2, b3]) == Ok::<HelloInstruction, InvocationError>(
            HelloInstruction::SetTo(spec_u32_from_le_bytes(seq![b0, b1, b2, b3])),
        ),
{
    assert(seq![2u8, b0, b1, b2, b3].subrange(1, 5) =~= seq![b0, b1, b2, b3]);
}

/// Tag 2 with any payload length other than four, the empty payload
/// included, is rejected as invalid.
pub proof fn lemma_unpack_set_wrong_length(input: Seq<u8>)
    requires
        input.len() >= 1,
        input[0] == 2,
        input.len() != 5,
    ensures
        unpack_spec(input) == Err::<HelloInstruction, InvocationError>(
            InvocationError::InvalidInstructionData,
        ),
{
}

/// Empty input, and any input whose tag is none of 0, 1 and 2, are rejected
/// as invalid.
pub proof fn lemma_unpack_invalid_tag(input: Seq<u8>)
    requires
        input.len() == 0 || (input[0] != 0 && input[0] != 1 && input[0] != 2),
    ensures
        unpack_spec(input) == Err::<HelloInstruction, InvocationError>(
            InvocationError::InvalidInstructionData,
        ),
{
}

} // verus!
