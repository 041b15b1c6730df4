//! A verified counter program: a byte-level instruction decoder, a state
//! transition over a persisted 32-bit counter record, and an ownership gate
//! that together process one invocation over a target account.

use vstd::prelude::*;

pub mod instruction;

verus! {

use crate::instruction::HelloInstruction;
use crate::instruction::unpack_spec;
use vstd::bytes::spec_u32_from_le_bytes;
use vstd::bytes::spec_u32_to_le_bytes;
use vstd::bytes::lemma_auto_spec_u32_to_from_le_bytes;
use vstd::bytes::u32_from_le_bytes;
use vstd::bytes::u32_to_le_bytes;

/// The errors an invocation can end with. Every error is terminal: no storage
/// mutation happens past the point of error.
#[derive(Debug, Clone, Copy, PartialEq, Eq, Structural)]
pub enum InvocationError {
    /// The instruction bytes are empty, carry an unknown tag, or carry a
    /// payload of the wrong length.
    InvalidInstructionData,
    /// The invocation named no target account.
    NotEnoughAccountKeys,
    /// The target account's owner is not the invoking program.
    NotAuthorized,
    /// The stored bytes do not conform to the record layout.
    DeserializeError,
}

/// The persisted state of one account: how many times it has been greeted.
#[derive(Debug, Clone, Copy, PartialEq, Eq, Structural)]
pub struct GreetingAccount {
    /// Number of greetings.
    pub counter: u32,
}

/// What one operation makes of a record: increment and decrement wrap at the
/// 32-bit boundary, and a set replaces the value outright.
pub open spec fn apply_spec(rec: GreetingAccount, op: HelloInstruction) -> GreetingAccount {
    match op {
        HelloInstruction::Increment => GreetingAccount {
            counter: if rec.counter == 0xffff_ffffu32 {
                0u32
            } else {
                (rec.counter + 1) as u32
            },
        },
        HelloInstruction::Decrement => GreetingAccount {
            counter: if rec.counter == 0u32 {
                0xffff_ffffu32
            } else {
                (rec.counter - 1) as u32
            },
        },
        HelloInstruction::SetTo(value) => GreetingAccount { counter: value },
    }
}

/// The stored form of a record: its counter as four little-endian bytes.
pub open spec fn record_bytes(rec: GreetingAccount) -> Seq<u8> {
    spec_u32_to_le_bytes(rec.counter)
}

/// Reading a record back from storage: exactly four little-endian bytes, or
/// a deserialization error.
pub open spec fn record_from_bytes(data: Seq<u8>) -> Result<GreetingAccount, InvocationError> {
    if data.len() == 4 {
        Ok(GreetingAccount { counter: spec_u32_from_le_bytes(data) })
    } else {
        Err(InvocationError::DeserializeError)
    }
}

impl GreetingAccount {
    /// Applies one decoded operation to this record and returns the updated
    /// record. Total over all records and operations: increment and decrement
    /// use wraparound arithmetic, set replaces the value unconditionally.
    pub fn apply(&self, op: HelloInstruction) -> (r: GreetingAccount)
        ensures
            r == apply_spec(*self, op),
    {
        match op {
            HelloInstruction::Increment => GreetingAccount { counter: self.counter.wrapping_add(1) },
            HelloInstruction::Decrement => GreetingAccount { counter: self.counter.wrapping_sub(1) },
            HelloInstruction::SetTo(value) => GreetingAccount { counter: value },
        }
    }

    /// Deserializes a record from its stored bytes. Succeeds exactly on
    /// four-byte input, read as a little-endian 32-bit counter; trailing or
    /// missing bytes are rejected.
    pub fn try_from_slice(data: &[u8]) -> (r: Result<GreetingAccount, InvocationError>)
        ensures
            r == record_from_bytes(data@),
    {
        if data.len() != 4 {
            return Err(InvocationError::DeserializeError);
        }
        Ok(GreetingAccount { counter: u32_from_le_bytes(data) })
    }

    /// Serializes this record into the four little-endian bytes that storage
    /// holds. Cannot fail.
    pub fn serialize(&self) -> (r: Vec<u8>)
        ensures
            r@ == record_bytes(*self),
            r@.len() == 4,
    {
        proof {
            lemma_auto_spec_u32_to_from_le_bytes();
        }
        u32_to_le_bytes(self.counter)
    }
}

/// A fixed-width value identifying an account or program, compared byte for
/// byte for the ownership check.
#[derive(Debug, Clone, Copy)]
pub struct Identity {
    pub key: [u8; 32],
}

impl Identity {
    /// Byte-for-byte equality of two identities, the only operation the
    /// ownership check needs.
    pub fn same_key(&self, other: &Identity) -> (r: bool)
        ensures
            r == (self.key@ == other.key@),
    {
        let mut i: usize = 0;
        while i < 32
            invariant
                0 <= i <= 32,
                forall|j: int| 0 <= j < i ==> self.key@[j] == other.key@[j],
            decreases 32 - i,
        {
            if self.key[i] != other.key[i] {
                return false;
            }
            i = i + 1;
        }
        proof {
            assert(self.key@ =~= other.key@);
        }
        true
    }
}

/// One account handle as the host hands it in: the identity that owns the
/// account, and the raw bytes of its storage slot.
pub struct Account {
    pub owner: Identity,
    pub data: Vec<u8>,
}

/// What one invocation makes of its inputs, step by step: decode the
/// instruction, pick the first account as the target, check that the invoking
/// program owns it, deserialize the record, apply the operation, and
/// serialize the updated record. The first failing step's error is the
/// invocation's result, and no later step runs.
pub open spec fn process_spec(
    program_id: Identity,
    accounts: Seq<Account>,
    instruction_data: Seq<u8>,
) -> Result<Seq<u8>, InvocationError> {
    match unpack_spec(instruction_data) {
        Err(e) => Err(e),
        Ok(op) => {
            if accounts.len() == 0 {
                Err(InvocationError::NotEnoughAccountKeys)
            } else if accounts[0].owner.key@ != program_id.key@ {
                Err(InvocationError::NotAuthorized)
            } else {
                match record_from_bytes(accounts[0].data@) {
                    Err(e) => Err(e),
                    Ok(rec) => Ok(record_bytes(apply_spec(rec, op))),
                }
            }
        },
    }
}

/// Processes one invocation: decodes `instruction_data`, verifies that
/// `program_id` owns the first account of `accounts`, applies the decoded
/// operation to that account's stored record, and returns the bytes that the
/// caller must write back to the account's storage. Reads its inputs only: on
/// an error nothing is owed to storage, and the caller leaves it untouched.
pub fn process_instruction(
    program_id: &Identity,
    accounts: &Vec<Account>,
    instruction_data: &[u8],
) -> (r: Result<Vec<u8>, InvocationError>)
    ensures
        r is Ok <==> process_spec(*program_id, accounts@, instruction_data@) is Ok,
        r matches Ok(v) ==> Ok::<Seq<u8>, InvocationError>(v@) == process_spec(
            *program_id,
            accounts@,
            instruction_data@,
        ),
        r matches Err(e) ==> Err::<Seq<u8>, InvocationError>(e) == process_spec(
            *program_id,
            accounts@,
            instruction_data@,
        ),
{
    let op = match HelloInstruction::unpack(instruction_data) {
        Ok(op) => op,
        Err(e) => {
            return Err(e);
        },
    };
    if accounts.len() == 0 {
        return Err(InvocationError::NotEnoughAccountKeys);
    }
    let account: &Account = &accounts[0];
    if !account.owner.same_key(program_id) {
        return Err(InvocationError::NotAuthorized);
    }
    let greeting_account = match GreetingAccount::try_from_slice(account.data.as_slice()) {
        Ok(rec) => rec,
        Err(e) => {
            return Err(e);
        },
    };
    let updated = greeting_account.apply(op);
    Ok(updated.serialize())
}

/// A set operation overwrites the counter with its value, whatever the prior
/// record held.
pub proof fn lemma_set_overwrites(rec: GreetingAccount, value: u32)
    ensures
        apply_spec(rec, HelloInstruction::SetTo(value)).counter == value,
{
}

/// The authorization gate: a well-formed instruction aimed at a target
/// account whose owner differs from the invoking program fails with
/// `NotAuthorized`, so no updated bytes are produced and storage stays as it
/// was.
pub proof fn lemma_authorization_gate(
    program_id: Identity,
    accounts: Seq<Account>,
    instruction_data: Seq<u8>,
)
    requires
        unpack_spec(instruction_data) is Ok,
        accounts.len() >= 1,
        accounts[0].owner.key@ != program_id.key@,
    ensures
        process_spec(program_id, accounts, instruction_data) == Err::<Seq<u8>, InvocationError>(
            InvocationError::NotAuthorized,
        ),
{
}

/// Serialization round trip: the bytes a record serializes to deserialize
/// back to that record, so one invocation's write is the next one's read.
pub proof fn lemma_record_round_trip(rec: GreetingAccount)
    ensures
        record_from_bytes(record_bytes(rec)) == Ok::<GreetingAccount, InvocationError>(rec),
{
    lemma_auto_spec_u32_to_from_le_bytes();
}

} // verus!
