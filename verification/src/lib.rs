//! A counter program: a 32-bit counter persisted in a fixed 4-byte
//! little-endian record, mutated by compact binary instructions.
//!
//! The instruction codec lives in [`instructions`]; this module holds the
//! persisted state record, the pure state-transition function, and the
//! orchestration that ties decoding, mutation and re-serialization together.
use vstd::prelude::*;

pub mod instructions;
pub mod le_bytes;

verus! {

use crate::le_bytes::spec_u32_from_le;
use crate::le_bytes::spec_u32_to_le;
use crate::le_bytes::u32_from_le;
use crate::le_bytes::u32_to_le;
use crate::instructions::CounterInstructions;
use crate::instructions::DecodeError;
use crate::instructions::spec_unpack;

/// The persisted account record: a single unsigned 32-bit counter.
/// Its serialized form is exactly 4 little-endian bytes, nothing more.
#[derive(Debug, Clone, Copy, PartialEq, Eq, Structural)]
pub struct CounterAccount {
    pub counter: u32,
}

/// What decoding a stored account record yields: the record is valid
/// exactly when it is 4 bytes long, read as one little-endian u32.
pub open spec fn spec_state_from_bytes(s: Seq<u8>) -> Result<CounterAccount, DecodeError> {
    if s.len() == 4 {
        Ok(CounterAccount { counter: spec_u32_from_le(s) })
    } else {
        Err(DecodeError::CorruptState)
    }
}

/// The serialized form of an account record: 4 little-endian bytes.
pub open spec fn spec_state_to_bytes(state: CounterAccount) -> Seq<u8> {
    spec_u32_to_le(state.counter)
}

impl CounterAccount {
    /// Decode a stored record. Fails with `CorruptState` unless the stored
    /// bytes are exactly the 4-byte fixed-layout record.
    pub fn try_from_slice(data: &[u8]) -> (r: Result<CounterAccount, DecodeError>)
        ensures
            r == spec_state_from_bytes(data@),
    {
        if data.len() == 4 {
            Ok(CounterAccount { counter: u32_from_le(data) })
        } else {
            Err(DecodeError::CorruptState)
        }
    }

    /// Serialize the record into its fixed 4-byte little-endian form.
    pub fn serialize(&self) -> (r: Vec<u8>)
        ensures
            r@ == spec_state_to_bytes(*self),
            r@.len() == 4,
    {
        u32_to_le(self.counter)
    }
}

/// The state transition: what the counter becomes under each operation.
/// Increment and decrement wrap modulo 2^32; update replaces the counter
/// unconditionally; reset sets it to zero. Total: every pair of a current
/// value and an operation has a defined result.
pub open spec fn spec_apply(current: u32, op: CounterInstructions) -> u32 {
    match op {
        CounterInstructions::Increment(amount) => (((current + amount) % 0x1_0000_0000) as u32),
        CounterInstructions::Decrement(amount) => (((current - amount) % 0x1_0000_0000) as u32),
        CounterInstructions::Update(args) => args.value,
        CounterInstructions::Reset => 0u32,
    }
}

/// Compute the next counter value from the current one and a decoded
/// operation. Pure and total: never traps, never errors, wraps on
/// overflow and underflow.
pub fn apply(current: u32, op: &CounterInstructions) -> (r: u32)
    ensures
        r == spec_apply(current, *op),
{
    match op {
        CounterInstructions::Increment(amount) => {
            let r = current.wrapping_add(*amount);
            proof {
                assert(r == ((current + *amount) % 0x1_0000_0000) as u32) by (bit_vector)
                    requires
                        r == (if current + *amount > u32::MAX {
                            (current + *amount - 0x1_0000_0000) as u32
                        } else {
                            (current + *amount) as u32
                        }),
                ;
            }
            r
        },
        CounterInstructions::Decrement(amount) => {
            let r = current.wrapping_sub(*amount);
            proof {
                assert(r == ((current - *amount) % 0x1_0000_0000) as u32) by (bit_vector)
                    requires
                        r == (if current - *amount < 0 {
                            (current - *amount + 0x1_0000_0000) as u32
                        } else {
                            (current - *amount) as u32
                        }),
                ;
            }
            r
        },
        CounterInstructions::Update(args) => args.value,
        CounterInstructions::Reset => 0,
    }
}

/// What one whole invocation yields from the stored account bytes and the
/// raw instruction buffer: the record re-serialized after the transition,
/// or the first decode error met, account bytes checked before the
/// instruction.
pub open spec fn spec_process(account: Seq<u8>, instr: Seq<u8>) -> Result<Seq<u8>, DecodeError> {
    match spec_state_from_bytes(account) {
        Err(e) => Err(e),
        Ok(state) => match spec_unpack(instr) {
            Err(e) => Err(e),
            Ok(op) => Ok(spec_state_to_bytes(CounterAccount { counter: spec_apply(state.counter, op) })),
        },
    }
}

/// One whole invocation over plain byte buffers: decode the stored record,
/// decode the instruction, apply the transition, and re-serialize in place.
/// On any decode error the stored bytes are left untouched; on success the
/// record keeps its fixed 4-byte width.
pub fn process_instruction(account_data: &mut Vec<u8>, instruction_data: &[u8]) -> (r: Result<
    (),
    DecodeError,
>)
    ensures
        match r {
            Ok(_) => spec_process(old(account_data)@, instruction_data@) == Ok::<
                Seq<u8>,
                DecodeError,
            >(final(account_data)@),
            Err(e) => spec_process(old(account_data)@, instruction_data@) == Err::<
                Seq<u8>,
                DecodeError,
            >(e) && final(account_data)@ == old(account_data)@,
        },
{
    let state = match CounterAccount::try_from_slice(account_data.as_slice()) {
        Ok(state) => state,
        Err(e) => {
            return Err(e);
        },
    };
    let op = match CounterInstructions::unpack(instruction_data) {
        Ok(op) => op,
        Err(e) => {
            return Err(e);
        },
    };
    let new_state = CounterAccount { counter: apply(state.counter, &op) };
    *account_data = new_state.serialize();
    Ok(())
}

/// Serializing an account record and decoding the bytes again returns the
/// same record, for every counter value.
pub proof fn lemma_state_roundtrip(state: CounterAccount)
    ensures
        spec_state_from_bytes(spec_state_to_bytes(state)) == Ok::<CounterAccount, DecodeError>(state),
{
    crate::le_bytes::lemma_u32_le_roundtrip(state.counter);
}

} // verus!
