//! The instruction codec: a defensive, total mapping from a raw byte buffer
//! to one of four typed operations.
//!
//! Wire format (all integers little-endian): byte 0 is an opcode tag, the
//! rest is the tag's payload.
//!
//! | tag  | payload                     | operation            |
//! |------|-----------------------------|----------------------|
//! | 0x00 | 4+ bytes, first 4 are a u32 | increment by amount  |
//! | 0x01 | 4+ bytes, first 4 are a u32 | decrement by amount  |
//! | 0x02 | exactly 4 bytes, a u32      | set counter to value |
//! | 0x03 | ignored                     | reset counter to 0   |
//!
//! Increment, decrement and reset parse permissively: trailing bytes beyond
//! what the tag needs are ignored. Update's payload is a structured record
//! that must be consumed whole, so there any trailing bytes are malformed.
use vstd::prelude::*;

verus! {

use vstd::slice::slice_subrange;
use vstd::slice::slice_index_get;
use crate::le_bytes::spec_u32_from_le;
use crate::le_bytes::u32_from_le;

/// Argument record of the update operation: one little-endian u32 field.
#[derive(Debug, Clone, Copy, PartialEq, Eq, Structural)]
pub struct UpdateArgs {
    pub value: u32,
}

/// A decoded instruction, one of the four operation kinds.
#[derive(Debug, Clone, Copy, PartialEq, Eq, Structural)]
pub enum CounterInstructions {
    Increment(u32),
    Decrement(u32),
    Update(UpdateArgs),
    Reset,
}

/// Why a byte buffer failed to decode. Every failure aborts the whole
/// invocation; none is retryable and none leaves a partial write behind.
#[derive(Debug, Clone, Copy, PartialEq, Eq, Structural)]
pub enum DecodeError {
    /// The instruction buffer was empty: no opcode tag to read.
    MissingTag,
    /// An increment or decrement payload held fewer than 4 bytes.
    TruncatedPayload,
    /// An update payload was not exactly one valid 4-byte record.
    MalformedPayload,
    /// The tag byte is none of the four known opcodes.
    UnknownOpcode(u8),
    /// The stored account bytes are not a valid 4-byte counter record.
    CorruptState,
}

/// What decoding a raw instruction buffer yields, for every possible buffer.
pub open spec fn spec_unpack(s: Seq<u8>) -> Result<CounterInstructions, DecodeError> {
    if s.len() == 0 {
        Err(DecodeError::MissingTag)
    } else if s[0] == 0u8 {
        if s.len() >= 5 {
            Ok(CounterInstructions::Increment(spec_u32_from_le(s.subrange(1, 5))))
        } else {
            Err(DecodeError::TruncatedPayload)
        }
    } else if s[0] == 1u8 {
        if s.len() >= 5 {
            Ok(CounterInstructions::Decrement(spec_u32_from_le(s.subrange(1, 5))))
        } else {
            Err(DecodeError::TruncatedPayload)
        }
    } else if s[0] == 2u8 {
        if s.len() == 5 {
            Ok(CounterInstructions::Update(UpdateArgs { value: spec_u32_from_le(s.subrange(1, 5)) }))
        } else {
            Err(DecodeError::MalformedPayload)
        }
    } else if s[0] == 3u8 {
        Ok(CounterInstructions::Reset)
    } else {
        Err(DecodeError::UnknownOpcode(s[0]))
    }
}

impl CounterInstructions {
    /// Decode a raw instruction buffer. Never panics and never reads out of
    /// bounds: an empty, truncated or unknown-tag buffer fails with the
    /// matching `DecodeError`.
    pub fn unpack(input: &[u8]) -> (r: Result<Self, DecodeError>)
        ensures
            r == spec_unpack(input@),
    {
        if input.len() == 0 {
            return Err(DecodeError::MissingTag);
        }
        let tag = *slice_index_get(input, 0);
        match tag {
            0u8 => {
                if input.len() < 5 {
                    Err(DecodeError::TruncatedPayload)
                } else {
                    let amount = u32_from_le(slice_subrange(input, 1, 5));
                    Ok(CounterInstructions::Increment(amount))
                }
            },
            1u8 => {
                if input.len() < 5 {
                    Err(DecodeError::TruncatedPayload)
                } else {
                    let amount = u32_from_le(slice_subrange(input, 1, 5));
                    Ok(CounterInstructions::Decrement(amount))
                }
            },
            2u8 => {
                if input.len() != 5 {
                    Err(DecodeError::MalformedPayload)
                } else {
                    let value = u32_from_le(slice_subrange(input, 1, 5));
                    Ok(CounterInstructions::Update(UpdateArgs { value }))
                }
            },
            3u8 => Ok(CounterInstructions::Reset),
            _ => Err(DecodeError::UnknownOpcode(tag)),
        }
    }
}

} // verus!
