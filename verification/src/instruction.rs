//! The instruction wire format and its decoder.
//!
//! An instruction payload is a single discriminant byte selecting one of the
//! three operations — 0 for Init, 1 for Increment, 2 for Decrement — with no
//! further payload for any of them. Anything else is malformed.

use crate::error::CounterError;
use vstd::prelude::*;

verus! {

/// The closed set of operations on a counter.
#[derive(Clone, Copy, Debug, PartialEq, Eq, Structural)]
pub enum CounterIx {
    /// Provision the storage account if needed and populate the record.
    Init,
    /// Add one to the counter.
    Increment,
    /// Subtract one from the counter.
    Decrement,
}

/// The operation encoded by an instruction payload: defined exactly on the
/// three one-byte discriminants, undefined (`None`) on everything else.
pub open spec fn spec_parse_instruction(s: Seq<u8>) -> Option<CounterIx> {
    if s.len() == 1 {
        if s[0] == 0 {
            Some(CounterIx::Init)
        } else if s[0] == 1 {
            Some(CounterIx::Increment)
        } else if s[0] == 2 {
            Some(CounterIx::Decrement)
        } else {
            None
        }
    } else {
        None
    }
}

/// Decode an instruction payload, or reject it as malformed.
pub fn parse_instruction(data: &Vec<u8>) -> (r: Result<CounterIx, CounterError>)
    ensures
        match r {
            Ok(ix) => spec_parse_instruction(data@) == Some(ix),
            Err(e) => e == CounterError::MalformedInstruction && spec_parse_instruction(data@)
                is None,
        },
{
    if data.len() != 1 {
        return Err(CounterError::MalformedInstruction);
    }
    if data[0] == 0 {
        Ok(CounterIx::Init)
    } else if data[0] == 1 {
        Ok(CounterIx::Increment)
    } else if data[0] == 2 {
        Ok(CounterIx::Decrement)
    } else {
        Err(CounterError::MalformedInstruction)
    }
}

} // verus!
