//! GenICam parameter values and the Boolean convention of the native ABI.

use vstd::prelude::*;
use crate::sys::HikIntValue;

verus! {

/// Integer GenICam node value and constraints.
#[derive(Debug, Clone, Copy, PartialEq, Eq)]
pub struct IntValue {
    /// Current node value.
    pub current: i64,
    /// Smallest permitted value.
    pub minimum: i64,
    /// Largest permitted value.
    pub maximum: i64,
    /// Required step between valid values; zero if the device does not report one.
    pub increment: i64,
}

impl IntValue {
    /// Copies a native integer node record.
    pub fn from_raw(raw: &HikIntValue) -> (v: IntValue)
        ensures
            v.current == raw.current,
            v.minimum == raw.minimum,
            v.maximum == raw.maximum,
            v.increment == raw.increment,
    {
        IntValue {
            current: raw.current,
            minimum: raw.minimum,
            maximum: raw.maximum,
            increment: raw.increment,
        }
    }
}

/// The ABI byte of a Boolean: `1` for true, `0` for false.
pub open spec fn spec_bool_to_abi(value: bool) -> u8 {
    if value {
        1
    } else {
        0
    }
}

/// Encodes a Boolean for the native layer as `1` or `0`.
pub fn bool_to_abi(value: bool) -> (b: u8)
    ensures
        b == spec_bool_to_abi(value),
{
    if value {
        1
    } else {
        0
    }
}

/// Decodes a Boolean reported by the native layer: any non-zero byte is true.
pub fn bool_from_abi(b: u8) -> (value: bool)
    ensures
        value == (b != 0),
{
    b != 0
}

/// A Boolean written through the ABI reads back unchanged.
pub proof fn lemma_bool_abi_round_trip(value: bool)
    ensures
        (spec_bool_to_abi(value) != 0) == value,
{
}

} // verus!
