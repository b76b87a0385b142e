//! Parameter addressing: opaque handles for the mutable control surfaces
//! of a module instance, and the raw words that travel through them.

use vstd::prelude::*;

verus! {

/// An opaque, module-scoped handle identifying one mutable control
/// surface on a module instance.
///
/// Addresses are stable for the lifetime of an instance and map to at
/// most one control. An address a module does not recognize is never a
/// fault: reads yield no value and writes are ignored.
#[derive(Clone, Copy, PartialEq, Eq, Structural, Debug)]
pub struct ParamAddress {
    pub id: u32,
}

/// The raw 32-bit word carried by one control value.
///
/// The core stores and routes these words without interpreting them;
/// the host decides what scalar a word stands for.
#[derive(Clone, Copy, PartialEq, Eq, Structural, Debug)]
pub struct ParamValue {
    pub bits: u32,
}

impl ParamAddress {
    /// Make the handle for a given raw identifier.
    pub fn new(id: u32) -> (r: ParamAddress)
        ensures
            r == (ParamAddress { id }),
    {
        ParamAddress { id }
    }
}

impl ParamValue {
    /// Wrap a raw 32-bit word as a control value.
    pub fn from_bits(bits: u32) -> (r: ParamValue)
        ensures
            r == (ParamValue { bits }),
    {
        ParamValue { bits }
    }
}

} // verus!
