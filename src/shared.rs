//! Widths and names of the machine's integer types.
use vstd::prelude::*;

verus! {

/// Width in bits of an integer register.
pub const XLEN: usize = 64;

/// An integer register value.
pub type IntWidth = i64;

/// A 32-bit word.
pub type Word = i32;

/// A 16-bit half word.
pub type HalfWord = i16;

/// A 64-bit double word.
pub type DoubleWord = i64;

/// A 128-bit quad word.
pub type QuadWord = i128;

/// A memory address.
pub type Address = u64;

} // verus!
