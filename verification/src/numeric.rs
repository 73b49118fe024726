//! Real numbers, as this crate carries them.
//!
//! The crate computes on integers only. A real number passes through it as the
//! bit pattern of its IEEE-754 encoding, unread and unchanged; whoever hands
//! numbers in and takes them out converts, bit for bit.

use vstd::prelude::*;

verus! {

/// A double-precision number, held as its binary64 bit pattern.
pub type Double = u64;

/// A single-precision number, held as its binary32 bit pattern.
pub type Single = u32;

/// The intensity `0.0`: in either precision, positive zero is the pattern of
/// all zero bits.
pub const BLACK: Single = 0;

} // verus!
