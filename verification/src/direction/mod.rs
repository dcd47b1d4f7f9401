//! Utility functions for direction.

pub mod flags;

use vstd::prelude::*;

verus! {

/// Direction bitfield.
///
/// While nothing bidirectional is currently exposed, one should test against the bit instead of
/// the value because bidirectional things might be added in the future.
pub type FlagSet = i32;

} // verus!
