//! Direction flags.

use vstd::prelude::*;
use super::FlagSet;

verus! {

/// Output direction.
pub const OUTPUT: FlagSet = 0x1;

/// Input direction.
pub const INPUT: FlagSet = 0x2;

} // verus!
