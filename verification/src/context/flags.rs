//! Some special flags for contexts.

use vstd::prelude::*;
use super::FlagSet;

verus! {

/// Flag to pass when no specific options are needed.
pub const NOFLAGS: FlagSet = 0x0;

/// Disable autospawning of the PulseAudio daemon if required.
pub const NOAUTOSPAWN: FlagSet = 0x1;

/// Don’t fail if the daemon is not available when connecting, instead enter the connecting
/// state and wait for the daemon to appear.
pub const NOFAIL: FlagSet = 0x2;

} // verus!
