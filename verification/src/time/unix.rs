//! Unix timestamps.

use vstd::prelude::*;
use super::timeval::Timeval;

verus! {

/// A Unix timestamp: the wallclock time, as a [`Timeval`].
///
/// The current value of the system clock is read at the application's edge and handed in.
#[derive(Copy, Clone, Debug, PartialEq, Eq, Structural, Hash)]
pub struct UnixTs(pub Timeval);

} // verus!
