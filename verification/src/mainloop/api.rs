//! Main loop abstraction layer API.

use vstd::prelude::*;

verus! {

/// This enables generic type enforcement with the opaque C main loop objects.
pub trait MainloopInternalType {
}

} // verus!
