//! Connection contexts for asynchronous communication with a server.

pub mod flags;
pub mod introspect;
pub mod subscribe;

use vstd::prelude::*;

verus! {

/// Context flag set: the bits of the flags in [`flags`].
pub type FlagSet = u32;

/// The state of a connection context.
#[derive(Debug, Copy, Clone, PartialEq, Eq, Structural)]
pub enum State {
    /// The context hasn’t been connected yet.
    Unconnected,
    /// A connection is being established.
    Connecting,
    /// The client is authorizing itself to the daemon.
    Authorizing,
    /// The client is passing its application name to the daemon.
    SettingName,
    /// The connection is established, the context is ready to execute operations.
    Ready,
    /// The connection failed or was disconnected.
    Failed,
    /// The connection was terminated cleanly.
    Terminated,
}

impl State {
    /// Checks if the passed state is one of the connected states (returns `true` if so).
    pub fn is_good(self) -> (r: bool)
        ensures
            r == (self == State::Connecting || self == State::Authorizing || self
                == State::SettingName || self == State::Ready),
    {
        self == State::Connecting || self == State::Authorizing || self == State::SettingName
            || self == State::Ready
    }
}

} // verus!
