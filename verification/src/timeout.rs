//! When a notification closes by itself.

use vstd::prelude::*;

verus! {

/// The shortest delay, in milliseconds, after which the server closes a
/// notification by itself.
pub const MINIMUM_TIMEOUT_MS: u64 = 10;

/// What the server does about closing a notification by itself.
#[derive(Clone, Copy, Debug, PartialEq, Eq, Structural)]
pub enum AutoClose {
    /// The notification stays until somebody closes it.
    Never,
    /// The client left the choice to the server.
    ServerDefault,
    /// The client asked for less than the minimum and gets the minimum.
    RaisedToMinimum,
    /// The client's own delay, in milliseconds.
    Requested(u64),
}

impl AutoClose {
    /// The delay in milliseconds before the close signal, if there is one.
    pub open spec fn delay(self) -> Option<u64> {
        match self {
            AutoClose::Never => None,
            AutoClose::ServerDefault => Some(MINIMUM_TIMEOUT_MS),
            AutoClose::RaisedToMinimum => Some(MINIMUM_TIMEOUT_MS),
            AutoClose::Requested(ms) => Some(ms),
        }
    }

    /// The delay in milliseconds before the close signal, if there is one.
    pub fn delay_ms(&self) -> (ms: Option<u64>)
        ensures
            ms == self.delay(),
    {
        match self {
            AutoClose::Never => None,
            AutoClose::ServerDefault => Some(MINIMUM_TIMEOUT_MS),
            AutoClose::RaisedToMinimum => Some(MINIMUM_TIMEOUT_MS),
            AutoClose::Requested(ms) => Some(*ms),
        }
    }

    /// Whether a close signal will ever be sent.
    pub fn closes(&self) -> (b: bool)
        ensures
            b == (self.delay() is Some),
    {
        match self {
            AutoClose::Never => false,
            _ => true,
        }
    }
}

/// The policy for a requested timeout of `timeout` milliseconds.
pub open spec fn policy_for(timeout: int) -> AutoClose {
    if timeout == 0 {
        AutoClose::Never
    } else if timeout < 0 {
        AutoClose::ServerDefault
    } else if timeout < MINIMUM_TIMEOUT_MS {
        AutoClose::RaisedToMinimum
    } else {
        AutoClose::Requested(timeout as u64)
    }
}

/// Maps the timeout a client asked for to what the server does: zero never
/// closes, a negative value takes the server's default, a positive value
/// below the minimum is raised to it, any other value stands.
pub fn timeout_policy(timeout: i32) -> (policy: AutoClose)
    ensures
        policy == policy_for(timeout as int),
{
    if timeout == 0 {
        AutoClose::Never
    } else if timeout < 0 {
        AutoClose::ServerDefault
    } else if (timeout as u64) < MINIMUM_TIMEOUT_MS {
        AutoClose::RaisedToMinimum
    } else {
        AutoClose::Requested(timeout as u64)
    }
}

/// Whatever was asked for, a notification either never closes by itself or
/// closes after at least the minimum delay, and after exactly the requested
/// delay where that is not below the minimum.
pub proof fn lemma_delay_bounds(timeout: int)
    requires
        i32::MIN <= timeout <= i32::MAX,
    ensures
        timeout == 0 <==> policy_for(timeout).delay() is None,
        timeout != 0 ==> policy_for(timeout).delay()->0 >= MINIMUM_TIMEOUT_MS,
        timeout >= MINIMUM_TIMEOUT_MS ==> policy_for(timeout).delay() == Some(timeout as u64),
        timeout != 0 && timeout < MINIMUM_TIMEOUT_MS ==> policy_for(timeout).delay() == Some(
            MINIMUM_TIMEOUT_MS,
        ),
{
}

} // verus!
