//! Logical roles: the semantic identity of an endpoint, independent of its
//! transport kind, and the stable numeric token under which each role is
//! enrolled with the event multiplexer.

use vstd::prelude::*;

verus! {

/// The roles this daemon serves. At most one active endpoint may hold a
/// given role at a time, and a role never changes once registered.
#[derive(Clone, Copy, Debug, PartialEq, Eq, Structural)]
pub enum LogicalRole {
    /// The structured native logging socket.
    NativeProtocol,
    /// The traditional syslog datagram socket.
    LegacySyslog,
    /// The kernel log device.
    KernelLog,
    /// The standard-stream capture listener.
    StdoutCapture,
}

/// The multiplexer registration token of each role.
pub open spec fn spec_token_of(role: LogicalRole) -> nat {
    match role {
        LogicalRole::NativeProtocol => 0,
        LogicalRole::LegacySyslog => 1,
        LogicalRole::StdoutCapture => 2,
        LogicalRole::KernelLog => 3,
    }
}

/// The role enrolled under a token, if any.
pub open spec fn spec_role_of_token(token: nat) -> Option<LogicalRole> {
    if token == 0 {
        Some(LogicalRole::NativeProtocol)
    } else if token == 1 {
        Some(LogicalRole::LegacySyslog)
    } else if token == 2 {
        Some(LogicalRole::StdoutCapture)
    } else if token == 3 {
        Some(LogicalRole::KernelLog)
    } else {
        None
    }
}

impl LogicalRole {
    /// The stable token under which this role's endpoint is enrolled with
    /// the event multiplexer.
    pub fn token(&self) -> (t: usize)
        ensures
            t == spec_token_of(*self),
    {
        match self {
            LogicalRole::NativeProtocol => 0,
            LogicalRole::LegacySyslog => 1,
            LogicalRole::StdoutCapture => 2,
            LogicalRole::KernelLog => 3,
        }
    }

    /// The role a readiness-event token belongs to; `None` marks a token
    /// matching no role, which the dispatch loop treats as fatal.
    pub fn of_token(token: usize) -> (r: Option<LogicalRole>)
        ensures
            r == spec_role_of_token(token as nat),
    {
        if token == 0 {
            Some(LogicalRole::NativeProtocol)
        } else if token == 1 {
            Some(LogicalRole::LegacySyslog)
        } else if token == 2 {
            Some(LogicalRole::StdoutCapture)
        } else if token == 3 {
            Some(LogicalRole::KernelLog)
        } else {
            None
        }
    }
}

/// Tokens name roles unambiguously: the token map is its own inverse.
pub proof fn lemma_token_round_trip(role: LogicalRole)
    ensures
        spec_role_of_token(spec_token_of(role)) == Some(role),
{
}

} // verus!
