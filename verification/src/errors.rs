//! Error taxonomy of the daemon core.
//!
//! Startup errors (`AcquisitionError`, `StartupError`) are fatal: the process
//! must exit before entering the dispatch loop. `ClassificationError` is
//! recoverable per descriptor: the descriptor is dropped and startup goes on.
//! Once the loop runs, nothing here terminates it except `DispatchError`,
//! which marks a broken invariant between the multiplexer and the registry.

use vstd::prelude::*;

verus! {

/// Coarse error code of the daemon, reported when the process gives up.
#[derive(Clone, Copy, Debug, PartialEq, Eq, Structural)]
pub enum LogError {
    /// A descriptor could not be used or queried.
    FdError,
    /// The logging setup itself failed (handoff, registration, or count).
    LoggingError,
}

/// Failure of the supervisor descriptor handoff itself.
#[derive(Clone, Copy, Debug, PartialEq, Eq, Structural)]
pub enum AcquisitionError {
    /// The handoff channel was absent or malformed.
    ChannelUnavailable,
    /// The handoff succeeded but delivered no descriptors.
    NoDescriptors,
}

/// Per-descriptor classification failure; the descriptor is dropped,
/// startup continues with the rest.
#[derive(Clone, Copy, Debug, PartialEq, Eq, Structural)]
pub enum ClassificationError {
    /// The descriptor's kind and bound path match no known role.
    Unrecognized,
    /// The kernel query for the descriptor's bound path failed.
    MetadataUnavailable,
}

/// Failure to place a classified endpoint into the registry.
#[derive(Clone, Copy, Debug, PartialEq, Eq, Structural)]
pub enum RegistrationError {
    /// The role is already occupied by an earlier endpoint.
    DuplicateRole,
    /// The readiness-notification subsystem refused the enrollment.
    MultiplexerFull,
}

/// Any fatal startup failure; the process exits with a non-zero status.
#[derive(Clone, Copy, Debug, PartialEq, Eq, Structural)]
pub enum StartupError {
    Acquisition(AcquisitionError),
    /// The handoff count does not match the statically expected role count.
    RoleCountMismatch,
    Registration(RegistrationError),
}

/// A readiness event carried a token matching no registered role: the
/// multiplexer's contract is broken and the process must abort.
#[derive(Clone, Copy, Debug, PartialEq, Eq, Structural)]
pub enum DispatchError {
    UnknownToken,
}

impl StartupError {
    /// The coarse code the process reports for this fatal startup failure.
    pub fn exit_code(&self) -> (r: LogError)
        ensures
            r == LogError::LoggingError,
    {
        LogError::LoggingError
    }
}

impl ClassificationError {
    /// The coarse code logged when this descriptor is dropped: a failed
    /// kernel query is a descriptor fault, an unmatched path is not an
    /// error at all and carries no code.
    pub fn drop_code(&self) -> (r: Option<LogError>)
        ensures
            *self is MetadataUnavailable ==> r == Some(LogError::FdError),
            *self is Unrecognized ==> r is None,
    {
        match self {
            ClassificationError::MetadataUnavailable => Some(LogError::FdError),
            ClassificationError::Unrecognized => None,
        }
    }
}

} // verus!
