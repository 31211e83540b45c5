//! Core logic of a supervised log daemon: it takes pre-opened communication
//! endpoints handed over by a process supervisor, classifies each endpoint by
//! transport kind and bound socket path, registers the classified endpoints
//! under logical roles, and plans each wake of the readiness-polling loop —
//! one watchdog signal per wake, one bounded read per ready endpoint, and one
//! emitted line per successfully decoded message.
//!
//! All I/O (the descriptor handoff, kernel socket-metadata queries, polling,
//! reads, and supervisor notifications) is performed by the surrounding
//! program, which feeds the results to this crate as plain values.

pub mod classify;
pub mod decode;
pub mod dispatch;
pub mod errors;
pub mod handoff;
pub mod registry;
pub mod roles;
pub mod startup;

use vstd::prelude::*;

verus! {

/// The number of descriptors the supervisor must hand over: one per
/// logical role the daemon serves.
pub const EXPECTED_DESCRIPTOR_COUNT: usize = 4;

} // verus!
