//! Endpoint registry: one slot per logical role, filled once during startup
//! registration and read-only afterwards. Each endpoint is owned solely by
//! the registry; a role is never re-assigned while occupied.

use vstd::prelude::*;
use crate::errors::RegistrationError;
use crate::handoff::RawDescriptor;
use crate::handoff::TransportKind;
use crate::roles::LogicalRole;

verus! {

/// How an endpoint must be read on a readiness event.
#[derive(Clone, Copy, Debug, PartialEq, Eq, Structural)]
pub enum EndpointVariant {
    /// Accept one pending connection first, then read from it.
    Listener,
    /// Read one datagram directly.
    Datagram,
    /// Read directly from a plain readable file or device.
    File,
}

/// A classified descriptor wrapped in the concrete shape its transport kind
/// demands, ready to be enrolled with the event multiplexer.
#[derive(Clone, Copy, Debug, PartialEq, Eq, Structural)]
pub struct Endpoint {
    pub handle: i32,
    pub variant: EndpointVariant,
}

/// The endpoint shape each transport kind demands: a stream socket must
/// accept before reading, a datagram socket reads directly, and a
/// descriptor without socket metadata is a plain readable file.
pub open spec fn spec_variant_for(kind: TransportKind) -> EndpointVariant {
    match kind {
        TransportKind::UnixStream => EndpointVariant::Listener,
        TransportKind::UnixDatagram => EndpointVariant::Datagram,
        TransportKind::Unspecified => EndpointVariant::File,
    }
}

impl Endpoint {
    /// Wraps a descriptor in the endpoint shape its transport kind demands.
    pub fn for_descriptor(d: &RawDescriptor) -> (e: Endpoint)
        ensures
            e.handle == d.handle,
            e.variant == spec_variant_for(d.kind),
    {
        let variant = match d.kind {
            TransportKind::UnixStream => EndpointVariant::Listener,
            TransportKind::UnixDatagram => EndpointVariant::Datagram,
            TransportKind::Unspecified => EndpointVariant::File,
        };
        Endpoint { handle: d.handle, variant }
    }
}

/// The role-to-endpoint mapping. Mutated only by `register` during startup;
/// the dispatch loop only reads it.
pub struct Registry {
    native: Option<Endpoint>,
    legacy: Option<Endpoint>,
    kernel: Option<Endpoint>,
    stdout: Option<Endpoint>,
}

impl Registry {
    /// The endpoint occupying a role, if any.
    pub closed spec fn entry(self, role: LogicalRole) -> Option<Endpoint> {
        match role {
            LogicalRole::NativeProtocol => self.native,
            LogicalRole::LegacySyslog => self.legacy,
            LogicalRole::KernelLog => self.kernel,
            LogicalRole::StdoutCapture => self.stdout,
        }
    }

    /// An empty registry: no role is occupied.
    pub fn new() -> (r: Registry)
        ensures
            forall|role: LogicalRole| r.entry(role) is None,
    {
        Registry { native: None, legacy: None, kernel: None, stdout: None }
    }

    /// The endpoint registered under a role, if any.
    pub fn get(&self, role: LogicalRole) -> (e: Option<Endpoint>)
        ensures
            e == self.entry(role),
    {
        match role {
            LogicalRole::NativeProtocol => self.native,
            LogicalRole::LegacySyslog => self.legacy,
            LogicalRole::KernelLog => self.kernel,
            LogicalRole::StdoutCapture => self.stdout,
        }
    }

    /// Places an endpoint under a role. An occupied role is refused and kept
    /// intact; an endpoint whose multiplexer enrollment failed is refused,
    /// since its readiness events could never be served.
    pub fn register(
        &mut self,
        role: LogicalRole,
        endpoint: Endpoint,
        mux_enrolled: bool,
    ) -> (r: Result<(), RegistrationError>)
        ensures
            (*final(self), r) == spec_register(*old(self), role, endpoint, mux_enrolled),
            old(self).entry(role) is Some ==> r == Err::<(), RegistrationError>(
                RegistrationError::DuplicateRole,
            ) && *final(self) == *old(self),
            old(self).entry(role) is None && !mux_enrolled ==> r == Err::<(), RegistrationError>(
                RegistrationError::MultiplexerFull,
            ) && *final(self) == *old(self),
            old(self).entry(role) is None && mux_enrolled ==> r is Ok && final(self).entry(role)
                == Some(endpoint),
            forall|other: LogicalRole|
                other != role ==> final(self).entry(other) == old(self).entry(other),
    {
        if self.get(role).is_some() {
            return Err(RegistrationError::DuplicateRole);
        }
        if !mux_enrolled {
            return Err(RegistrationError::MultiplexerFull);
        }
        match role {
            LogicalRole::NativeProtocol => self.native = Some(endpoint),
            LogicalRole::LegacySyslog => self.legacy = Some(endpoint),
            LogicalRole::KernelLog => self.kernel = Some(endpoint),
            LogicalRole::StdoutCapture => self.stdout = Some(endpoint),
        }
        Ok(())
    }
}

/// What `register` does, as one transition on the registry model: the new
/// registry paired with the result.
pub closed spec fn spec_register(
    reg: Registry,
    role: LogicalRole,
    endpoint: Endpoint,
    mux_enrolled: bool,
) -> (Registry, Result<(), RegistrationError>) {
    if reg.entry(role) is Some {
        (reg, Err(RegistrationError::DuplicateRole))
    } else if !mux_enrolled {
        (reg, Err(RegistrationError::MultiplexerFull))
    } else {
        let filled = match role {
            LogicalRole::NativeProtocol => Registry { native: Some(endpoint), ..reg },
            LogicalRole::LegacySyslog => Registry { legacy: Some(endpoint), ..reg },
            LogicalRole::KernelLog => Registry { kernel: Some(endpoint), ..reg },
            LogicalRole::StdoutCapture => Registry { stdout: Some(endpoint), ..reg },
        };
        (filled, Ok(()))
    }
}

/// Law: once a registration has succeeded, registering any endpoint under
/// the same role fails with `DuplicateRole` and leaves the registry — the
/// first registration included — unchanged.
pub proof fn lemma_duplicate_role_rejected(
    reg: Registry,
    role: LogicalRole,
    first: Endpoint,
    second: Endpoint,
    mux_first: bool,
    mux_second: bool,
)
    requires
        spec_register(reg, role, first, mux_first).1 is Ok,
    ensures
        spec_register(spec_register(reg, role, first, mux_first).0, role, second, mux_second) == (
            spec_register(reg, role, first, mux_first).0,
            Err::<(), RegistrationError>(RegistrationError::DuplicateRole),
        ),
        spec_register(reg, role, first, mux_first).0.entry(role) == Some(first),
{
}

} // verus!
