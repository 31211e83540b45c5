//! Descriptor inventory: the supervisor's descriptor handoff as plain values,
//! validation of the handoff, and extraction of a bound socket path from the
//! raw NUL-terminated address bytes the kernel reports.

use vstd::prelude::*;
use crate::errors::AcquisitionError;
use crate::errors::StartupError;
use crate::EXPECTED_DESCRIPTOR_COUNT;

verus! {

/// Coarse transport kind of a handed-over descriptor, as the handoff
/// metadata reports it.
#[derive(Clone, Copy, Debug, PartialEq, Eq, Structural)]
pub enum TransportKind {
    /// A connection-oriented Unix socket (a listener to accept from).
    UnixStream,
    /// A connectionless Unix socket (read datagrams directly).
    UnixDatagram,
    /// No socket metadata: a raw readable file or character device.
    Unspecified,
}

/// One pre-opened endpoint received from the supervisor: an OS-level handle
/// plus its coarse transport kind. Created once by the handoff, consumed
/// exactly once by classification and registration.
#[derive(Clone, Copy, Debug, PartialEq, Eq, Structural)]
pub struct RawDescriptor {
    pub handle: i32,
    pub kind: TransportKind,
}

/// Accepts or rejects the supervisor handoff. `received` is `None` when the
/// handoff channel was absent or malformed, `Some` with what it delivered
/// otherwise.
pub fn accept_handoff(received: Option<Vec<RawDescriptor>>) -> (r: Result<
    Vec<RawDescriptor>,
    AcquisitionError,
>)
    ensures
        received is None ==> r == Err::<Vec<RawDescriptor>, AcquisitionError>(
            AcquisitionError::ChannelUnavailable,
        ),
        received matches Some(v) ==> {
            &&& v@.len() == 0 ==> r == Err::<Vec<RawDescriptor>, AcquisitionError>(
                AcquisitionError::NoDescriptors,
            )
            &&& v@.len() > 0 ==> r == Ok::<Vec<RawDescriptor>, AcquisitionError>(v)
        },
{
    match received {
        None => Err(AcquisitionError::ChannelUnavailable),
        Some(v) => {
            if v.len() == 0 {
                Err(AcquisitionError::NoDescriptors)
            } else {
                Ok(v)
            }
        },
    }
}

/// The handoff count is authoritative: anything other than exactly one
/// descriptor per expected role means the supervisor's configuration does
/// not match this program, and startup must fail before any registration.
pub fn validate_descriptor_count(descs: &Vec<RawDescriptor>) -> (r: Result<(), StartupError>)
    ensures
        r is Ok <==> descs@.len() == EXPECTED_DESCRIPTOR_COUNT,
        r is Err ==> r == Err::<(), StartupError>(StartupError::RoleCountMismatch),
{
    if descs.len() == EXPECTED_DESCRIPTOR_COUNT {
        Ok(())
    } else {
        Err(StartupError::RoleCountMismatch)
    }
}

/// The bound path held in a kernel socket-address record: the bytes before
/// the first NUL, or all of them when no NUL occurs.
pub fn path_from_sockaddr(raw: &Vec<u8>) -> (p: Vec<u8>)
    ensures
        p@.len() <= raw@.len(),
        p@ == raw@.take(p@.len() as int),
        forall|j: int| 0 <= j < p@.len() ==> p@[j] != 0,
        p@.len() < raw@.len() ==> raw@[p@.len() as int] == 0,
{
    let mut p: Vec<u8> = Vec::new();
    let mut i: usize = 0;
    while i < raw.len() && raw[i] != 0
        invariant
            0 <= i <= raw@.len(),
            p@.len() == i,
            p@ == raw@.take(i as int),
            forall|j: int| 0 <= j < i ==> raw@[j] != 0,
        decreases raw@.len() - i,
    {
        p.push(raw[i]);
        assert(p@ == raw@.take(i + 1 as int));
        i = i + 1;
    }
    p
}

} // verus!
