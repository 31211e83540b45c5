//! Endpoint classifier: assigns a logical role to a descriptor from its
//! transport kind and the filesystem path its socket is bound to. A
//! descriptor matching no rule is dropped, never fatal; a failed kernel
//! path query is fatal only for that one descriptor.

use vstd::prelude::*;
use crate::errors::ClassificationError;
use crate::errors::LogError;
use crate::handoff::RawDescriptor;
use crate::handoff::TransportKind;
use crate::roles::LogicalRole;

verus! {

/// The final path segment of the standard-stream capture socket: `stdout`.
pub open spec fn stdout_name() -> Seq<u8> {
    seq![115u8, 116u8, 100u8, 111u8, 117u8, 116u8]
}

/// The final path segment of the legacy syslog socket: `dev-log`.
pub open spec fn dev_log_name() -> Seq<u8> {
    seq![100u8, 101u8, 118u8, 45u8, 108u8, 111u8, 103u8]
}

/// The final path segment of the native protocol socket: `socket`.
pub open spec fn socket_name() -> Seq<u8> {
    seq![115u8, 111u8, 99u8, 107u8, 101u8, 116u8]
}

/// Whether the final segment of path `p` is exactly `name`: `p` ends with
/// `name`, and `name` is either the whole path or preceded by `/`.
pub open spec fn ends_in_segment(p: Seq<u8>, name: Seq<u8>) -> bool {
    &&& p.len() >= name.len()
    &&& p.subrange(p.len() - name.len(), p.len() as int) == name
    &&& (p.len() == name.len() || p[p.len() - name.len() - 1] == 47u8)
}

/// Decides `ends_in_segment` on byte vectors.
pub fn matches_segment(p: &Vec<u8>, name: &Vec<u8>) -> (r: bool)
    ensures
        r == ends_in_segment(p@, name@),
{
    if p.len() < name.len() {
        return false;
    }
    let off = p.len() - name.len();
    if off > 0 && p[off - 1] != 47u8 {
        return false;
    }
    let mut i: usize = 0;
    while i < name.len()
        invariant
            0 <= i <= name@.len(),
            name@.len() <= p@.len(),
            p@.len() <= usize::MAX,
            off == p@.len() - name@.len(),
            forall|j: int| 0 <= j < i ==> p@[off + j] == name@[j],
        decreases name@.len() - i,
    {
        if p[off + i] != name[i] {
            assert(p@.subrange(off as int, p@.len() as int)[i as int] != name@[i as int]);
            return false;
        }
        i = i + 1;
    }
    assert(p@.subrange(off as int, p@.len() as int) =~= name@);
    true
}

/// The outcome of the kernel bound-path query for one descriptor, as spec
/// values.
pub open spec fn spec_path_view(path: Result<Vec<u8>, LogError>) -> Result<Seq<u8>, LogError> {
    match path {
        Ok(v) => Ok(v@),
        Err(e) => Err(e),
    }
}

/// The classification rule: stream sockets bound under `stdout` capture the
/// standard streams; datagram sockets bound under `dev-log` serve legacy
/// syslog and under `socket` the native protocol; everything else matches
/// no role. A failed path query makes the descriptor unusable.
pub open spec fn spec_classify(kind: TransportKind, path: Result<Seq<u8>, LogError>) -> Result<
    LogicalRole,
    ClassificationError,
> {
    match kind {
        TransportKind::Unspecified => Err(ClassificationError::Unrecognized),
        TransportKind::UnixStream => match path {
            Err(_) => Err(ClassificationError::MetadataUnavailable),
            Ok(p) => if ends_in_segment(p, stdout_name()) {
                Ok(LogicalRole::StdoutCapture)
            } else {
                Err(ClassificationError::Unrecognized)
            },
        },
        TransportKind::UnixDatagram => match path {
            Err(_) => Err(ClassificationError::MetadataUnavailable),
            Ok(p) => if ends_in_segment(p, dev_log_name()) {
                Ok(LogicalRole::LegacySyslog)
            } else if ends_in_segment(p, socket_name()) {
                Ok(LogicalRole::NativeProtocol)
            } else {
                Err(ClassificationError::Unrecognized)
            },
        },
    }
}

/// Assigns a logical role to one descriptor. `path` is the outcome of the
/// kernel query for the descriptor's bound path; it is ignored for
/// descriptors without socket metadata.
pub fn classify(d: &RawDescriptor, path: &Result<Vec<u8>, LogError>) -> (r: Result<
    LogicalRole,
    ClassificationError,
>)
    ensures
        r == spec_classify(d.kind, spec_path_view(*path)),
{
    match d.kind {
        TransportKind::Unspecified => Err(ClassificationError::Unrecognized),
        TransportKind::UnixStream => match path {
            Err(_) => Err(ClassificationError::MetadataUnavailable),
            Ok(p) => {
                let name = stdout_name_bytes();
                if matches_segment(p, &name) {
                    Ok(LogicalRole::StdoutCapture)
                } else {
                    Err(ClassificationError::Unrecognized)
                }
            },
        },
        TransportKind::UnixDatagram => match path {
            Err(_) => Err(ClassificationError::MetadataUnavailable),
            Ok(p) => {
                let dev_log = dev_log_name_bytes();
                if matches_segment(p, &dev_log) {
                    Ok(LogicalRole::LegacySyslog)
                } else {
                    let socket = socket_name_bytes();
                    if matches_segment(p, &socket) {
                        Ok(LogicalRole::NativeProtocol)
                    } else {
                        Err(ClassificationError::Unrecognized)
                    }
                }
            },
        },
    }
}

/// The bytes of `stdout_name`.
fn stdout_name_bytes() -> (v: Vec<u8>)
    ensures
        v@ == stdout_name(),
{
    let mut v: Vec<u8> = Vec::new();
    v.push(115u8);
    v.push(116u8);
    v.push(100u8);
    v.push(111u8);
    v.push(117u8);
    v.push(116u8);
    assert(v@ =~= stdout_name());
    v
}

/// The bytes of `dev_log_name`.
fn dev_log_name_bytes() -> (v: Vec<u8>)
    ensures
        v@ == dev_log_name(),
{
    let mut v: Vec<u8> = Vec::new();
    v.push(100u8);
    v.push(101u8);
    v.push(118u8);
    v.push(45u8);
    v.push(108u8);
    v.push(111u8);
    v.push(103u8);
    assert(v@ =~= dev_log_name());
    v
}

/// The bytes of `socket_name`.
fn socket_name_bytes() -> (v: Vec<u8>)
    ensures
        v@ == socket_name(),
{
    let mut v: Vec<u8> = Vec::new();
    v.push(115u8);
    v.push(111u8);
    v.push(99u8);
    v.push(107u8);
    v.push(101u8);
    v.push(116u8);
    assert(v@ =~= socket_name());
    v
}

/// Law: a datagram descriptor is classified by its final path segment —
/// `dev-log` serves legacy syslog, `socket` the native protocol, and any
/// other suffix matches no role.
pub proof fn lemma_classify_datagram(p: Seq<u8>)
    ensures
        ends_in_segment(p, dev_log_name()) ==> spec_classify(TransportKind::UnixDatagram, Ok(p))
            == Ok::<LogicalRole, ClassificationError>(LogicalRole::LegacySyslog),
        ends_in_segment(p, socket_name()) ==> spec_classify(TransportKind::UnixDatagram, Ok(p))
            == Ok::<LogicalRole, ClassificationError>(LogicalRole::NativeProtocol),
        !ends_in_segment(p, dev_log_name()) && !ends_in_segment(p, socket_name())
            ==> spec_classify(TransportKind::UnixDatagram, Ok(p)) == Err::<
            LogicalRole,
            ClassificationError,
        >(ClassificationError::Unrecognized),
{
    if ends_in_segment(p, dev_log_name()) && ends_in_segment(p, socket_name()) {
        assert(p.subrange(p.len() - 7, p.len() as int)[6] == dev_log_name()[6]);
        assert(p.subrange(p.len() - 6, p.len() as int)[5] == socket_name()[5]);
        assert(p[p.len() - 1] == 103u8 && p[p.len() - 1] == 116u8);
    }
}

/// Law: a stream descriptor whose bound path ends in the segment `stdout`
/// captures the standard streams; any other suffix matches no role.
pub proof fn lemma_classify_stream(p: Seq<u8>)
    ensures
        ends_in_segment(p, stdout_name()) ==> spec_classify(TransportKind::UnixStream, Ok(p))
            == Ok::<LogicalRole, ClassificationError>(LogicalRole::StdoutCapture),
        !ends_in_segment(p, stdout_name()) ==> spec_classify(TransportKind::UnixStream, Ok(p))
            == Err::<LogicalRole, ClassificationError>(ClassificationError::Unrecognized),
{
}

} // verus!
