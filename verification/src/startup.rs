//! Startup composition: validate the handoff count, then classify every
//! descriptor independently — by its own kind and bound path, never by its
//! position in the handoff — and hand back the endpoints to enroll and
//! register. Runs once; the dispatch loop takes over afterwards.

use vstd::prelude::*;
use crate::EXPECTED_DESCRIPTOR_COUNT;
use crate::classify::classify;
use crate::classify::spec_classify;
use crate::classify::spec_path_view;
use crate::errors::LogError;
use crate::errors::StartupError;
use crate::handoff::RawDescriptor;
use crate::registry::Endpoint;
use crate::registry::Registry;
use crate::registry::spec_variant_for;
use crate::roles::LogicalRole;

verus! {

/// A descriptor that matched a classification rule, wrapped and ready to be
/// enrolled with the multiplexer and registered under its role.
#[derive(Clone, Copy, Debug, PartialEq, Eq, Structural)]
pub struct ClassifiedEndpoint {
    pub role: LogicalRole,
    pub endpoint: Endpoint,
}

/// The endpoint a descriptor yields once classified.
pub open spec fn spec_endpoint_of(d: RawDescriptor) -> Endpoint {
    Endpoint { handle: d.handle, variant: spec_variant_for(d.kind) }
}

/// The bound-path query outcomes of a handoff, as spec values.
pub open spec fn spec_paths_view(paths: Seq<Result<Vec<u8>, LogError>>) -> Seq<
    Result<Seq<u8>, LogError>,
> {
    paths.map_values(|p: Result<Vec<u8>, LogError>| spec_path_view(p))
}

/// The classified endpoints of a handoff, in handoff order: each descriptor
/// classified on its own, descriptors matching no rule dropped.
pub open spec fn spec_classified(
    descs: Seq<RawDescriptor>,
    paths: Seq<Result<Seq<u8>, LogError>>,
) -> Seq<ClassifiedEndpoint>
    decreases descs.len(),
{
    if descs.len() == 0 || paths.len() == 0 {
        Seq::empty()
    } else {
        (match spec_classify(descs[0].kind, paths[0]) {
            Ok(role) => seq![
                ClassifiedEndpoint { role: role, endpoint: spec_endpoint_of(descs[0]) },
            ],
            Err(_) => Seq::empty(),
        }) + spec_classified(descs.drop_first(), paths.drop_first())
    }
}

/// Validates the handoff against the statically expected role count. Only a
/// handoff of exactly one descriptor per role may proceed, and it starts
/// from an empty registry: nothing is registered before validation passes.
pub fn begin_startup(descs: &Vec<RawDescriptor>) -> (r: Result<Registry, StartupError>)
    ensures
        r is Ok <==> descs@.len() == EXPECTED_DESCRIPTOR_COUNT,
        r matches Ok(reg) ==> forall|role: LogicalRole| reg.entry(role) is None,
        r is Err ==> r == Err::<Registry, StartupError>(StartupError::RoleCountMismatch),
{
    if descs.len() == EXPECTED_DESCRIPTOR_COUNT {
        Ok(Registry::new())
    } else {
        Err(StartupError::RoleCountMismatch)
    }
}

/// Classifies a whole handoff. `paths` holds, for each descriptor in turn,
/// the outcome of the kernel query for its bound path. Descriptors matching
/// no rule, and descriptors whose query failed, are dropped; the rest come
/// back in handoff order, wrapped for registration.
pub fn classify_handoff(descs: &Vec<RawDescriptor>, paths: &Vec<Result<Vec<u8>, LogError>>) -> (r:
    Vec<ClassifiedEndpoint>)
    requires
        descs@.len() == paths@.len(),
    ensures
        r@ == spec_classified(descs@, spec_paths_view(paths@)),
{
    let ghost pv = spec_paths_view(paths@);
    let mut r: Vec<ClassifiedEndpoint> = Vec::new();
    let mut i: usize = 0;
    assert(descs@.skip(0) =~= descs@);
    assert(pv.skip(0) =~= pv);
    while i < descs.len()
        invariant
            0 <= i <= descs@.len(),
            descs@.len() == paths@.len(),
            pv == spec_paths_view(paths@),
            spec_classified(descs@, pv) == r@ + spec_classified(
                descs@.skip(i as int),
                pv.skip(i as int),
            ),
        decreases descs@.len() - i,
    {
        let ghost prefix = r@;
        match classify(&descs[i], &paths[i]) {
            Ok(role) => {
                let endpoint = Endpoint::for_descriptor(&descs[i]);
                r.push(ClassifiedEndpoint { role, endpoint });
            },
            Err(_) => {},
        }
        proof {
            let rest = spec_classified(descs@.skip(i as int), pv.skip(i as int));
            assert(descs@.skip(i as int)[0] == descs@[i as int]);
            assert(pv.skip(i as int)[0] == pv[i as int]);
            assert(pv[i as int] == spec_path_view(paths@[i as int]));
            assert(descs@.skip(i as int).drop_first() =~= descs@.skip(i as int + 1));
            assert(pv.skip(i as int).drop_first() =~= pv.skip(i as int + 1));
            let head = (match spec_classify(descs@[i as int].kind, pv[i as int]) {
                Ok(role) => seq![
                    ClassifiedEndpoint {
                        role: role,
                        endpoint: spec_endpoint_of(descs@[i as int]),
                    },
                ],
                Err(_) => Seq::<ClassifiedEndpoint>::empty(),
            });
            assert(rest == head + spec_classified(
                descs@.skip(i as int + 1),
                pv.skip(i as int + 1),
            ));
            assert(r@ =~= prefix + head);
            assert(prefix + (head + spec_classified(descs@.skip(i as int + 1), pv.skip(i as int + 1)))
                =~= (prefix + head) + spec_classified(
                descs@.skip(i as int + 1),
                pv.skip(i as int + 1),
            ));
        }
        i = i + 1;
    }
    proof {
        assert(descs@.skip(descs@.len() as int) =~= Seq::<RawDescriptor>::empty());
        assert(r@ + spec_classified(descs@.skip(descs@.len() as int), pv.skip(descs@.len() as int))
            =~= r@);
    }
    r
}

} // verus!
