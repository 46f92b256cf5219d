//! Build-time RPC surface generator.
//!
//! A set of annotated service method declarations is collected into an
//! ordered registry of descriptors; from the finalized registry the
//! protocol compiler emits one shared wire protocol (a query union and a
//! response union, one variant per descriptor), a dispatcher that routes a
//! query to the matching method invocation, and, per method, either a host
//! body (direct call) or a stub body (network round trip).

pub mod dispatch;
pub mod names;
pub mod protocol;
pub mod registry;
pub mod render;
pub mod stub;

use vstd::prelude::*;

use crate::protocol::{all_resolve, entry_resolves, generate_rpc_proto, GenError, Protocol};
use crate::registry::{decls_view, entries_of, EntryModel, Registrar, ServiceDecl};
use crate::stub::MethodBody;

verus! {

/// The descriptor sequence one whole generation pass collects: every
/// service's methods in declaration order, services in discovery order,
/// ids continuing across services.
pub open spec fn registry_of(svcs: Seq<ServiceDecl>) -> Seq<EntryModel>
    decreases svcs.len(),
{
    if svcs.len() == 0 {
        Seq::empty()
    } else {
        let prev = registry_of(svcs.drop_last());
        prev + entries_of(
            prev.len() as int,
            svcs.last().self_type@,
            decls_view(svcs.last().methods@),
        )
    }
}

proof fn lemma_registry_prefix_len(svcs: Seq<ServiceDecl>, k: int)
    requires
        0 <= k <= svcs.len(),
    ensures
        registry_of(svcs.take(k)).len() <= registry_of(svcs).len(),
    decreases svcs.len() - k,
{
    if k < svcs.len() {
        assert(svcs.take(k + 1).drop_last() =~= svcs.take(k));
        assert(svcs.take(k + 1).last() == svcs[k]);
        lemma_registry_prefix_len(svcs, k + 1);
    } else {
        assert(svcs.take(k) =~= svcs);
    }
}

/// Runs one whole generation pass: registers every service's methods in
/// order, finalizes the registry, and compiles the protocol from the
/// snapshot.  Succeeds exactly when every recorded name resolves; on
/// success the output is pinned, variant for variant, to the collected
/// descriptor sequence.
pub fn run(services: &Vec<ServiceDecl>) -> (r: Result<Protocol, GenError>)
    requires
        registry_of(services@).len() < u64::MAX,
    ensures
        match r {
            Result::Ok(p) => all_resolve(registry_of(services@)) && p@ == crate::protocol::protocol_of(
                registry_of(services@),
            ),
            Result::Err(GenError::UnresolvedName { entry_index }) => {
                &&& entry_index < registry_of(services@).len()
                &&& !entry_resolves(registry_of(services@)[entry_index as int])
                &&& forall|i: int|
                    0 <= i < entry_index ==> entry_resolves(
                        #[trigger] registry_of(services@)[i],
                    )
            },
        },
{
    let mut reg = Registrar::new();
    let mut k: usize = 0;
    while k < services.len()
        invariant
            reg.wf(),
            k <= services@.len(),
            reg@ == registry_of(services@.take(k as int)),
            registry_of(services@).len() < u64::MAX,
        decreases services@.len() - k,
    {
        proof {
            assert(services@.take(k + 1).drop_last() =~= services@.take(k as int));
            assert(services@.take(k + 1).last() == services@[k as int]);
            lemma_registry_prefix_len(services@, k + 1);
        }
        reg.register_rpcs(&services[k]);
        k += 1;
    }
    proof {
        assert(services@.take(services@.len() as int) =~= services@);
    }
    let entries = reg.finalize();
    generate_rpc_proto(&entries)
}

/// One expanded method: the descriptor it registered, and the two
/// mutually exclusive bodies generated for it from the one shared
/// signature.
pub struct ExpandedMethod {
    pub entry_id: u64,
    pub host_body: MethodBody,
    pub stub_body: MethodBody,
}

/// Performs the per-impl-block generation directive: registers every
/// method of the block and emits, per method, the host body and the
/// stub body keyed by the assigned id.  Exactly one of the two is
/// compiled into a running program, selected by build target.
pub fn perform(reg: &mut Registrar, svc: &ServiceDecl) -> (r: Vec<ExpandedMethod>)
    requires
        old(reg).wf(),
        old(reg)@.len() + svc.methods@.len() < u64::MAX,
    ensures
        final(reg).wf(),
        final(reg)@ == old(reg)@ + entries_of(
            old(reg)@.len() as int,
            svc.self_type@,
            decls_view(svc.methods@),
        ),
        r@.len() == svc.methods@.len(),
        forall|k: int|
            0 <= k < r@.len() ==> {
                &&& (#[trigger] r@[k]).entry_id == old(reg)@.len() + k
                &&& r@[k].host_body == MethodBody::HostBody
                &&& r@[k].stub_body == (MethodBody::StubBody {
                    entry_id: (old(reg)@.len() + k) as u64,
                })
            },
{
    let base = reg.len();
    reg.register_rpcs(svc);
    let mut r: Vec<ExpandedMethod> = Vec::new();
    let mut k: usize = 0;
    while k < svc.methods.len()
        invariant
            base + svc.methods@.len() < u64::MAX,
            k <= svc.methods@.len(),
            r@.len() == k,
            forall|j: int|
                0 <= j < k ==> {
                    &&& (#[trigger] r@[j]).entry_id == base + j
                    &&& r@[j].host_body == MethodBody::HostBody
                    &&& r@[j].stub_body == (MethodBody::StubBody { entry_id: (base + j) as u64 })
                },
        decreases svc.methods@.len() - k,
    {
        let entry_id = (base as u64) + (k as u64);
        r.push(
            ExpandedMethod {
                entry_id,
                host_body: MethodBody::HostBody,
                stub_body: MethodBody::StubBody { entry_id },
            },
        );
        k += 1;
    }
    r
}

} // verus!
