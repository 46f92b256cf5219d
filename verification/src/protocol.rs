//! The protocol compiler.
//!
//! Consumes the finalized descriptor sequence exactly once and emits the
//! structural definition of the wire protocol: the query union, the
//! response union, and the dispatch table.  Each descriptor contributes
//! exactly one query variant (fields = its parameter type names) and one
//! response variant (field = its return type name), both named
//! deterministically from its id.  Generation is all-or-nothing: if any
//! recorded name does not resolve, the whole generation fails and no
//! partial protocol is emitted.

use vstd::prelude::*;

use crate::names::{
    query_variant_name, query_variant_string, response_variant_name, response_variant_string,
};
use crate::registry::{entries_view, EntryModel, RpcEntry};

verus! {

/// Whether a string is a well-formed Rust type, as the parser of the
/// `syn` crate decides it.  The result depends on the characters alone.
pub uninterp spec fn type_resolves(s: Seq<char>) -> bool;

/// Whether a string is a single Rust identifier, as the parser of the
/// `syn` crate decides it.  The result depends on the characters alone.
pub uninterp spec fn ident_resolves(s: Seq<char>) -> bool;

/// Relies on `syn::parse_str::<syn::Type>`: a deterministic parser that
/// returns `Ok` exactly when the whole string is a well-formed Rust type.
#[verifier::external_body]
fn resolve_type_name(s: &String) -> (r: bool)
    ensures
        r == type_resolves(s@),
{
    syn::parse_str::<syn::Type>(s.as_str()).is_ok()
}

/// Relies on `syn::parse_str::<syn::Ident>`: a deterministic parser that
/// returns `Ok` exactly when the whole string is one Rust identifier.
#[verifier::external_body]
fn resolve_method_name(s: &String) -> (r: bool)
    ensures
        r == ident_resolves(s@),
{
    syn::parse_str::<syn::Ident>(s.as_str()).is_ok()
}

/// One variant of a generated union: its name and its positional field
/// types.
pub struct VariantDef {
    pub variant_name: String,
    pub field_types: Vec<String>,
}

/// Mathematical model of a `VariantDef`.
pub ghost struct VariantModel {
    pub variant_name: Seq<char>,
    pub field_types: Seq<Seq<char>>,
}

impl View for VariantDef {
    type V = VariantModel;

    open spec fn view(&self) -> VariantModel {
        VariantModel {
            variant_name: self.variant_name@,
            field_types: self.field_types@.map_values(|s: String| s@),
        }
    }
}

/// One row of the dispatch table: which method a query variant routes
/// to, and, per positional argument, whether the generated call site
/// passes it by reference (true exactly for arguments whose declared
/// type equals the owner type).
pub struct DispatchArm {
    pub model_name: String,
    pub method_name: String,
    pub by_ref: Vec<bool>,
}

/// Mathematical model of a `DispatchArm`.
pub ghost struct ArmModel {
    pub model_name: Seq<char>,
    pub method_name: Seq<char>,
    pub by_ref: Seq<bool>,
}

impl View for DispatchArm {
    type V = ArmModel;

    open spec fn view(&self) -> ArmModel {
        ArmModel {
            model_name: self.model_name@,
            method_name: self.method_name@,
            by_ref: self.by_ref@,
        }
    }
}

/// The compiled protocol: both unions and the dispatch table, one slot
/// per descriptor, in descriptor order.
pub struct Protocol {
    pub query_variants: Vec<VariantDef>,
    pub response_variants: Vec<VariantDef>,
    pub arms: Vec<DispatchArm>,
}

/// Mathematical model of a `Protocol`.
pub ghost struct ProtocolModel {
    pub query_variants: Seq<VariantModel>,
    pub response_variants: Seq<VariantModel>,
    pub arms: Seq<ArmModel>,
}

impl View for Protocol {
    type V = ProtocolModel;

    open spec fn view(&self) -> ProtocolModel {
        ProtocolModel {
            query_variants: self.query_variants@.map_values(|v: VariantDef| v@),
            response_variants: self.response_variants@.map_values(|v: VariantDef| v@),
            arms: self.arms@.map_values(|a: DispatchArm| a@),
        }
    }
}

/// Generation fails as a whole; the error names the first descriptor
/// whose recorded names do not all resolve.
#[derive(Debug, Clone, Copy, PartialEq, Eq)]
pub enum GenError {
    UnresolvedName { entry_index: u64 },
}

/// Every name recorded in one descriptor resolves.
pub open spec fn entry_resolves(e: EntryModel) -> bool {
    &&& type_resolves(e.model_name)
    &&& ident_resolves(e.method_name)
    &&& forall|j: int| 0 <= j < e.query_types.len() ==> type_resolves(#[trigger] e.query_types[j])
    &&& type_resolves(e.response_type)
}

/// Every name of every descriptor resolves.
pub open spec fn all_resolve(es: Seq<EntryModel>) -> bool {
    forall|i: int| 0 <= i < es.len() ==> entry_resolves(#[trigger] es[i])
}

/// The query variant a descriptor compiles to.
pub open spec fn query_variant_of(e: EntryModel) -> VariantModel {
    VariantModel {
        variant_name: query_variant_name(e.id as nat),
        field_types: e.query_types,
    }
}

/// The response variant a descriptor compiles to.
pub open spec fn response_variant_of(e: EntryModel) -> VariantModel {
    VariantModel {
        variant_name: response_variant_name(e.id as nat),
        field_types: seq![e.response_type],
    }
}

/// The dispatch row a descriptor compiles to.  An argument is passed by
/// reference exactly when its declared type equals the owner type.
pub open spec fn arm_of(e: EntryModel) -> ArmModel {
    ArmModel {
        model_name: e.model_name,
        method_name: e.method_name,
        by_ref: Seq::new(e.query_types.len(), |j: int| e.query_types[j] == e.model_name),
    }
}

/// The protocol a finalized descriptor sequence compiles to.
pub open spec fn protocol_of(es: Seq<EntryModel>) -> ProtocolModel {
    ProtocolModel {
        query_variants: es.map_values(|e: EntryModel| query_variant_of(e)),
        response_variants: es.map_values(|e: EntryModel| response_variant_of(e)),
        arms: es.map_values(|e: EntryModel| arm_of(e)),
    }
}

/// Compiles the finalized descriptor sequence into the protocol.
///
/// Succeeds exactly when every recorded name of every descriptor
/// resolves; on success the whole output is pinned to `protocol_of`.
/// On failure nothing is emitted and the error names the first
/// descriptor at fault.
#[verifier::loop_isolation(false)]
pub fn generate_rpc_proto(entries: &Vec<RpcEntry>) -> (r: Result<Protocol, GenError>)
    ensures
        match r {
            Result::Ok(p) => all_resolve(entries_view(entries@)) && p@ == protocol_of(
                entries_view(entries@),
            ),
            Result::Err(GenError::UnresolvedName { entry_index }) => {
                &&& entry_index < entries@.len()
                &&& !entry_resolves(entries_view(entries@)[entry_index as int])
                &&& forall|i: int|
                    0 <= i < entry_index ==> entry_resolves(
                        #[trigger] entries_view(entries@)[i],
                    )
            },
        },
{
    let ghost es = entries_view(entries@);
    let mut query_variants: Vec<VariantDef> = Vec::new();
    let mut response_variants: Vec<VariantDef> = Vec::new();
    let mut arms: Vec<DispatchArm> = Vec::new();
    let mut i: usize = 0;
    while i < entries.len()
        invariant
            i <= entries@.len(),
            query_variants@.len() == i,
            response_variants@.len() == i,
            arms@.len() == i,
            forall|k: int| 0 <= k < i ==> entry_resolves(#[trigger] es[k]),
            forall|k: int| 0 <= k < i ==> (#[trigger] query_variants@[k])@ == query_variant_of(
                es[k],
            ),
            forall|k: int|
                0 <= k < i ==> (#[trigger] response_variants@[k])@ == response_variant_of(es[k]),
            forall|k: int| 0 <= k < i ==> (#[trigger] arms@[k])@ == arm_of(es[k]),
        decreases entries@.len() - i,
    {
        let entry = &entries[i];
        proof {
            assert(es[i as int] == entry@);
        }
        if !resolve_type_name(&entry.model_name) {
            return Result::Err(GenError::UnresolvedName { entry_index: i as u64 });
        }
        if !resolve_method_name(&entry.method_name) {
            return Result::Err(GenError::UnresolvedName { entry_index: i as u64 });
        }
        let mut j: usize = 0;
        let mut by_ref: Vec<bool> = Vec::new();
        while j < entry.query_types.len()
            invariant
                j <= entry.query_types@.len(),
                by_ref@.len() == j,
                forall|l: int|
                    0 <= l < j ==> by_ref@[l] == (entry@.query_types[l] == entry@.model_name),
                forall|l: int| 0 <= l < j ==> type_resolves(#[trigger] entry@.query_types[l]),
            decreases entry.query_types@.len() - j,
        {
            proof {
                assert(entry@.query_types[j as int] == entry.query_types@[j as int]@);
            }
            if !resolve_type_name(&entry.query_types[j]) {
                return Result::Err(GenError::UnresolvedName { entry_index: i as u64 });
            }
            let is_receiver = entry.query_types[j].eq(&entry.model_name);
            by_ref.push(is_receiver);
            j += 1;
        }
        if !resolve_type_name(&entry.response_type) {
            return Result::Err(GenError::UnresolvedName { entry_index: i as u64 });
        }
        proof {
            assert(entry_resolves(es[i as int]));
        }
        let query_variant = VariantDef {
            variant_name: query_variant_string(entry.id),
            field_types: clone_strings(&entry.query_types),
        };
        let mut response_fields: Vec<String> = Vec::new();
        response_fields.push(entry.response_type.clone());
        let response_variant = VariantDef {
            variant_name: response_variant_string(entry.id),
            field_types: response_fields,
        };
        let arm = DispatchArm {
            model_name: entry.model_name.clone(),
            method_name: entry.method_name.clone(),
            by_ref,
        };
        proof {
            assert(query_variant@.field_types =~= es[i as int].query_types);
            assert(query_variant@ == query_variant_of(es[i as int]));
            assert(response_variant@.field_types =~= seq![es[i as int].response_type]);
            assert(response_variant@ == response_variant_of(es[i as int]));
            assert(arm@.by_ref =~= arm_of(es[i as int]).by_ref);
            assert(arm@ == arm_of(es[i as int]));
        }
        query_variants.push(query_variant);
        response_variants.push(response_variant);
        arms.push(arm);
        i += 1;
    }
    let p = Protocol { query_variants, response_variants, arms };
    proof {
        assert(p@.query_variants =~= protocol_of(es).query_variants);
        assert(p@.response_variants =~= protocol_of(es).response_variants);
        assert(p@.arms =~= protocol_of(es).arms);
    }
    Result::Ok(p)
}

/// Law: one query variant and one response variant per descriptor.  For
/// every finalized sequence of `N` descriptors whose ids are the
/// registration order `0..N-1`, the compiled protocol has exactly `N`
/// query variants and `N` response variants, and the variant at position
/// `i` is named from id `i`.
pub proof fn lemma_one_variant_per_descriptor(es: Seq<EntryModel>)
    requires
        forall|i: int| 0 <= i < es.len() ==> (#[trigger] es[i]).id == i,
    ensures
        protocol_of(es).query_variants.len() == es.len(),
        protocol_of(es).response_variants.len() == es.len(),
        forall|i: int|
            0 <= i < es.len() ==> (#[trigger] protocol_of(es).query_variants[i]).variant_name
                == query_variant_name(i as nat),
        forall|i: int|
            0 <= i < es.len() ==> (#[trigger] protocol_of(es).response_variants[i]).variant_name
                == response_variant_name(i as nat),
{
}

/// Law: the compiled wire variants are collision-free.  In a protocol
/// compiled from a finalized sequence, no two query variants and no
/// two response variants share a name.
pub proof fn lemma_protocol_names_collision_free(es: Seq<EntryModel>)
    requires
        forall|i: int| 0 <= i < es.len() ==> (#[trigger] es[i]).id == i,
    ensures
        forall|i: int, j: int|
            0 <= i < es.len() && 0 <= j < es.len() && i != j ==> {
                &&& (#[trigger] protocol_of(es).query_variants[i]).variant_name != (
                #[trigger] protocol_of(es).query_variants[j]).variant_name
                &&& protocol_of(es).response_variants[i].variant_name != protocol_of(
                    es,
                ).response_variants[j].variant_name
            },
{
    assert forall|i: int, j: int|
        0 <= i < es.len() && 0 <= j < es.len() && i != j implies {
        &&& (#[trigger] protocol_of(es).query_variants[i]).variant_name != (
        #[trigger] protocol_of(es).query_variants[j]).variant_name
        &&& protocol_of(es).response_variants[i].variant_name != protocol_of(
            es,
        ).response_variants[j].variant_name
    } by {
        crate::names::lemma_variant_names_collision_free(i as nat, j as nat);
    }
}

/// Law: generation is idempotent.  Compiling the same finalized
/// descriptor sequence twice yields structurally identical protocols:
/// same variant order, same field types, same names, same dispatch
/// table.
pub proof fn lemma_generation_idempotent(es: Seq<EntryModel>, p1: ProtocolModel, p2: ProtocolModel)
    requires
        p1 == protocol_of(es),
        p2 == protocol_of(es),
    ensures
        p1 == p2,
{
}

/// Copies a list of type names, field for field.
fn clone_strings(v: &Vec<String>) -> (r: Vec<String>)
    ensures
        r@.map_values(|s: String| s@) == v@.map_values(|s: String| s@),
{
    let mut r: Vec<String> = Vec::new();
    let mut i: usize = 0;
    while i < v.len()
        invariant
            i <= v@.len(),
            r@.len() == i,
            forall|k: int| 0 <= k < i ==> (#[trigger] r@[k])@ == v@[k]@,
        decreases v@.len() - i,
    {
        r.push(v[i].clone());
        i += 1;
    }
    proof {
        assert(r@.map_values(|s: String| s@) =~= v@.map_values(|s: String| s@));
    }
    r
}

} // verus!
