//! Descriptors and the registrar.
//!
//! A method declaration is registered once per generation pass; the
//! registrar appends a descriptor for it and assigns the descriptor an id
//! equal to the registry length at the moment of registration.  Ids are
//! therefore zero-based, sequential, and stable: nothing is ever removed
//! or reordered, and re-registering an identical method simply produces a
//! second, distinct descriptor.

use vstd::prelude::*;

verus! {

/// One method declaration, as handed to the registrar.
///
/// The receiver is not spelled as a parameter: `takes_receiver` records
/// whether the method takes one, and the owner's type name is substituted
/// for it at registration time.  `return_type_name` of `None` means the
/// method produces no value; the unit type is recorded for it.
pub struct MethodDecl {
    pub method_name: String,
    pub takes_receiver: bool,
    pub param_type_names: Vec<String>,
    pub return_type_name: Option<String>,
}

/// Mathematical model of a `MethodDecl`.
pub ghost struct DeclModel {
    pub method_name: Seq<char>,
    pub takes_receiver: bool,
    pub param_type_names: Seq<Seq<char>>,
    pub return_type_name: Option<Seq<char>>,
}

impl View for MethodDecl {
    type V = DeclModel;

    open spec fn view(&self) -> DeclModel {
        DeclModel {
            method_name: self.method_name@,
            takes_receiver: self.takes_receiver,
            param_type_names: self.param_type_names@.map_values(|s: String| s@),
            return_type_name: match self.return_type_name {
                Option::Some(t) => Option::Some(t@),
                Option::None => Option::None,
            },
        }
    }
}

/// One registered descriptor: everything the protocol compiler needs to
/// know about one exposed method.
pub struct RpcEntry {
    /// Registration order, zero-based; equals the registry length at the
    /// moment this entry was appended.
    pub id: u64,
    /// Name of the declaring type.
    pub model_name: String,
    /// Name of the method.
    pub method_name: String,
    /// Type names of the parameters in order, the receiver's type first
    /// when the method takes a receiver.
    pub query_types: Vec<String>,
    /// Type name of the produced value; the unit type if none.
    pub response_type: String,
}

/// Mathematical model of an `RpcEntry`.
pub ghost struct EntryModel {
    pub id: int,
    pub model_name: Seq<char>,
    pub method_name: Seq<char>,
    pub query_types: Seq<Seq<char>>,
    pub response_type: Seq<char>,
}

impl View for RpcEntry {
    type V = EntryModel;

    open spec fn view(&self) -> EntryModel {
        EntryModel {
            id: self.id as int,
            model_name: self.model_name@,
            method_name: self.method_name@,
            query_types: self.query_types@.map_values(|s: String| s@),
            response_type: self.response_type@,
        }
    }
}

/// The parameter type names a declaration contributes to its query
/// variant: the owner's type stands first when the method takes a
/// receiver.
pub open spec fn query_types_of(owner: Seq<char>, d: DeclModel) -> Seq<Seq<char>> {
    if d.takes_receiver {
        seq![owner] + d.param_type_names
    } else {
        d.param_type_names
    }
}

/// The recorded return type name: the declared one, or the unit type.
pub open spec fn return_type_of(d: DeclModel) -> Seq<char> {
    match d.return_type_name {
        Option::Some(t) => t,
        Option::None => "()"@,
    }
}

/// The descriptor produced by registering `d` on owner `owner` when the
/// registry holds `id` entries.
pub open spec fn entry_of(id: int, owner: Seq<char>, d: DeclModel) -> EntryModel {
    EntryModel {
        id: id,
        model_name: owner,
        method_name: d.method_name,
        query_types: query_types_of(owner, d),
        response_type: return_type_of(d),
    }
}

/// The view of a finalized descriptor sequence.
pub open spec fn entries_view(v: Seq<RpcEntry>) -> Seq<EntryModel> {
    v.map_values(|e: RpcEntry| e@)
}

/// An impl block: one owner type and its method declarations, registered
/// as a unit in declaration order.
pub struct ServiceDecl {
    pub self_type: String,
    pub methods: Vec<MethodDecl>,
}

/// The descriptors produced by registering `methods` on `owner`, the
/// first one getting id `base`.
pub open spec fn entries_of(base: int, owner: Seq<char>, methods: Seq<DeclModel>) -> Seq<
    EntryModel,
> {
    Seq::new(methods.len(), |k: int| entry_of(base + k, owner, methods[k]))
}

proof fn lemma_map_values_push<A, B>(s: Seq<A>, x: A, f: spec_fn(A) -> B)
    ensures
        s.push(x).map_values(f) =~= s.map_values(f).push(f(x)),
{
    assert forall|j: int| 0 <= j < s.push(x).map_values(f).len() implies s.push(x).map_values(f)[j]
        == s.map_values(f).push(f(x))[j] by {
        if j < s.len() {
            assert(s.push(x)[j] == s[j]);
        } else {
            assert(s.push(x)[j] == x);
        }
    }
}

/// Append-only collector of descriptors for one generation pass.
/// Registration takes the registrar exclusively, the single-writer
/// discipline that keeps the id = append-order invariant.
pub struct Registrar {
    entries: Vec<RpcEntry>,
}

impl View for Registrar {
    type V = Seq<EntryModel>;

    closed spec fn view(&self) -> Seq<EntryModel> {
        entries_view(self.entries@)
    }
}

impl Registrar {
    /// Every id equals its position: the registration-order invariant.
    pub open spec fn wf(&self) -> bool {
        forall|i: int| 0 <= i < self@.len() ==> (#[trigger] self@[i]).id == i
    }

    /// A fresh, empty registry.
    pub fn new() -> (r: Registrar)
        ensures
            r@ == Seq::<EntryModel>::empty(),
            r.wf(),
    {
        Registrar { entries: Vec::new() }
    }

    /// Number of descriptors registered so far.
    pub fn len(&self) -> (n: usize)
        ensures
            n == self@.len(),
    {
        self.entries.len()
    }

    /// Registers one method declaration: appends its descriptor and
    /// returns the assigned id, which equals the previous length.
    /// Registration always succeeds; duplicates are tolerated, not
    /// rejected.
    pub fn register_rpc(&mut self, owner: &String, decl: &MethodDecl) -> (id: u64)
        requires
            old(self).wf(),
            old(self)@.len() < u64::MAX,
        ensures
            final(self).wf(),
            id == old(self)@.len(),
            final(self)@ == old(self)@.push(entry_of(old(self)@.len() as int, owner@, decl@)),
    {
        let id = self.entries.len() as u64;
        let mut query_types: Vec<String> = Vec::new();
        if decl.takes_receiver {
            query_types.push(owner.clone());
        }
        let ghost head: Seq<Seq<char>> = query_types@.map_values(|s: String| s@);
        proof {
            if decl.takes_receiver {
                assert(head =~= seq![owner@]);
            } else {
                assert(head =~= Seq::<Seq<char>>::empty());
            }
        }
        let mut i: usize = 0;
        while i < decl.param_type_names.len()
            invariant
                i <= decl.param_type_names.len(),
                query_types@.map_values(|s: String| s@) =~= head + decl@.param_type_names.take(
                    i as int,
                ),
            decreases decl.param_type_names.len() - i,
        {
            let ghost prev = query_types@;
            query_types.push(decl.param_type_names[i].clone());
            proof {
                lemma_map_values_push(prev, query_types@.last(), |s: String| s@);
                assert(decl@.param_type_names[i as int] == decl.param_type_names@[i as int]@);
                assert(decl@.param_type_names.take(i + 1) =~= decl@.param_type_names.take(
                    i as int,
                ).push(decl@.param_type_names[i as int]));
                assert(query_types@.map_values(|s: String| s@) =~= head
                    + decl@.param_type_names.take(i + 1));
            }
            i += 1;
        }
        proof {
            assert(decl@.param_type_names.take(decl.param_type_names.len() as int)
                =~= decl@.param_type_names);
            assert(query_types@.map_values(|s: String| s@) =~= query_types_of(owner@, decl@));
        }
        let response_type: String = match &decl.return_type_name {
            Option::Some(t) => t.clone(),
            Option::None => {
                proof {
                    reveal_strlit("()");
                }
                "()".to_owned()
            },
        };
        let entry = RpcEntry {
            id,
            model_name: owner.clone(),
            method_name: decl.method_name.clone(),
            query_types,
            response_type,
        };
        proof {
            assert(entry@ == entry_of(old(self)@.len() as int, owner@, decl@));
        }
        let ghost prev_entries = self.entries@;
        let ghost entry_model = entry@;
        self.entries.push(entry);
        proof {
            lemma_map_values_push(prev_entries, self.entries@.last(), |e: RpcEntry| e@);
            assert(self@ =~= old(self)@.push(entry_of(old(self)@.len() as int, owner@, decl@)));
        }
        id
    }

    /// Registers every method of one impl block, in declaration order.
    /// The block's descriptors are appended as a contiguous run whose ids
    /// continue from the previous registry length.
    pub fn register_rpcs(&mut self, svc: &ServiceDecl)
        requires
            old(self).wf(),
            old(self)@.len() + svc.methods@.len() < u64::MAX,
        ensures
            final(self).wf(),
            final(self)@ == old(self)@ + entries_of(
                old(self)@.len() as int,
                svc.self_type@,
                decls_view(svc.methods@),
            ),
    {
        let ghost base = old(self)@.len() as int;
        let ghost ms = decls_view(svc.methods@);
        let mut k: usize = 0;
        while k < svc.methods.len()
            invariant
                self.wf(),
                k <= svc.methods@.len(),
                self@.len() == old(self)@.len() + k,
                old(self)@.len() + svc.methods@.len() < u64::MAX,
                ms == decls_view(svc.methods@),
                base == old(self)@.len() as int,
                self@ =~= old(self)@ + entries_of(base, svc.self_type@, ms.take(k as int)),
            decreases svc.methods@.len() - k,
        {
            self.register_rpc(&svc.self_type, &svc.methods[k]);
            proof {
                assert(ms[k as int] == svc.methods@[k as int]@);
                assert(self@ =~= old(self)@ + entries_of(base, svc.self_type@, ms.take(
                    k as int + 1,
                )));
            }
            k += 1;
        }
        proof {
            assert(ms.take(svc.methods@.len() as int) =~= ms);
            assert(self@ =~= old(self)@ + entries_of(base, svc.self_type@, ms));
        }
    }

    /// Hands out the finalized, ordered descriptor snapshot for code
    /// generation.  To be called once, after all registrations of the
    /// generation pass.
    pub fn finalize(self) -> (r: Vec<RpcEntry>)
        ensures
            entries_view(r@) == self@,
    {
        let Registrar { entries } = self;
        entries
    }
}

/// The view of an impl block's method declarations.
pub open spec fn decls_view(v: Seq<MethodDecl>) -> Seq<DeclModel> {
    v.map_values(|m: MethodDecl| m@)
}

} // verus!
