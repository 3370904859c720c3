//! The Dispatch Generator: callee-side registration from handler bindings.
//!
//! Given a contract name, a list of handler bindings (full signatures, as
//! the implementation author wrote them) and a host-context marker, it
//! emits a dispatch table: per handler, the public contract signature with
//! every host-context parameter stripped, and the generated call's binding
//! list, which retains every parameter and renames the stripped ones to a
//! discarded binding. Host-owned state thus reaches the handlers without
//! leaking into the interface contract shared with the caller side.

use vstd::prelude::*;
use vstd::string::StringExecFns;
use crate::errors::{DefinitionError, DefinitionFault};
use crate::schema::{method_wf, methods_wf, param_name, Binding, Method, Param, TypeExpr};
use crate::stubgen::{lemma_witness_refutes_wf, stub_error_witnessed};
use crate::text::str_eqs;

verus! {

/// The input of the Dispatch Generator: the contract's name and the
/// handler bindings, one per method, with their full declared signatures.
/// Handler bodies belong to the implementation author and are not
/// inspected.
#[derive(Debug, PartialEq, Eq)]
pub struct ImplTrait {
    pub trait_ident: String,
    pub fns: Vec<Method>,
}

/// One entry of the generated dispatch table.
#[derive(Debug, PartialEq, Eq)]
pub struct DispatchEntry {
    /// The wire key: the handler's method name, verbatim.
    pub method_name: String,
    /// The public contract signature: the declared parameters with every
    /// host-context parameter stripped, order preserved.
    pub public_params: Vec<Param>,
    /// The bindings of the generated call: every declared parameter in
    /// order, host-context ones renamed to a discarded binding so they are
    /// not reported as unused.
    pub call_bindings: Vec<String>,
    /// The declared return type, carried through unchanged.
    pub ret: TypeExpr,
}

/// The generated dispatch table: a hidden conforming implementor bound to
/// the complete handler set, keyed by method name. Built once, read-only
/// afterward.
#[derive(Debug, PartialEq, Eq)]
pub struct DispatchTable {
    /// The name of the hidden implementor type that satisfies the full
    /// interface definition.
    pub hidden_impl_name: String,
    pub entries: Vec<DispatchEntry>,
}

/// Whether a parameter is host-injected: its declared type's leading
/// name-segment equals the host-context marker.
pub open spec fn is_host_param(p: Param, marker: Seq<char>) -> bool {
    match p.ty {
        TypeExpr::Named { segments, args } => segments@.len() > 0 && segments@[0]@ == marker,
        _ => false,
    }
}

/// The public contract signature of a handler: the parameters that are not
/// host-injected, in declaration order.
pub open spec fn kept_params(ps: Seq<Param>, marker: Seq<char>) -> Seq<Param>
    decreases ps.len(),
{
    if ps.len() == 0 {
        Seq::empty()
    } else {
        let prefix = kept_params(ps.drop_last(), marker);
        if is_host_param(ps.last(), marker) {
            prefix
        } else {
            prefix.push(ps.last())
        }
    }
}

/// Law: stripping removes exactly the host-injected parameters and no
/// others — the public signature is the filtering of the declared
/// parameter list by "not host-injected", so every surviving parameter is
/// a non-host parameter, every non-host parameter survives, and their
/// relative order is preserved.
pub proof fn lemma_strips_exactly_host_params(ps: Seq<Param>, marker: Seq<char>)
    ensures
        kept_params(ps, marker) == ps.filter(|p: Param| !is_host_param(p, marker)),
    decreases ps.len(),
{
    reveal(Seq::filter);
    if ps.len() > 0 {
        lemma_strips_exactly_host_params(ps.drop_last(), marker);
    }
}

/// The name a parameter is bound to in the generated call: its declared
/// name, behind a discard prefix when the parameter is host-injected.
pub open spec fn call_binding_of(p: Param, marker: Seq<char>) -> Seq<char> {
    if is_host_param(p, marker) {
        "_"@ + param_name(p)
    } else {
        param_name(p)
    }
}

/// A dispatch entry correctly generated from a handler binding.
pub open spec fn entry_matches(en: DispatchEntry, h: Method, marker: Seq<char>) -> bool {
    en.method_name@ == h.name@ && en.public_params@ == kept_params(h.params@, marker)
        && en.call_bindings@.len() == h.params@.len() && (forall|j: int|
        0 <= j < h.params@.len() ==> (#[trigger] en.call_bindings@[j])@ == call_binding_of(
            h.params@[j],
            marker,
        )) && en.ret == h.ret
}

/// The complete characterization of a successful dispatch generation pass.
pub open spec fn table_matches(t: DispatchTable, input: ImplTrait, marker: Seq<char>) -> bool {
    t.hidden_impl_name@ == "__Impl"@ + input.trait_ident@ && t.entries@.len() == input.fns@.len()
        && (forall|i: int|
        0 <= i < t.entries@.len() ==> entry_matches(
            #[trigger] t.entries@[i],
            input.fns@[i],
            marker,
        ))
}

/// Generates the callee-side dispatch table for a set of handler bindings,
/// consuming them. Succeeds exactly on well-formed handler lists;
/// otherwise aborts with the offending handler (and parameter) named.
pub fn impl_trait(input: ImplTrait, host_marker: &String) -> (r: Result<
    DispatchTable,
    DefinitionError,
>)
    ensures
        r is Ok <==> methods_wf(input.fns@),
        r matches Ok(t) ==> table_matches(t, input, host_marker@),
        r matches Err(e) ==> stub_error_witnessed(input.fns@, e),
{
    let ghost orig = input.fns@;
    let ghost marker = host_marker@;
    let hidden_impl_name = String::from_str("__Impl").concat(input.trait_ident.as_str());
    let mut handlers = input.fns;
    let mut entries: Vec<DispatchEntry> = Vec::new();
    while handlers.len() > 0
        invariant
            orig == input.fns@,
            marker == host_marker@,
            orig.len() == entries@.len() + handlers@.len(),
            handlers@ == orig.skip(entries@.len() as int),
            forall|k: int|
                0 <= k < entries@.len() ==> entry_matches(#[trigger] entries@[k], orig[k], marker),
            forall|a: int, b: int|
                0 <= a < b < entries@.len() ==> (#[trigger] orig[a]).name@ != (
                #[trigger] orig[b]).name@,
            forall|k: int| 0 <= k < entries@.len() ==> method_wf(#[trigger] orig[k]),
        decreases handlers@.len(),
    {
        let ghost mi = entries@.len() as int;
        let h = handlers.remove(0);
        proof {
            assert(h == orig[mi]);
            assert(handlers@ =~= orig.skip(mi + 1));
        }
        let Method { name, params, ret } = h;

        let mut di: usize = 0;
        while di < entries.len()
            invariant
                marker == host_marker@,
                orig == input.fns@,
                entries@.len() == mi,
                forall|k: int|
                    0 <= k < entries@.len() ==> entry_matches(
                        #[trigger] entries@[k],
                        orig[k],
                        marker,
                    ),
                name@ == orig[mi].name@,
                0 <= mi < orig.len(),
                di <= entries@.len(),
                forall|k: int| 0 <= k < di ==> (#[trigger] orig[k]).name@ != name@,
            decreases entries@.len() - di,
        {
            proof {
                assert(entry_matches(entries@[di as int], orig[di as int], marker));
            }
            if entries[di].method_name == name {
                let e = DefinitionError {
                    fault: DefinitionFault::DuplicateMethod,
                    item: name,
                    detail: String::new(),
                };
                proof {
                    assert(stub_error_witnessed(orig, e)) by {
                        assert(0 <= di < mi < orig.len() && orig[di as int].name@
                            == orig[mi].name@ && e.item@ == orig[mi].name@);
                    }
                    lemma_witness_refutes_wf(orig, e);
                }
                return Err(e);
            }
            di += 1;
        }

        let ghost op = params@;
        let mut params = params;
        let mut public_params: Vec<Param> = Vec::new();
        let mut call_bindings: Vec<String> = Vec::new();
        let mut names_seen: Vec<String> = Vec::new();
        while params.len() > 0
            invariant
                marker == host_marker@,
                orig == input.fns@,
                op == orig[mi].params@,
                0 <= mi < orig.len(),
                name@ == orig[mi].name@,
                op.len() == names_seen@.len() + params@.len(),
                params@ == op.skip(names_seen@.len() as int),
                call_bindings@.len() == names_seen@.len(),
                public_params@ == kept_params(op.take(names_seen@.len() as int), marker),
                forall|l: int|
                    0 <= l < names_seen@.len() ==> (#[trigger] names_seen@[l])@ == param_name(
                        op[l],
                    ),
                forall|l: int|
                    0 <= l < call_bindings@.len() ==> (#[trigger] call_bindings@[l])@
                        == call_binding_of(op[l], marker),
                forall|l: int| 0 <= l < names_seen@.len() ==> (#[trigger] op[l]).binding is Name,
                forall|a: int, b: int|
                    0 <= a < b < names_seen@.len() ==> param_name(#[trigger] op[a]) != param_name(
                        #[trigger] op[b],
                    ),
            decreases params@.len(),
        {
            let ghost pj = names_seen@.len() as int;
            let p = params.remove(0);
            proof {
                assert(p == op[pj]);
                assert(params@ =~= op.skip(pj + 1));
            }
            let Param { binding, ty } = p;
            match binding {
                Binding::Receiver => {
                    let e = DefinitionError {
                        fault: DefinitionFault::ReceiverParam,
                        item: name,
                        detail: String::from_str("self"),
                    };
                    proof {
                        assert(stub_error_witnessed(orig, e)) by {
                            assert(0 <= mi < orig.len() && 0 <= pj < orig[mi].params@.len()
                                && orig[mi].params@[pj].binding is Receiver && e.item@
                                == orig[mi].name@ && e.detail@ == "self"@);
                        }
                        lemma_witness_refutes_wf(orig, e);
                    }
                    return Err(e);
                },
                Binding::Pattern(text) => {
                    let e = DefinitionError {
                        fault: DefinitionFault::UnsupportedPattern,
                        item: name,
                        detail: text,
                    };
                    proof {
                        assert(stub_error_witnessed(orig, e)) by {
                            assert(0 <= mi < orig.len() && 0 <= pj < orig[mi].params@.len()
                                && orig[mi].params@[pj].binding is Pattern && e.item@
                                == orig[mi].name@ && e.detail@ == param_name(
                                orig[mi].params@[pj]));
                        }
                        lemma_witness_refutes_wf(orig, e);
                    }
                    return Err(e);
                },
                Binding::Name(pname) => {
                    let mut fi: usize = 0;
                    while fi < names_seen.len()
                        invariant
                            marker == host_marker@,
                            orig == input.fns@,
                            op == orig[mi].params@,
                            0 <= mi < orig.len(),
                            0 <= pj < op.len(),
                            names_seen@.len() == pj,
                            name@ == orig[mi].name@,
                            pname@ == param_name(op[pj]),
                            forall|l: int|
                                0 <= l < names_seen@.len() ==> (#[trigger] names_seen@[l])@
                                    == param_name(op[l]),
                            fi <= names_seen@.len(),
                            forall|l: int| 0 <= l < fi ==> param_name(#[trigger] op[l]) != pname@,
                        decreases names_seen@.len() - fi,
                    {
                        if names_seen[fi] == pname {
                            let e = DefinitionError {
                                fault: DefinitionFault::DuplicateParam,
                                item: name,
                                detail: pname,
                            };
                            proof {
                                assert(stub_error_witnessed(orig, e)) by {
                                    assert(0 <= mi < orig.len() && 0 <= fi < pj
                                        < orig[mi].params@.len() && param_name(
                                        orig[mi].params@[fi as int]) == param_name(
                                        orig[mi].params@[pj]) && e.item@ == orig[mi].name@
                                        && e.detail@ == param_name(orig[mi].params@[pj]));
                                }
                                lemma_witness_refutes_wf(orig, e);
                            }
                            return Err(e);
                        }
                        fi += 1;
                    }
                    let host = match &ty {
                        TypeExpr::Named { segments, args: _ } => segments.len() > 0 && str_eqs(
                            &segments[0],
                            host_marker.as_str(),
                        ),
                        _ => false,
                    };
                    if host {
                        call_bindings.push(String::from_str("_").concat(pname.as_str()));
                        proof {
                            assert(is_host_param(op[pj], marker));
                        }
                    } else {
                        call_bindings.push(pname.clone());
                        let kept = Param { binding: Binding::Name(pname.clone()), ty };
                        proof {
                            assert(kept == op[pj]);
                            assert(!is_host_param(op[pj], marker));
                        }
                        public_params.push(kept);
                    }
                    names_seen.push(pname);
                    proof {
                        assert(op.take(pj + 1).drop_last() =~= op.take(pj));
                        assert(op.take(pj + 1).last() == op[pj]);
                    }
                },
            }
        }
        proof {
            assert(op.take(op.len() as int) =~= op);
            assert(method_wf(orig[mi]));
        }

        entries.push(DispatchEntry { method_name: name, public_params, call_bindings, ret });
    }
    proof {
        assert(methods_wf(orig));
    }
    Ok(DispatchTable { hidden_impl_name, entries })
}

impl DispatchTable {
    /// Read-only lookup of a handler entry by its wire key; safe to share
    /// once the table is built, since nothing mutates it afterward.
    pub fn lookup(&self, method: &String) -> (r: Option<&DispatchEntry>)
        ensures
            match r {
                Some(en) => exists|i: int|
                    0 <= i < self.entries@.len() && *en == (#[trigger] self.entries@[i])
                        && en.method_name@ == method@,
                None => forall|i: int|
                    0 <= i < self.entries@.len() ==> (#[trigger] self.entries@[i]).method_name@
                        != method@,
            },
    {
        let mut i: usize = 0;
        while i < self.entries.len()
            invariant
                i <= self.entries@.len(),
                forall|k: int|
                    0 <= k < i ==> (#[trigger] self.entries@[k]).method_name@ != method@,
            decreases self.entries@.len() - i,
        {
            if self.entries[i].method_name == *method {
                return Some(&self.entries[i]);
            }
            i += 1;
        }
        None
    }
}

} // verus!
