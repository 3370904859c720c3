//! The Stub Generator: one caller-side stub description per method.
//!
//! Each stub marshals its arguments into a generated argument record —
//! field order equal to declaration order, field names rewritten to the
//! wire-case convention — and addresses the remote operation by the method
//! name, passed through verbatim except for an optional configured command
//! prefix. The declared return shape selects the transport entry point: the
//! failure-decodable path for Outcome shapes, the plain path otherwise.

use vstd::prelude::*;
use vstd::string::StringExecFns;
use crate::errors::{DefinitionError, DefinitionFault};
use crate::schema::{
    classify_return, def_wf, is_outcome_type, method_names_distinct, method_wf, outcome_failure,
    outcome_success, param_name, shape_of, Binding, InterfaceDef, Method, Param, ReturnShape,
    TypeExpr,
};
use crate::text::{wire_case, wire_case_spec};

verus! {

/// One `key = "value"` entry of the generator's configuration surface.
#[derive(Debug, Clone, PartialEq, Eq)]
pub struct KeyValuePair {
    pub key: String,
    pub value: String,
}

/// The recognized configuration of the stub generator: an optional command
/// prefix prepended to every method's wire identifier.
#[derive(Debug, Clone, PartialEq, Eq)]
pub struct InvokeBindingAttrs {
    pub cmd_prefix: Option<String>,
}

/// The command prefix named by a configuration list: the value of its last
/// `cmd_prefix` entry, if any.
pub open spec fn prefix_of_pairs(pairs: Seq<KeyValuePair>) -> Option<Seq<char>>
    decreases pairs.len(),
{
    if pairs.len() == 0 {
        None
    } else if pairs.last().key@ == "cmd_prefix"@ {
        Some(pairs.last().value@)
    } else {
        prefix_of_pairs(pairs.drop_last())
    }
}

impl InvokeBindingAttrs {
    /// Collapses a configuration list; entries with unrecognized keys are
    /// ignored and the last `cmd_prefix` entry wins.
    pub fn from_pairs(pairs: &Vec<KeyValuePair>) -> (r: Self)
        ensures
            match r.cmd_prefix {
                None => prefix_of_pairs(pairs@) is None,
                Some(p) => prefix_of_pairs(pairs@) == Some(p@),
            },
    {
        let mut cmd_prefix: Option<String> = None;
        let mut i: usize = 0;
        while i < pairs.len()
            invariant
                i <= pairs@.len(),
                match cmd_prefix {
                    None => prefix_of_pairs(pairs@.take(i as int)) is None,
                    Some(p) => prefix_of_pairs(pairs@.take(i as int)) == Some(p@),
                },
            decreases pairs@.len() - i,
        {
            let kv = &pairs[i];
            if crate::text::str_eqs(&kv.key, "cmd_prefix") {
                cmd_prefix = Some(kv.value.clone());
            }
            proof {
                assert(pairs@.take(i + 1).drop_last() =~= pairs@.take(i as int));
                assert(pairs@.take(i + 1).last() == pairs@[i as int]);
            }
            i += 1;
        }
        proof {
            assert(pairs@.take(pairs@.len() as int) =~= pairs@);
        }
        InvokeBindingAttrs { cmd_prefix }
    }
}

/// One field of a generated argument record.
#[derive(Debug, PartialEq, Eq)]
pub struct RecordField {
    /// The parameter name as declared.
    pub source_name: String,
    /// The field name on the wire, rewritten to the wire-case convention.
    pub wire_name: String,
    /// The declared parameter type, carried through unchanged.
    pub ty: TypeExpr,
}

/// Which transport entry point a stub calls, and with which decode types.
#[derive(Debug, PartialEq, Eq)]
pub enum CallKind {
    /// The plain path: one decode type, no separately decodable failure
    /// branch.
    Plain(TypeExpr),
    /// The failure-decodable path: success and failure decode types.
    Outcome(TypeExpr, TypeExpr),
}

/// One generated caller-side stub.
#[derive(Debug, PartialEq, Eq)]
pub struct StubFn {
    /// The generated function keeps the declared method name.
    pub fn_name: String,
    /// The wire identifier: the method name, verbatim, behind the optional
    /// configured prefix.
    pub wire_ident: String,
    /// The generated argument record, one field per declared parameter, in
    /// declaration order.
    pub fields: Vec<RecordField>,
    /// The selected transport entry point.
    pub call: CallKind,
}

/// The wire identifier of a method under a configuration.
pub open spec fn wire_ident_of(attrs: InvokeBindingAttrs, name: Seq<char>) -> Seq<char> {
    match attrs.cmd_prefix {
        None => name,
        Some(p) => p@ + name,
    }
}

/// The transport entry point selected by a declared return type.
pub open spec fn call_kind_of(ret: TypeExpr) -> CallKind {
    match shape_of(ret) {
        ReturnShape::Unit => CallKind::Plain(TypeExpr::Unit),
        ReturnShape::Outcome(s, f) => CallKind::Outcome(s, f),
        ReturnShape::Opaque(t) => CallKind::Plain(t),
    }
}

/// A record field correctly generated from a declared parameter.
pub open spec fn field_matches(f: RecordField, p: Param) -> bool {
    f.source_name@ == param_name(p) && f.wire_name@ == wire_case_spec(param_name(p)) && f.ty
        == p.ty
}

/// A stub correctly generated from a method under a configuration.
pub open spec fn stub_matches(s: StubFn, m: Method, attrs: InvokeBindingAttrs) -> bool {
    s.fn_name@ == m.name@ && s.wire_ident@ == wire_ident_of(attrs, m.name@) && s.fields@.len()
        == m.params@.len() && (forall|j: int|
        0 <= j < m.params@.len() ==> field_matches(#[trigger] s.fields@[j], m.params@[j]))
        && s.call == call_kind_of(m.ret)
}

/// The complete characterization of a successful stub generation pass.
pub open spec fn stubs_match(stubs: Seq<StubFn>, def: InterfaceDef, attrs: InvokeBindingAttrs) -> bool {
    stubs.len() == def.methods@.len() && (forall|i: int|
        0 <= i < stubs.len() ==> stub_matches(#[trigger] stubs[i], def.methods@[i], attrs))
}

/// A definition error correctly describes a fault that is really present
/// in the given method list.
pub open spec fn stub_error_witnessed(methods: Seq<Method>, e: DefinitionError) -> bool {
    match e.fault {
        DefinitionFault::DuplicateMethod => exists|i: int, j: int|
            0 <= i < j < methods.len() && (#[trigger] methods[i]).name@ == (
            #[trigger] methods[j]).name@ && e.item@ == methods[j].name@,
        DefinitionFault::ReceiverParam => exists|i: int, j: int|
            0 <= i < methods.len() && 0 <= j < (#[trigger] methods[i]).params@.len() && (
            #[trigger] methods[i].params@[j]).binding is Receiver && e.item@ == methods[i].name@
                && e.detail@ == "self"@,
        DefinitionFault::UnsupportedPattern => exists|i: int, j: int|
            0 <= i < methods.len() && 0 <= j < (#[trigger] methods[i]).params@.len() && (
            #[trigger] methods[i].params@[j]).binding is Pattern && e.item@ == methods[i].name@
                && e.detail@ == param_name(methods[i].params@[j]),
        DefinitionFault::DuplicateParam => exists|i: int, j: int, k: int|
            0 <= i < methods.len() && 0 <= j < k < (#[trigger] methods[i]).params@.len()
                && param_name(#[trigger] methods[i].params@[j]) == param_name(
                #[trigger] methods[i].params@[k]) && e.item@ == methods[i].name@ && e.detail@
                == param_name(methods[i].params@[k]),
        _ => false,
    }
}

/// A witnessed fault refutes well-formedness.
pub(crate) proof fn lemma_witness_refutes_wf(methods: Seq<Method>, e: DefinitionError)
    requires
        stub_error_witnessed(methods, e),
    ensures
        !crate::schema::methods_wf(methods),
{
    match e.fault {
        DefinitionFault::DuplicateMethod => {
            let (i, j) = choose|i: int, j: int|
                0 <= i < j < methods.len() && (#[trigger] methods[i]).name@ == (
                #[trigger] methods[j]).name@ && e.item@ == methods[j].name@;
            assert(!method_names_distinct(methods));
        },
        DefinitionFault::ReceiverParam => {
            let (i, j) = choose|i: int, j: int|
                0 <= i < methods.len() && 0 <= j < (#[trigger] methods[i]).params@.len() && (
                #[trigger] methods[i].params@[j]).binding is Receiver && e.item@
                    == methods[i].name@ && e.detail@ == "self"@;
            assert(!method_wf(methods[i]));
        },
        DefinitionFault::UnsupportedPattern => {
            let (i, j) = choose|i: int, j: int|
                0 <= i < methods.len() && 0 <= j < (#[trigger] methods[i]).params@.len() && (
                #[trigger] methods[i].params@[j]).binding is Pattern && e.item@
                    == methods[i].name@ && e.detail@ == param_name(methods[i].params@[j]);
            assert(!method_wf(methods[i]));
        },
        DefinitionFault::DuplicateParam => {
            let (i, j, k) = choose|i: int, j: int, k: int|
                0 <= i < methods.len() && 0 <= j < k < (#[trigger] methods[i]).params@.len()
                    && param_name(#[trigger] methods[i].params@[j]) == param_name(
                    #[trigger] methods[i].params@[k]) && e.item@ == methods[i].name@ && e.detail@
                    == param_name(methods[i].params@[k]);
            assert(!method_wf(methods[i]));
        },
        _ => {},
    }
}

/// Generates the caller-side stubs for an interface definition, consuming
/// it. Succeeds exactly on well-formed definitions; otherwise aborts with
/// the offending method (and parameter) named.
pub fn invoke_bindings(def: InterfaceDef, attrs: &InvokeBindingAttrs) -> (r: Result<
    Vec<StubFn>,
    DefinitionError,
>)
    ensures
        r is Ok <==> def_wf(def),
        r matches Ok(stubs) ==> stubs_match(stubs@, def, *attrs),
        r matches Err(e) ==> stub_error_witnessed(def.methods@, e),
{
    let ghost orig = def.methods@;
    let mut methods = def.methods;
    let mut stubs: Vec<StubFn> = Vec::new();
    let mut seen: Vec<String> = Vec::new();
    while methods.len() > 0
        invariant
            orig == def.methods@,
            orig.len() == stubs@.len() + methods@.len(),
            methods@ == orig.skip(stubs@.len() as int),
            seen@.len() == stubs@.len(),
            forall|k: int| 0 <= k < seen@.len() ==> (#[trigger] seen@[k])@ == orig[k].name@,
            forall|k: int|
                0 <= k < stubs@.len() ==> stub_matches(#[trigger] stubs@[k], orig[k], *attrs),
            forall|a: int, b: int|
                0 <= a < b < stubs@.len() ==> (#[trigger] orig[a]).name@ != (
                #[trigger] orig[b]).name@,
            forall|k: int| 0 <= k < stubs@.len() ==> method_wf(#[trigger] orig[k]),
        decreases methods@.len(),
    {
        let ghost mi = stubs@.len() as int;
        let m = methods.remove(0);
        proof {
            assert(m == orig[mi]);
            assert(methods@ =~= orig.skip(mi + 1));
        }
        let Method { name, params, ret } = m;

        let mut di: usize = 0;
        while di < seen.len()
            invariant
                orig == def.methods@,
                seen@.len() == mi,
                forall|k: int| 0 <= k < seen@.len() ==> (#[trigger] seen@[k])@ == orig[k].name@,
                name@ == orig[mi].name@,
                0 <= mi < orig.len(),
                di <= seen@.len(),
                forall|k: int| 0 <= k < di ==> (#[trigger] orig[k]).name@ != name@,
            decreases seen@.len() - di,
        {
            if seen[di] == name {
                let e = DefinitionError {
                    fault: DefinitionFault::DuplicateMethod,
                    item: name,
                    detail: String::new(),
                };
                proof {
                    assert(def.methods@ == orig);
                    assert(stub_error_witnessed(orig, e)) by {
                        assert(0 <= di < mi < orig.len() && orig[di as int].name@
                            == orig[mi].name@ && e.item@ == orig[mi].name@);
                    }
                    lemma_witness_refutes_wf(orig, e);
                }
                return Err(e);
            }
            di += 1;
        }

        let ghost op = params@;
        let mut params = params;
        let mut fields: Vec<RecordField> = Vec::new();
        while params.len() > 0
            invariant
                orig == def.methods@,
                op.len() == fields@.len() + params@.len(),
                params@ == op.skip(fields@.len() as int),
                0 <= mi < orig.len(),
                name@ == orig[mi].name@,
                op == orig[mi].params@,
                forall|l: int|
                    0 <= l < fields@.len() ==> field_matches(#[trigger] fields@[l], op[l]),
                forall|l: int| 0 <= l < fields@.len() ==> (#[trigger] op[l]).binding is Name,
                forall|a: int, b: int|
                    0 <= a < b < fields@.len() ==> param_name(#[trigger] op[a]) != param_name(
                        #[trigger] op[b]),
            decreases params@.len(),
        {
            let ghost pj = fields@.len() as int;
            let p = params.remove(0);
            proof {
                assert(p == op[pj]);
                assert(params@ =~= op.skip(pj + 1));
            }
            let Param { binding, ty } = p;
            match binding {
                Binding::Receiver => {
                    let e = DefinitionError {
                        fault: DefinitionFault::ReceiverParam,
                        item: name,
                        detail: String::from_str("self"),
                    };
                    proof {
                        assert(def.methods@ == orig);
                        assert(stub_error_witnessed(orig, e)) by {
                            assert(0 <= mi < orig.len() && 0 <= pj < orig[mi].params@.len()
                                && orig[mi].params@[pj].binding is Receiver && e.item@
                                == orig[mi].name@ && e.detail@ == "self"@);
                        }
                        lemma_witness_refutes_wf(orig, e);
                    }
                    return Err(e);
                },
                Binding::Pattern(text) => {
                    let e = DefinitionError {
                        fault: DefinitionFault::UnsupportedPattern,
                        item: name,
                        detail: text,
                    };
                    proof {
                        assert(def.methods@ == orig);
                        assert(stub_error_witnessed(orig, e)) by {
                            assert(0 <= mi < orig.len() && 0 <= pj < orig[mi].params@.len()
                                && orig[mi].params@[pj].binding is Pattern && e.item@
                                == orig[mi].name@ && e.detail@ == param_name(
                                orig[mi].params@[pj]));
                        }
                        lemma_witness_refutes_wf(orig, e);
                    }
                    return Err(e);
                },
                Binding::Name(pname) => {
                    let mut fi: usize = 0;
                    while fi < fields.len()
                        invariant
                            orig == def.methods@,
                            0 <= pj < op.len(),
                            fields@.len() == pj,
                            op == orig[mi].params@,
                            0 <= mi < orig.len(),
                            pname@ == param_name(op[pj]),
                            name@ == orig[mi].name@,
                            forall|l: int|
                                0 <= l < fields@.len() ==> field_matches(
                                    #[trigger] fields@[l],
                                    op[l],
                                ),
                            fi <= fields@.len(),
                            forall|l: int|
                                0 <= l < fi ==> param_name(#[trigger] op[l]) != pname@,
                        decreases fields@.len() - fi,
                    {
                        proof {
                            assert(field_matches(fields@[fi as int], op[fi as int]));
                        }
                        if fields[fi].source_name == pname {
                            let e = DefinitionError {
                                fault: DefinitionFault::DuplicateParam,
                                item: name,
                                detail: pname,
                            };
                            proof {
                                assert(def.methods@ == orig);
                                assert(stub_error_witnessed(orig, e)) by {
                                    assert(0 <= mi < orig.len() && 0 <= fi < pj
                                        < orig[mi].params@.len() && param_name(
                                        orig[mi].params@[fi as int]) == param_name(
                                        orig[mi].params@[pj]) && e.item@ == orig[mi].name@
                                        && e.detail@ == param_name(orig[mi].params@[pj]));
                                }
                                lemma_witness_refutes_wf(orig, e);
                            }
                            return Err(e);
                        }
                        fi += 1;
                    }
                    let wire_name = wire_case(pname.as_str());
                    fields.push(RecordField { source_name: pname, wire_name, ty });
                },
            }
        }
        proof {
            assert(fields@.len() == op.len());
            assert(method_wf(orig[mi]));
        }

        let shape = classify_return(ret);
        let call = match shape {
            ReturnShape::Unit => CallKind::Plain(TypeExpr::Unit),
            ReturnShape::Outcome(s, f) => CallKind::Outcome(s, f),
            ReturnShape::Opaque(t) => CallKind::Plain(t),
        };
        let wire_ident = match &attrs.cmd_prefix {
            None => name.clone(),
            Some(p) => p.clone().concat(name.as_str()),
        };
        seen.push(name.clone());
        stubs.push(StubFn { fn_name: name, wire_ident, fields, call });
    }
    proof {
        assert(stubs@.len() == orig.len());
        assert(def.methods@ == orig);
        assert(def_wf(def));
    }
    Ok(stubs)
}

/// Law: parameter order in a generated argument record always equals
/// declaration order — for every method of the definition, the record's
/// field at any position was generated from the parameter declared at that
/// same position, and carries its type unchanged.
pub proof fn lemma_record_preserves_declaration_order(
    stubs: Seq<StubFn>,
    def: InterfaceDef,
    attrs: InvokeBindingAttrs,
    i: int,
    j: int,
)
    requires
        stubs_match(stubs, def, attrs),
        0 <= i < stubs.len(),
        0 <= j < stubs[i].fields@.len(),
    ensures
        stubs[i].fields@.len() == def.methods@[i].params@.len(),
        stubs[i].fields@[j].source_name@ == param_name(def.methods@[i].params@[j]),
        stubs[i].fields@[j].wire_name@ == wire_case_spec(param_name(def.methods@[i].params@[j])),
        stubs[i].fields@[j].ty == def.methods@[i].params@[j].ty,
{
}

/// Law: wire-case field naming is deterministic — any two stub sets
/// generated from one unchanged interface definition under one
/// configuration agree on every wire identifier and on every record field
/// name.
pub proof fn lemma_wire_naming_deterministic(
    s1: Seq<StubFn>,
    s2: Seq<StubFn>,
    def: InterfaceDef,
    attrs: InvokeBindingAttrs,
    i: int,
)
    requires
        stubs_match(s1, def, attrs),
        stubs_match(s2, def, attrs),
        0 <= i < s1.len(),
    ensures
        s1.len() == s2.len(),
        s1[i].wire_ident@ == s2[i].wire_ident@,
        s1[i].fields@.len() == s2[i].fields@.len(),
        forall|j: int|
            0 <= j < s1[i].fields@.len() ==> (#[trigger] s1[i].fields@[j]).wire_name@
                == s2[i].fields@[j].wire_name@,
{
    assert forall|j: int| 0 <= j < s1[i].fields@.len() implies (
    #[trigger] s1[i].fields@[j]).wire_name@ == s2[i].fields@[j].wire_name@ by {
        assert(field_matches(s1[i].fields@[j], def.methods@[i].params@[j]));
        assert(field_matches(s2[i].fields@[j], def.methods@[i].params@[j]));
    }
}

/// Law: a generated stub takes the failure-decodable transport path
/// exactly when its method's declared return is the Outcome shape, and
/// then decodes the success and failure branches at the declared types; on
/// every other shape it takes the plain path, and no failure branch is
/// decoded.
pub proof fn lemma_outcome_path_selection(
    stubs: Seq<StubFn>,
    def: InterfaceDef,
    attrs: InvokeBindingAttrs,
    i: int,
)
    requires
        stubs_match(stubs, def, attrs),
        0 <= i < stubs.len(),
    ensures
        stubs[i].call is Outcome <==> is_outcome_type(def.methods@[i].ret),
        stubs[i].call matches CallKind::Outcome(s, f) ==> s == outcome_success(def.methods@[i].ret)
            && f == outcome_failure(def.methods@[i].ret),
{
    assert(stubs[i].call == call_kind_of(def.methods@[i].ret));
    assert(call_kind_of(def.methods@[i].ret) is Outcome <==> shape_of(def.methods@[i].ret)
        is Outcome);
}

} // verus!
