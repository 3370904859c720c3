//! The interface schema: methods and events as explicit data.
//!
//! An interface definition is an ordered list of method signatures, the
//! single source of truth from which both sides of the process boundary are
//! generated. Type expressions are modelled structurally, deep enough for
//! the two questions the generators ask of them: whether a return type is
//! the two-parameter Outcome shape, and what the leading name-segment of a
//! parameter type is.

use vstd::prelude::*;
use crate::text::str_eqs;

verus! {

/// A declared type expression: the unit type, a tuple, or a (possibly
/// qualified, possibly generic) named type.
#[derive(Debug, PartialEq, Eq)]
pub enum TypeExpr {
    Unit,
    Tuple(Vec<TypeExpr>),
    Named { segments: Vec<String>, args: Vec<TypeExpr> },
}

/// How a parameter is bound in a method signature.
#[derive(Debug, PartialEq, Eq)]
pub enum Binding {
    /// A simple name, the only supported form.
    Name(String),
    /// An implicit receiver; rejected by the generators.
    Receiver,
    /// A destructuring pattern, recorded as source text; rejected by the
    /// generators.
    Pattern(String),
}

/// One declared parameter.
#[derive(Debug, PartialEq, Eq)]
pub struct Param {
    pub binding: Binding,
    pub ty: TypeExpr,
}

/// One method signature of an interface definition.
#[derive(Debug, PartialEq, Eq)]
pub struct Method {
    pub name: String,
    pub params: Vec<Param>,
    /// The declared return type; `TypeExpr::Unit` when the method returns
    /// no value.
    pub ret: TypeExpr,
}

/// An ordered interface definition, immutable once generation begins and
/// consumed exactly once per build.
#[derive(Debug, PartialEq, Eq)]
pub struct InterfaceDef {
    pub name: String,
    pub methods: Vec<Method>,
}

/// The classification of a declared return shape.
#[derive(Debug, PartialEq, Eq)]
pub enum ReturnShape {
    /// The method returns no value.
    Unit,
    /// The two-parameter Outcome shape: success type, then failure type.
    Outcome(TypeExpr, TypeExpr),
    /// Any other shape; the plain transport path is used and no failure
    /// branch is separately decodable.
    Opaque(TypeExpr),
}

/// The identifier whose two-parameter generic form is the Outcome shape.
pub open spec fn outcome_ident() -> Seq<char> {
    "Result"@
}

/// Whether a type expression is the Outcome shape: a named type whose last
/// segment is the Outcome identifier, with exactly two type arguments.
pub open spec fn is_outcome_type(t: TypeExpr) -> bool {
    match t {
        TypeExpr::Named { segments, args } => segments@.len() > 0
            && segments@.last()@ == outcome_ident() && args@.len() == 2,
        _ => false,
    }
}

/// The success type of an Outcome-shaped expression.
pub open spec fn outcome_success(t: TypeExpr) -> TypeExpr
    recommends
        is_outcome_type(t),
{
    match t {
        TypeExpr::Named { segments, args } => args@[0],
        _ => TypeExpr::Unit,
    }
}

/// The failure type of an Outcome-shaped expression.
pub open spec fn outcome_failure(t: TypeExpr) -> TypeExpr
    recommends
        is_outcome_type(t),
{
    match t {
        TypeExpr::Named { segments, args } => args@[1],
        _ => TypeExpr::Unit,
    }
}

/// The classification rule: Outcome for the two-parameter Outcome shape,
/// Unit for "no value", Opaque for everything else (any other number of
/// generic parameters, and tuples, included).
pub open spec fn shape_of(t: TypeExpr) -> ReturnShape {
    if is_outcome_type(t) {
        ReturnShape::Outcome(outcome_success(t), outcome_failure(t))
    } else if t is Unit {
        ReturnShape::Unit
    } else {
        ReturnShape::Opaque(t)
    }
}

/// Borrows the success and failure types out of an Outcome-shaped
/// expression, or reports that the expression has some other shape.
pub fn extract_result_types(ty: &TypeExpr) -> (r: Option<(&TypeExpr, &TypeExpr)>)
    ensures
        is_outcome_type(*ty) ==> (r matches Some((s, f)) && *s == outcome_success(*ty) && *f
            == outcome_failure(*ty)),
        !is_outcome_type(*ty) ==> r is None,
{
    match ty {
        TypeExpr::Named { segments, args } => {
            if segments.len() > 0 && args.len() == 2 {
                let last = &segments[segments.len() - 1];
                if str_eqs(last, "Result") {
                    Some((&args[0], &args[1]))
                } else {
                    None
                }
            } else {
                None
            }
        },
        _ => None,
    }
}

/// The Type Extraction Utility: consumes a declared return type and
/// classifies it as Outcome-shaped, Unit, or Opaque.
pub fn classify_return(ty: TypeExpr) -> (r: ReturnShape)
    ensures
        r == shape_of(ty),
{
    match ty {
        TypeExpr::Unit => ReturnShape::Unit,
        TypeExpr::Tuple(elems) => ReturnShape::Opaque(TypeExpr::Tuple(elems)),
        TypeExpr::Named { segments, args } => {
            let outcome = segments.len() > 0 && args.len() == 2 && str_eqs(
                &segments[segments.len() - 1],
                "Result",
            );
            if outcome {
                let mut args = args;
                let failure = args.pop().unwrap();
                let success = args.pop().unwrap();
                ReturnShape::Outcome(success, failure)
            } else {
                ReturnShape::Opaque(TypeExpr::Named { segments, args })
            }
        },
    }
}

/// The name a parameter is bound to; patterns and receivers carry their
/// source text for error reporting.
pub open spec fn param_name(p: Param) -> Seq<char> {
    match p.binding {
        Binding::Name(s) => s@,
        Binding::Pattern(s) => s@,
        Binding::Receiver => "self"@,
    }
}

/// Every parameter of the method is bound to a simple name.
pub open spec fn params_named(m: Method) -> bool {
    forall|j: int| 0 <= j < m.params@.len() ==> m.params@[j].binding is Name
}

/// Parameter names are unique within the method.
pub open spec fn params_distinct(m: Method) -> bool {
    forall|j: int, k: int|
        0 <= j < k < m.params@.len() ==> param_name(m.params@[j]) != param_name(m.params@[k])
}

/// A method the generators accept: simply-named, distinct parameters.
pub open spec fn method_wf(m: Method) -> bool {
    params_named(m) && params_distinct(m)
}

/// Method names are unique within the sequence.
pub open spec fn method_names_distinct(methods: Seq<Method>) -> bool {
    forall|i: int, j: int| 0 <= i < j < methods.len() ==> methods[i].name@ != methods[j].name@
}

/// A method list the generators accept: distinct names, each method
/// well-formed.
pub open spec fn methods_wf(methods: Seq<Method>) -> bool {
    method_names_distinct(methods) && (forall|i: int|
        0 <= i < methods.len() ==> method_wf(#[trigger] methods[i]))
}

/// An interface definition the generators accept.
pub open spec fn def_wf(def: InterfaceDef) -> bool {
    methods_wf(def.methods@)
}

} // verus!
