//! The contract of this application, as data: the methods both sides
//! agree on, and the events they share.
//!
//! These definitions are the single source of truth handed to the
//! generators, and double as builders for any caller assembling a schema
//! by hand.

use vstd::prelude::*;
use vstd::string::StringExecFns;
use crate::events::EventDefinition;
use crate::schema::{
    def_wf, is_outcome_type, outcome_failure, outcome_success, Binding, InterfaceDef, Method,
    Param, TypeExpr,
};

verus! {

/// A named type of exactly one path segment and no type arguments.
pub open spec fn is_simple_named(t: TypeExpr, ident: Seq<char>) -> bool {
    match t {
        TypeExpr::Named { segments, args } => segments@.len() == 1 && segments@[0]@ == ident
            && args@.len() == 0,
        _ => false,
    }
}

/// Builds a named type of one segment, without type arguments.
pub fn named(ident: &str) -> (r: TypeExpr)
    ensures
        is_simple_named(r, ident@),
{
    let mut segments: Vec<String> = Vec::new();
    segments.push(String::from_str(ident));
    TypeExpr::Named { segments, args: Vec::new() }
}

/// Builds the Outcome shape over the given success and failure types.
pub fn outcome_of(success: TypeExpr, failure: TypeExpr) -> (r: TypeExpr)
    ensures
        is_outcome_type(r),
        outcome_success(r) == success,
        outcome_failure(r) == failure,
{
    let mut segments: Vec<String> = Vec::new();
    segments.push(String::from_str("Result"));
    let mut args: Vec<TypeExpr> = Vec::new();
    args.push(success);
    args.push(failure);
    TypeExpr::Named { segments, args }
}

/// Builds a parameter bound to a simple name.
pub fn param(name: &str, ty: TypeExpr) -> (r: Param)
    ensures
        r.binding is Name,
        crate::schema::param_name(r) == name@,
        r.ty == ty,
{
    Param { binding: Binding::Name(String::from_str(name)), ty }
}

/// The interface definition of this application's contract: fetching this
/// node's serialized ticket, connecting through a peer's, and
/// broadcasting a message — each with an Outcome-shaped return whose
/// failure branch carries the error text.
pub fn api_interface() -> (r: InterfaceDef)
    ensures
        r.name@ == "API"@,
        r.methods@.len() == 3,
        r.methods@[0].name@ == "get_serialized_ticket"@,
        r.methods@[0].params@.len() == 0,
        is_outcome_type(r.methods@[0].ret),
        is_simple_named(outcome_success(r.methods@[0].ret), "String"@),
        is_simple_named(outcome_failure(r.methods@[0].ret), "String"@),
        r.methods@[1].name@ == "connect_via_serialized_ticket"@,
        r.methods@[1].params@.len() == 1,
        crate::schema::param_name(r.methods@[1].params@[0]) == "ticket"@,
        is_simple_named(r.methods@[1].params@[0].ty, "String"@),
        is_outcome_type(r.methods@[1].ret),
        is_simple_named(outcome_success(r.methods@[1].ret), "String"@),
        is_simple_named(outcome_failure(r.methods@[1].ret), "String"@),
        r.methods@[2].name@ == "broadcast_message"@,
        r.methods@[2].params@.len() == 1,
        crate::schema::param_name(r.methods@[2].params@[0]) == "message"@,
        is_simple_named(r.methods@[2].params@[0].ty, "Message"@),
        is_outcome_type(r.methods@[2].ret),
        outcome_success(r.methods@[2].ret) is Unit,
        is_simple_named(outcome_failure(r.methods@[2].ret), "String"@),
        def_wf(r),
{
    let mut methods: Vec<Method> = Vec::new();
    methods.push(
        Method {
            name: String::from_str("get_serialized_ticket"),
            params: Vec::new(),
            ret: outcome_of(named("String"), named("String")),
        },
    );
    let mut connect_params: Vec<Param> = Vec::new();
    connect_params.push(param("ticket", named("String")));
    methods.push(
        Method {
            name: String::from_str("connect_via_serialized_ticket"),
            params: connect_params,
            ret: outcome_of(named("String"), named("String")),
        },
    );
    let mut broadcast_params: Vec<Param> = Vec::new();
    broadcast_params.push(param("message", named("Message")));
    methods.push(
        Method {
            name: String::from_str("broadcast_message"),
            params: broadcast_params,
            ret: outcome_of(TypeExpr::Unit, named("String")),
        },
    );
    proof {
        reveal_strlit("get_serialized_ticket");
        reveal_strlit("connect_via_serialized_ticket");
        reveal_strlit("broadcast_message");
    }
    InterfaceDef { name: String::from_str("API"), methods }
}

/// The event list of this application: the conversation stream, the
/// connection announcement, and the connection-type updates.
pub fn api_events() -> (r: Vec<EventDefinition>)
    ensures
        r@.len() == 3,
        r@[0].name@ == "conversation"@,
        is_simple_named(r@[0].payload_type, "Message"@),
        r@[1].name@ == "connection"@,
        is_simple_named(r@[1].payload_type, "String"@),
        r@[2].name@ == "connection_type"@,
        is_simple_named(r@[2].payload_type, "String"@),
        crate::events::event_names_distinct(r@),
{
    let mut events: Vec<EventDefinition> = Vec::new();
    events.push(
        EventDefinition { name: String::from_str("conversation"), payload_type: named("Message") },
    );
    events.push(
        EventDefinition { name: String::from_str("connection"), payload_type: named("String") },
    );
    events.push(
        EventDefinition {
            name: String::from_str("connection_type"),
            payload_type: named("String"),
        },
    );
    proof {
        reveal_strlit("conversation");
        reveal_strlit("connection");
        reveal_strlit("connection_type");
    }
    events
}

} // verus!
