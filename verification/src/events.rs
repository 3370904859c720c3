//! The Event Registry: typed publish/subscribe bindings for both sides.
//!
//! From a list of (name, payload type) event definitions and the two
//! mutually exclusive build gates — emit-capable and listen-capable — it
//! generates one single-field carrier wrapper per event. Event names are
//! passed through verbatim as wire identifiers, never wire-cased. A build
//! with both gates active, or with neither, fails loudly with a
//! configuration error; a default is never picked silently.

use vstd::prelude::*;
use crate::errors::{ConfigurationError, DefinitionError, DefinitionFault, GateFault, GenError};

verus! {

/// One declared event: its literal name and its payload type.
#[derive(Debug, PartialEq, Eq)]
pub struct EventDefinition {
    pub name: String,
    pub payload_type: crate::schema::TypeExpr,
}

/// The input of the Event Registry: the event list and the two per-side
/// build gates.
#[derive(Debug, PartialEq, Eq)]
pub struct EventMacroInput {
    /// Whether this build is emit-capable.
    pub emit_capable: bool,
    /// Whether this build is listen-capable.
    pub listen_capable: bool,
    pub events: Vec<EventDefinition>,
}

/// One generated event wrapper: a single-field carrier of a payload value.
#[derive(Debug, PartialEq, Eq)]
pub struct EventWrapper {
    /// The name of the generated carrier type — the event name itself.
    pub carrier_name: String,
    /// The literal event identifier, verbatim, never wire-cased.
    pub event_name: String,
    pub payload_type: crate::schema::TypeExpr,
    /// Whether the wrapper exposes the emitting operation (emit-capable
    /// builds only).
    pub emits: bool,
    /// Whether the wrapper exposes the listening operation (listen-capable
    /// builds only).
    pub listens: bool,
}

/// Exactly one of the two build gates is active.
pub open spec fn gates_valid(input: EventMacroInput) -> bool {
    input.emit_capable != input.listen_capable
}

/// Event names are unique within the registry.
pub open spec fn event_names_distinct(events: Seq<EventDefinition>) -> bool {
    forall|i: int, j: int|
        0 <= i < j < events.len() ==> (#[trigger] events[i]).name@ != (#[trigger] events[j]).name@
}

/// A wrapper correctly generated from an event definition under the given
/// gates.
pub open spec fn wrapper_matches(w: EventWrapper, d: EventDefinition, input: EventMacroInput) -> bool {
    w.carrier_name@ == d.name@ && w.event_name@ == d.name@ && w.payload_type == d.payload_type
        && w.emits == input.emit_capable && w.listens == input.listen_capable
}

/// The complete characterization of a successful event generation pass.
pub open spec fn wrappers_match(ws: Seq<EventWrapper>, input: EventMacroInput) -> bool {
    ws.len() == input.events@.len() && (forall|i: int|
        0 <= i < ws.len() ==> wrapper_matches(#[trigger] ws[i], input.events@[i], input))
}

/// A definition error correctly describing a duplicated event name.
pub open spec fn event_error_witnessed(events: Seq<EventDefinition>, e: DefinitionError) -> bool {
    e.fault is DuplicateEvent && (exists|i: int, j: int|
        0 <= i < j < events.len() && (#[trigger] events[i]).name@ == (#[trigger] events[j]).name@
            && e.item@ == events[j].name@)
}

/// Generates the event wrappers for a registry, consuming it. Fails
/// immediately with a configuration error when both build gates are active
/// or neither is, naming the conflicting or missing gate; fails with a
/// definition error on a duplicated event name; otherwise yields one
/// wrapper per event, in order.
pub fn derive_events(input: EventMacroInput) -> (r: Result<Vec<EventWrapper>, GenError>)
    ensures
        input.emit_capable && input.listen_capable ==> r == Result::<
            Vec<EventWrapper>,
            GenError,
        >::Err(GenError::Configuration(ConfigurationError { fault: GateFault::BothGates })),
        !input.emit_capable && !input.listen_capable ==> r == Result::<
            Vec<EventWrapper>,
            GenError,
        >::Err(GenError::Configuration(ConfigurationError { fault: GateFault::NeitherGate })),
        r is Ok <==> gates_valid(input) && event_names_distinct(input.events@),
        r matches Ok(ws) ==> wrappers_match(ws@, input),
        r matches Err(e) ==> (e matches GenError::Definition(d) ==> gates_valid(input)
            && event_error_witnessed(input.events@, d)),
        r matches Err(e) ==> (e matches GenError::Configuration(c) ==> !gates_valid(input) && (
        c.fault is BothGates <==> input.emit_capable && input.listen_capable)),
{
    if input.emit_capable && input.listen_capable {
        return Err(GenError::Configuration(ConfigurationError { fault: GateFault::BothGates }));
    }
    if !input.emit_capable && !input.listen_capable {
        return Err(GenError::Configuration(ConfigurationError { fault: GateFault::NeitherGate }));
    }
    let ghost orig = input.events@;
    let emit_capable = input.emit_capable;
    let listen_capable = input.listen_capable;
    let mut events = input.events;
    let mut wrappers: Vec<EventWrapper> = Vec::new();
    while events.len() > 0
        invariant
            gates_valid(input),
            orig == input.events@,
            emit_capable == input.emit_capable,
            listen_capable == input.listen_capable,
            orig.len() == wrappers@.len() + events@.len(),
            events@ == orig.skip(wrappers@.len() as int),
            forall|k: int|
                0 <= k < wrappers@.len() ==> wrapper_matches(
                    #[trigger] wrappers@[k],
                    orig[k],
                    input,
                ),
            forall|a: int, b: int|
                0 <= a < b < wrappers@.len() ==> (#[trigger] orig[a]).name@ != (
                #[trigger] orig[b]).name@,
        decreases events@.len(),
    {
        let ghost mi = wrappers@.len() as int;
        let d = events.remove(0);
        proof {
            assert(d == orig[mi]);
            assert(events@ =~= orig.skip(mi + 1));
        }
        let EventDefinition { name, payload_type } = d;

        let mut di: usize = 0;
        while di < wrappers.len()
            invariant
                gates_valid(input),
                orig == input.events@,
                emit_capable == input.emit_capable,
                listen_capable == input.listen_capable,
                wrappers@.len() == mi,
                forall|k: int|
                    0 <= k < wrappers@.len() ==> wrapper_matches(
                        #[trigger] wrappers@[k],
                        orig[k],
                        input,
                    ),
                name@ == orig[mi].name@,
                0 <= mi < orig.len(),
                di <= wrappers@.len(),
                forall|k: int| 0 <= k < di ==> (#[trigger] orig[k]).name@ != name@,
            decreases wrappers@.len() - di,
        {
            proof {
                assert(wrapper_matches(wrappers@[di as int], orig[di as int], input));
            }
            if wrappers[di].event_name == name {
                let e = DefinitionError {
                    fault: DefinitionFault::DuplicateEvent,
                    item: name,
                    detail: String::new(),
                };
                proof {
                    assert(event_error_witnessed(orig, e)) by {
                        assert(0 <= di < mi < orig.len() && orig[di as int].name@
                            == orig[mi].name@ && e.item@ == orig[mi].name@);
                    }
                    assert(!event_names_distinct(orig));
                }
                return Err(GenError::Definition(e));
            }
            di += 1;
        }

        wrappers.push(
            EventWrapper {
                carrier_name: name.clone(),
                event_name: name,
                payload_type,
                emits: emit_capable,
                listens: listen_capable,
            },
        );
    }
    proof {
        assert(event_names_distinct(orig));
    }
    Ok(wrappers)
}

} // verus!
