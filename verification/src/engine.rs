//! The runtime call engine behind the generated stubs.
//!
//! A stub call issues exactly one logical request: the arguments are laid
//! into the generated argument record, in declaration order and under the
//! wire-cased field names, and the request is addressed by the stub's wire
//! identifier. What the transport primitive hands back is interpreted
//! according to the call's kind: on the failure-decodable path both the
//! success and the failure branch come back to the caller as values, never
//! as a fault; on the plain path no failure branch is ever decoded and a
//! rejection surfaces as an undifferentiated host error.

use vstd::prelude::*;
use crate::schema::{is_outcome_type, InterfaceDef};
use crate::stubgen::{
    lemma_outcome_path_selection, stubs_match, CallKind, InvokeBindingAttrs, StubFn,
};

verus! {

/// A marshaled value as the transport sees it. This core delegates real
/// encoding to the marshaling primitive, so composite payloads appear here
/// in already-marshaled form.
#[derive(Debug, Clone, PartialEq, Eq)]
pub enum WireValue {
    Null,
    Bool(bool),
    Int(i64),
    Text(String),
    Blob(Vec<u8>),
}

/// One field of an instantiated argument record.
#[derive(Debug, PartialEq, Eq)]
pub struct RecordEntry {
    pub field: String,
    pub value: WireValue,
}

/// An instantiated Generated Argument Record: one entry per declared
/// parameter, built once per call and discarded after marshaling.
#[derive(Debug, PartialEq, Eq)]
pub struct ArgsRecord {
    pub entries: Vec<RecordEntry>,
}

/// One logical request to the transport primitive.
#[derive(Debug, PartialEq, Eq)]
pub struct CallRequest {
    /// The wire identifier the request is addressed to.
    pub command: String,
    pub args: ArgsRecord,
}

/// What the transport primitive hands back for one request: a resolved
/// value, or a rejection payload.
#[derive(Debug, PartialEq, Eq)]
pub enum TransportReply {
    Resolved(WireValue),
    Rejected(WireValue),
}

/// What a generated stub returns to its caller.
#[derive(Debug, PartialEq, Eq)]
pub enum StubResult {
    /// Plain path, resolved: the decoded return value.
    Value(WireValue),
    /// Failure-decodable path, resolved: the success branch.
    Success(WireValue),
    /// Failure-decodable path, rejected: the failure branch, decoded at
    /// the declared failure type and returned as a value, never raised as
    /// an unrecoverable fault.
    Failure(WireValue),
    /// Plain path, rejected: an undifferentiated host error; the declared
    /// failure information of the remote operation is not separately
    /// decodable on this path.
    HostError(WireValue),
}

/// Builds the call request for a stub: the wire identifier, and the
/// argument record pairing each wire-cased field name with the argument
/// supplied at the same declaration position.
pub fn build_invocation(stub: &StubFn, args: Vec<WireValue>) -> (r: CallRequest)
    requires
        args@.len() == stub.fields@.len(),
    ensures
        r.command@ == stub.wire_ident@,
        r.args.entries@.len() == stub.fields@.len(),
        forall|i: int|
            0 <= i < stub.fields@.len() ==> (#[trigger] r.args.entries@[i]).field@
                == stub.fields@[i].wire_name@ && r.args.entries@[i].value == args@[i],
{
    let ghost orig_args = args@;
    let mut args = args;
    let mut entries: Vec<RecordEntry> = Vec::new();
    while args.len() > 0
        invariant
            orig_args.len() == entries@.len() + args@.len(),
            args@ == orig_args.skip(entries@.len() as int),
            orig_args.len() == stub.fields@.len(),
            forall|i: int|
                0 <= i < entries@.len() ==> (#[trigger] entries@[i]).field@
                    == stub.fields@[i].wire_name@ && entries@[i].value == orig_args[i],
        decreases args@.len(),
    {
        let ghost i = entries@.len() as int;
        let v = args.remove(0);
        proof {
            assert(v == orig_args[i]);
            assert(args@ =~= orig_args.skip(i + 1));
        }
        let field = stub.fields[entries.len()].wire_name.clone();
        entries.push(RecordEntry { field, value: v });
    }
    CallRequest { command: stub.wire_ident.clone(), args: ArgsRecord { entries } }
}

/// How a reply is decoded under a call kind: on the failure-decodable path
/// a resolved value is the success branch and a rejection is the failure
/// branch; on the plain path a resolved value is the return value and a
/// rejection is an undifferentiated host error.
pub open spec fn interpretation(call: CallKind, reply: TransportReply) -> StubResult {
    match call {
        CallKind::Outcome(s, f) => match reply {
            TransportReply::Resolved(v) => StubResult::Success(v),
            TransportReply::Rejected(e) => StubResult::Failure(e),
        },
        CallKind::Plain(t) => match reply {
            TransportReply::Resolved(v) => StubResult::Value(v),
            TransportReply::Rejected(e) => StubResult::HostError(e),
        },
    }
}

/// Decodes the transport's reply to one stub call.
pub fn interpret_reply(call: &CallKind, reply: TransportReply) -> (r: StubResult)
    ensures
        r == interpretation(*call, reply),
{
    match call {
        CallKind::Outcome(_, _) => match reply {
            TransportReply::Resolved(v) => StubResult::Success(v),
            TransportReply::Rejected(e) => StubResult::Failure(e),
        },
        CallKind::Plain(_) => match reply {
            TransportReply::Resolved(v) => StubResult::Value(v),
            TransportReply::Rejected(e) => StubResult::HostError(e),
        },
    }
}

/// Law: on the failure-decodable path both branches decode, without a
/// fault on either — a resolved value comes back as the success branch
/// with its payload intact, and a rejection comes back as the failure
/// branch with its payload intact.
pub proof fn lemma_outcome_decodes_both_branches(call: CallKind, v: WireValue, e: WireValue)
    requires
        call is Outcome,
    ensures
        interpretation(call, TransportReply::Resolved(v)) == StubResult::Success(v),
        interpretation(call, TransportReply::Rejected(e)) == StubResult::Failure(e),
{
}

/// Law: on the plain path the failure branch is never decoded — no reply
/// whatsoever produces a success or failure branch; a rejection surfaces
/// only as an undifferentiated host error.
pub proof fn lemma_plain_never_decodes_failure(call: CallKind, reply: TransportReply)
    requires
        call is Plain,
    ensures
        !(interpretation(call, reply) is Failure),
        !(interpretation(call, reply) is Success),
        reply matches TransportReply::Rejected(e) ==> interpretation(call, reply)
            == StubResult::HostError(e),
{
}

/// What the transport primitive hands back when a subscription is
/// requested: a granted subscription handle, or a refusal payload.
#[derive(Debug, PartialEq, Eq)]
pub enum SubscribeReply {
    Granted(u64),
    Refused(WireValue),
}

/// What a generated listener returns to its caller.
#[derive(Debug, PartialEq, Eq)]
pub enum ListenOutcome {
    /// The subscription stands; payloads arrive through its handle.
    Listening(u64),
    /// The subscription could not be established. The failure is surfaced
    /// here, before any payload element is produced — never as a silently
    /// empty sequence: no handle exists, so no sequence does either.
    SubscriptionError(WireValue),
}

/// How a subscription reply is decoded: a granted handle opens the
/// listener's sequence, and a refusal is reported as the subscription
/// error itself.
pub open spec fn subscribe_interpretation(reply: SubscribeReply) -> ListenOutcome {
    match reply {
        SubscribeReply::Granted(id) => ListenOutcome::Listening(id),
        SubscribeReply::Refused(e) => ListenOutcome::SubscriptionError(e),
    }
}

/// Decodes the transport's reply to one subscription request.
pub fn interpret_subscribe(reply: SubscribeReply) -> (r: ListenOutcome)
    ensures
        r == subscribe_interpretation(reply),
{
    match reply {
        SubscribeReply::Granted(id) => ListenOutcome::Listening(id),
        SubscribeReply::Refused(e) => ListenOutcome::SubscriptionError(e),
    }
}

/// Law: for every method with an Outcome-shaped return, the stub
/// generated for it decodes both transport branches as values, without
/// aborting on either — a resolved value becomes the success branch and a
/// rejection becomes the failure branch, payloads intact.
pub proof fn lemma_generated_outcome_stub_decodes_both(
    stubs: Seq<StubFn>,
    def: InterfaceDef,
    attrs: InvokeBindingAttrs,
    i: int,
    v: WireValue,
    e: WireValue,
)
    requires
        stubs_match(stubs, def, attrs),
        0 <= i < stubs.len(),
        is_outcome_type(def.methods@[i].ret),
    ensures
        interpretation(stubs[i].call, TransportReply::Resolved(v)) == StubResult::Success(v),
        interpretation(stubs[i].call, TransportReply::Rejected(e)) == StubResult::Failure(e),
{
    lemma_outcome_path_selection(stubs, def, attrs, i);
}

/// Law: for every method with a non-Outcome return, the stub generated
/// for it never attempts failure-branch decoding — no reply produces a
/// success or failure branch.
pub proof fn lemma_generated_plain_stub_skips_failure_decoding(
    stubs: Seq<StubFn>,
    def: InterfaceDef,
    attrs: InvokeBindingAttrs,
    i: int,
    reply: TransportReply,
)
    requires
        stubs_match(stubs, def, attrs),
        0 <= i < stubs.len(),
        !is_outcome_type(def.methods@[i].ret),
    ensures
        !(interpretation(stubs[i].call, reply) is Failure),
        !(interpretation(stubs[i].call, reply) is Success),
{
    lemma_outcome_path_selection(stubs, def, attrs, i);
    lemma_plain_never_decodes_failure(stubs[i].call, reply);
}

} // verus!
