//! Host-side application state and the compute half of the callee's
//! operations.
//!
//! The running application couples the sync engine with two set-once
//! cells: the joined document's identifier and this node's ticket. The
//! engine and router handles are the host's and stay outside; the cells'
//! set-once discipline and everything decided against them is verified
//! here, on the identifiers' serialized forms.

use vstd::prelude::*;
use vstd::string::StringExecFns;
use crate::message::{encode_message_parts, message_bytes_of, CommitDecision, Message};

verus! {

/// The application's shared state: each field is set at most once and
/// read thereafter.
#[derive(Debug, PartialEq, Eq)]
pub struct AppData {
    pub document_id: Option<String>,
    pub node_ticket: Option<String>,
}

impl AppData {
    pub fn new() -> (r: AppData)
        ensures
            r.document_id is None,
            r.node_ticket is None,
    {
        AppData { document_id: None, node_ticket: None }
    }

    pub fn get_document_id(&self) -> (r: Result<&String, String>)
        ensures
            match r {
                Ok(d) => self.document_id == Some(*d),
                Err(e) => self.document_id is None && e@ == "Document ID not set"@,
            },
    {
        match &self.document_id {
            Some(d) => Ok(d),
            None => Err(String::from_str("Document ID not set")),
        }
    }

    /// Sets the document identifier if none is set yet; otherwise leaves
    /// the state untouched and hands the rejected value back.
    pub fn set_document_id(&mut self, document_id: String) -> (r: Result<(), String>)
        ensures
            old(self).document_id is None ==> final(self).document_id == Some(document_id) && final(self).node_ticket == old(self).node_ticket && r is Ok,
            old(self).document_id is Some ==> *final(self) == *old(self) && r == Result::<
                (),
                String,
            >::Err(document_id),
    {
        match &self.document_id {
            Some(_) => Err(document_id),
            None => {
                self.document_id = Some(document_id);
                Ok(())
            },
        }
    }

    pub fn get_node_tickedt(&self) -> (r: Result<&String, String>)
        ensures
            match r {
                Ok(t) => self.node_ticket == Some(*t),
                Err(e) => self.node_ticket is None && e@ == "Node Ticket not set"@,
            },
    {
        match &self.node_ticket {
            Some(t) => Ok(t),
            None => Err(String::from_str("Node Ticket not set")),
        }
    }

    /// Sets the node ticket if none is set yet; otherwise leaves the state
    /// untouched and hands the rejected value back.
    pub fn set_node_ticket(&mut self, node_ticket: String) -> (r: Result<(), String>)
        ensures
            old(self).node_ticket is None ==> final(self).node_ticket == Some(node_ticket) && final(self).document_id == old(self).document_id && r is Ok,
            old(self).node_ticket is Some ==> *final(self) == *old(self) && r == Result::<
                (),
                String,
            >::Err(node_ticket),
    {
        match &self.node_ticket {
            Some(_) => Err(node_ticket),
            None => {
                self.node_ticket = Some(node_ticket);
                Ok(())
            },
        }
    }
}

/// Everything the host needs to append one message to the shared
/// document: the encoded bytes and the addressing read from the state.
#[derive(Debug, PartialEq, Eq)]
pub struct BroadcastPlan {
    pub data: Vec<u8>,
    pub document_id: String,
    pub node_ticket: String,
}

/// The compute half of broadcasting a message: reads the document
/// identifier and the node ticket — failing with the exact error of
/// whichever is missing, checked in that order — stamps the message with
/// this node's identity and encodes it for the wire. With both cells set
/// it always succeeds, since the encoding cannot fail. Appending the
/// bytes to the shared document is the sync engine's work.
pub fn prepare_broadcast(state: &AppData, message: Message, node_id: String) -> (r: Result<
    BroadcastPlan,
    String,
>)
    ensures
        state.document_id is None ==> (r matches Err(e) && e@ == "Document ID not set"@),
        state.document_id is Some && state.node_ticket is None ==> (r matches Err(e) && e@
            == "Node Ticket not set"@),
        state.document_id is Some && state.node_ticket is Some ==> r is Ok,
        r matches Ok(p) ==> state.document_id == Some(p.document_id) && state.node_ticket == Some(
            p.node_ticket,
        ) && p.data@ == message_bytes_of(
            message.timestamp_secs as int,
            message.timestamp_nanos as int,
            message.text@,
            node_id@,
        ),
{
    let document_id = match state.get_document_id() {
        Ok(d) => d.clone(),
        Err(e) => {
            return Err(e);
        },
    };
    let node_ticket = match state.get_node_tickedt() {
        Ok(t) => t.clone(),
        Err(e) => {
            return Err(e);
        },
    };
    let data = match encode_message_parts(
        message.timestamp_secs,
        message.timestamp_nanos,
        &message.text,
        &node_id,
    ) {
        Ok(d) => d,
        Err(e) => {
            return Err(e);
        },
    };
    Ok(BroadcastPlan { data, document_id, node_ticket })
}

/// The step for a discovered document: record its identifier if none is
/// set yet — later discoveries leave the first untouched — and announce
/// the established connection as an event to publish.
pub fn note_discovery(state: &mut AppData, doc_id: String) -> (r: (String, String))
    ensures
        old(state).document_id is None ==> final(state).document_id == Some(doc_id),
        old(state).document_id is Some ==> final(state).document_id == old(state).document_id,
        final(state).node_ticket == old(state).node_ticket,
        r.0@ == "connection"@,
        r.1@ == "connected"@,
{
    let _ = state.set_document_id(doc_id);
    (String::from_str("connection"), String::from_str("connected"))
}

/// The step for a dialed or received connection: record the node ticket
/// if none is set yet, and publish the connection's type — already
/// rendered by the host — as an event.
pub fn note_connection(state: &mut AppData, node_ticket: String, connection_type: String) -> (r: (
    String,
    String,
))
    ensures
        old(state).node_ticket is None ==> final(state).node_ticket == Some(node_ticket),
        old(state).node_ticket is Some ==> final(state).node_ticket == old(state).node_ticket,
        final(state).document_id == old(state).document_id,
        r.0@ == "connection_type"@,
        r.1 == connection_type,
{
    let _ = state.set_node_ticket(node_ticket);
    (String::from_str("connection_type"), connection_type)
}

/// One notification from the document sync engine, as plain data: the
/// engine itself stays outside, its handle with the host.
#[derive(Debug, PartialEq, Eq)]
pub enum DocEvent {
    /// One commit's contents arrived in the shared document.
    Data(Vec<u8>),
    /// The shared document was discovered, with its identifier.
    Discovered(String),
    /// The document's access rules changed; nothing is done with this yet.
    AccessChanged,
}

/// What the host must do in response to a document event.
#[derive(Debug, PartialEq, Eq)]
pub enum DocEventAction {
    /// Publish the event under the given name with the given payload.
    Announce(String, String),
    /// Deliver a fresh remote message to the conversation and adopt the
    /// new newest-seen timestamp.
    DeliverMessage(Message, i64),
    /// The contents did not decode: the listener stops, as a decode error
    /// ends it.
    Abort,
    /// Nothing.
    Nothing,
}

/// The document listener's whole step: data runs through the replay
/// filter and either delivers, is ignored, or aborts the listener;
/// discovery records the document and announces the connection; an access
/// change does nothing. The host performs the returned action — emitting
/// the event, or appending the message to the conversation.
pub fn handle_doc_event(
    state: &mut AppData,
    event: DocEvent,
    this_node: &String,
    recent_timestamp: i64,
) -> (r: DocEventAction)
    ensures
        event matches DocEvent::Data(contents) ==> *final(state) == *old(state) && {
            &&& contents@.len() == 0 ==> r is Nothing
            &&& contents@.len() > 0 ==> match crate::message::decoded_message_of(contents@) {
                None => r is Abort,
                Some(p) => if !crate::message::ts_valid(p.0, p.1) {
                    r is Abort
                } else if p.3 != this_node@ && p.0 > recent_timestamp {
                    (r matches DocEventAction::DeliverMessage(m, new_recent)
                        && m.timestamp_secs == p.0 && m.timestamp_nanos == p.1 && m.text@ == p.2
                        && new_recent == p.0)
                } else {
                    r is Nothing
                },
            }
        },
        event matches DocEvent::Discovered(doc_id) ==> {
            &&& old(state).document_id is None ==> final(state).document_id == Some(doc_id)
            &&& old(state).document_id is Some ==> final(state).document_id == old(
                state,
            ).document_id
            &&& final(state).node_ticket == old(state).node_ticket
            &&& (r matches DocEventAction::Announce(name, payload) && name@ == "connection"@
                && payload@ == "connected"@)
        },
        event is AccessChanged ==> *final(state) == *old(state) && r is Nothing,
{
    match event {
        DocEvent::Data(contents) => match crate::message::ingest_commit(
            &contents,
            this_node,
            recent_timestamp,
        ) {
            CommitDecision::Ignore => DocEventAction::Nothing,
            CommitDecision::DecodeFailed => DocEventAction::Abort,
            CommitDecision::Deliver { message, peer_id: _, new_recent } => {
                DocEventAction::DeliverMessage(message, new_recent)
            },
        },
        DocEvent::Discovered(doc_id) => {
            let (name, payload) = note_discovery(state, doc_id);
            DocEventAction::Announce(name, payload)
        },
        DocEvent::AccessChanged => DocEventAction::Nothing,
    }
}

/// The compute half of connecting via a serialized ticket: records the
/// fresh node ticket — the connection is made at most once, so none may
/// be set yet — and reports which document was joined.
pub fn complete_connection(state: &mut AppData, doc_id: &String, node_ticket: String) -> (r: String)
    requires
        old(state).node_ticket is None,
    ensures
        final(state).node_ticket == Some(node_ticket),
        final(state).document_id == old(state).document_id,
        r@ == "Connected with document "@ + doc_id@,
{
    let _ = state.set_node_ticket(node_ticket);
    String::from_str("Connected with document ").concat(doc_id.as_str())
}

} // verus!
