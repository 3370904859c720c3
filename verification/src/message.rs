//! Chat messages and the compute half of their wire handling.
//!
//! A message carries a Unix timestamp and its text. The timestamp's text
//! form and the message's wire encoding are delegated to outside
//! libraries; everything decided about a message — freshness, replay
//! filtering, rendering splits — is verified here on plain values.

use vstd::prelude::*;
use crate::text::str_eqs;

verus! {

/// The last representable second (end of year 9999): timestamps beyond
/// this have no text form.
pub const MAX_TIMESTAMP_SECS: i64 = 253402300799;

/// A timestamp this crate accepts: non-negative seconds up to the maximum,
/// and in-second nanoseconds.
pub open spec fn ts_valid(secs: int, nanos: int) -> bool {
    0 <= secs <= MAX_TIMESTAMP_SECS && 0 <= nanos < 1_000_000_000
}

/// The text form of a Unix timestamp, as the date-time library renders it.
pub uninterp spec fn utc_display_of(secs: int, nanos: int) -> Seq<char>;

/// The wire encoding of a message with metadata, as the marshaling
/// library produces it from the timestamp, the text and the peer.
pub uninterp spec fn message_bytes_of(secs: int, nanos: int, text: Seq<char>, peer: Seq<char>) -> Seq<
    u8,
>;

/// What a byte string decodes to as a message with metadata, if anything.
pub uninterp spec fn decoded_message_of(bytes: Seq<u8>) -> Option<(int, int, Seq<char>, Seq<char>)>;

/// Relies on std's `SystemTime::now` and `duration_since`: the clock's
/// reading as non-leap seconds since the Unix epoch, with the in-second
/// nanoseconds; a reading before the epoch falls back to the epoch
/// itself, so the call cannot panic whatever the clock says. Beyond the
/// nanoseconds staying in-second, nothing is promised of the reading.
#[verifier::external_body]
pub(crate) fn now_utc() -> (r: (i64, u32))
    ensures
        r.1 < 1_000_000_000,
{
    match std::time::SystemTime::now().duration_since(std::time::UNIX_EPOCH) {
        Ok(d) => (d.as_secs() as i64, d.subsec_nanos()),
        Err(_) => (0, 0),
    }
}

/// Relies on chrono's `DateTime::from_timestamp` and its display
/// rendering: the text form of a valid Unix timestamp depends on the
/// timestamp alone.
#[verifier::external_body]
pub(crate) fn format_utc(secs: i64, nanos: u32) -> (r: String)
    requires
        ts_valid(secs as int, nanos as int),
    ensures
        r@ == utc_display_of(secs as int, nanos as int),
{
    match chrono::DateTime::<chrono::Utc>::from_timestamp(secs, nanos) {
        Some(dt) => dt.to_string(),
        None => String::new(),
    }
}

/// Relies on postcard's `to_allocvec`: the wire encoding of a message with
/// metadata depends on its fields alone, and with the allocating flavor a
/// tuple of integers and strings always serializes, so the call always
/// succeeds. The error type mirrors the marshaling library's signature.
#[verifier::external_body]
pub(crate) fn encode_message_parts(secs: i64, nanos: u32, text: &String, peer: &String) -> (r:
    Result<Vec<u8>, String>)
    ensures
        r is Ok,
        r matches Ok(bytes) ==> bytes@ == message_bytes_of(
            secs as int,
            nanos as int,
            text@,
            peer@,
        ),
{
    postcard::to_allocvec(&(secs, nanos, text, peer)).map_err(|e| e.to_string())
}

/// Relies on postcard's `from_bytes`: what a byte string decodes to
/// depends on the bytes alone.
#[verifier::external_body]
pub(crate) fn decode_message_parts(bytes: &Vec<u8>) -> (r: Option<(i64, u32, String, String)>)
    ensures
        match r {
            Some(p) => decoded_message_of(bytes@) == Some(
                (p.0 as int, p.1 as int, p.2@, p.3@),
            ),
            None => decoded_message_of(bytes@) is None,
        },
{
    postcard::from_bytes::<(i64, u32, String, String)>(bytes.as_slice()).ok()
}

/// A chat message: when it was written, and what it says.
#[derive(Debug, PartialEq, Eq)]
pub struct Message {
    pub timestamp_secs: i64,
    pub timestamp_nanos: u32,
    pub text: String,
}

impl Message {
    /// The timestamp is representable.
    pub open spec fn wf(self) -> bool {
        ts_valid(self.timestamp_secs as int, self.timestamp_nanos as int)
    }

    /// A message written at the given moment.
    pub fn with_timestamp(secs: i64, nanos: u32, msg: String) -> (r: Message)
        requires
            ts_valid(secs as int, nanos as int),
        ensures
            r.timestamp_secs == secs,
            r.timestamp_nanos == nanos,
            r.text == msg,
            r.wf(),
    {
        Message { timestamp_secs: secs, timestamp_nanos: nanos, text: msg }
    }

    /// A message written now: the clock's reading is whatever it is, so
    /// only the text is promised; an unrepresentable reading falls back to
    /// the epoch rather than poisoning the message.
    pub fn new(msg: String) -> (r: Message)
        ensures
            r.text == msg,
            r.wf(),
    {
        let (secs, nanos) = now_utc();
        if 0 <= secs && secs <= MAX_TIMESTAMP_SECS && nanos < 1_000_000_000 {
            Message { timestamp_secs: secs, timestamp_nanos: nanos, text: msg }
        } else {
            Message { timestamp_secs: 0, timestamp_nanos: 0, text: msg }
        }
    }

    /// Splits the message into what a rendering layer needs: the text, and
    /// the timestamp in its text form.
    pub fn unpack_for_html_integration(self) -> (r: (String, String))
        requires
            self.wf(),
        ensures
            r.0 == self.text,
            r.1@ == utc_display_of(self.timestamp_secs as int, self.timestamp_nanos as int),
    {
        let rendered = format_utc(self.timestamp_secs, self.timestamp_nanos);
        (self.text, rendered)
    }

    pub fn timestamp(&self) -> (r: (i64, u32))
        ensures
            r.0 == self.timestamp_secs,
            r.1 == self.timestamp_nanos,
    {
        (self.timestamp_secs, self.timestamp_nanos)
    }
}

/// A message together with the peer that wrote it, the form in which
/// messages travel through the shared document.
#[derive(Debug, PartialEq, Eq)]
pub struct MessageWithMetaData {
    pub message: Message,
    pub peer_id: String,
}

impl MessageWithMetaData {
    pub fn new(message: Message, peer_id: String) -> (r: MessageWithMetaData)
        ensures
            r.message == message,
            r.peer_id == peer_id,
    {
        MessageWithMetaData { message, peer_id }
    }

    pub fn timestamp(&self) -> (r: (i64, u32))
        ensures
            r.0 == self.message.timestamp_secs,
            r.1 == self.message.timestamp_nanos,
    {
        (self.message.timestamp_secs, self.message.timestamp_nanos)
    }
}

/// Delineates incoming and outgoing messages in the chat so they can
/// render differently.
#[derive(Debug, PartialEq, Eq)]
pub enum LabeledMessage {
    Incoming(Message),
    Outgoing(Message),
}

/// The message a labelled message carries.
pub open spec fn labeled_inner(l: LabeledMessage) -> Message {
    match l {
        LabeledMessage::Incoming(m) => m,
        LabeledMessage::Outgoing(m) => m,
    }
}

impl LabeledMessage {
    pub fn timestamp(&self) -> (r: (i64, u32))
        ensures
            r.0 == labeled_inner(*self).timestamp_secs,
            r.1 == labeled_inner(*self).timestamp_nanos,
    {
        match self {
            LabeledMessage::Incoming(m) => m.timestamp(),
            LabeledMessage::Outgoing(m) => m.timestamp(),
        }
    }
}

/// The send path of the chat: an empty input produces nothing; any other
/// input becomes a freshly timestamped message for labelling and
/// broadcast.
pub fn compose_outgoing(text: String) -> (r: Option<Message>)
    ensures
        r is None <==> text@.len() == 0,
        r matches Some(m) ==> m.text == text && m.wf(),
{
    if text.as_str().is_empty() {
        None
    } else {
        Some(Message::new(text))
    }
}

/// Whether a connection event's payload announces an established
/// connection, ending the caller's wait for one.
pub fn is_connection_established(payload: &String) -> (r: bool)
    ensures
        r == (payload@ == "connected"@),
{
    str_eqs(payload, "connected")
}

/// What the document listener does with one incoming commit.
#[derive(Debug, PartialEq, Eq)]
pub enum CommitDecision {
    /// Nothing to deliver: an initial empty commit, this node's own
    /// message replayed, or a timestamp already seen.
    Ignore,
    /// The contents did not decode as a message with metadata.
    DecodeFailed,
    /// A fresh remote message: deliver it and advance the newest-seen
    /// timestamp.
    Deliver { message: Message, peer_id: String, new_recent: i64 },
}

/// The views of decoded message parts.
pub open spec fn parts_view(parts: Option<(i64, u32, String, String)>) -> Option<
    (int, int, Seq<char>, Seq<char>),
> {
    match parts {
        None => None,
        Some(p) => Some((p.0 as int, p.1 as int, p.2@, p.3@)),
    }
}

/// The replay filter's rule, over the decoded parts: undecodable or
/// unrepresentable contents fail; a message from this node, or one whose
/// timestamp is not newer than the newest seen, is ignored; anything else
/// is delivered and advances the newest-seen timestamp.
pub open spec fn decision_matches(
    r: CommitDecision,
    parts: Option<(int, int, Seq<char>, Seq<char>)>,
    this_node: Seq<char>,
    recent: int,
) -> bool {
    match parts {
        None => r is DecodeFailed,
        Some(p) => if !ts_valid(p.0, p.1) {
            r is DecodeFailed
        } else if p.3 != this_node && p.0 > recent {
            r matches CommitDecision::Deliver { message, peer_id, new_recent }
                && message.timestamp_secs == p.0 && message.timestamp_nanos == p.1
                && message.text@ == p.2 && peer_id@ == p.3 && new_recent == p.0
        } else {
            r is Ignore
        },
    }
}

/// Decides what to do with decoded commit contents. Verified for every
/// value the decoder can hand back.
pub fn commit_decision(
    parts: Option<(i64, u32, String, String)>,
    this_node: &String,
    recent_timestamp: i64,
) -> (r: CommitDecision)
    ensures
        decision_matches(r, parts_view(parts), this_node@, recent_timestamp as int),
{
    match parts {
        None => CommitDecision::DecodeFailed,
        Some((secs, nanos, text, peer)) => {
            if !(0 <= secs && secs <= MAX_TIMESTAMP_SECS && nanos < 1_000_000_000) {
                CommitDecision::DecodeFailed
            } else if !(peer == *this_node) && secs > recent_timestamp {
                CommitDecision::Deliver {
                    message: Message::with_timestamp(secs, nanos, text),
                    peer_id: peer,
                    new_recent: secs,
                }
            } else {
                CommitDecision::Ignore
            }
        },
    }
}

/// The document listener's step for one commit: empty contents — the
/// initial commit — are ignored outright; anything else is decoded and
/// run through the replay filter.
pub fn ingest_commit(contents: &Vec<u8>, this_node: &String, recent_timestamp: i64) -> (r:
    CommitDecision)
    ensures
        contents@.len() == 0 ==> r is Ignore,
        contents@.len() > 0 ==> decision_matches(
            r,
            decoded_message_of(contents@),
            this_node@,
            recent_timestamp as int,
        ),
{
    if contents.len() == 0 {
        CommitDecision::Ignore
    } else {
        let parts = decode_message_parts(contents);
        commit_decision(parts, this_node, recent_timestamp)
    }
}

} // verus!
