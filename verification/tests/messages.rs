use ipc_contract::barcode_scanner::{scan_options, CameraDirection, Format};
use ipc_contract::message::{
    commit_decision, compose_outgoing, ingest_commit, is_connection_established, CommitDecision,
    LabeledMessage, Message, MessageWithMetaData,
};
use ipc_contract::state::{
    complete_connection, handle_doc_event, note_connection, note_discovery, prepare_broadcast,
    AppData, DocEvent, DocEventAction,
};
use ipc_contract::ticket::ticket_display;

#[test]
fn timestamp_renders_like_the_date_library() {
    let m = Message::with_timestamp(0, 0, String::from("hi"));
    let (text, shown) = m.unpack_for_html_integration();
    assert_eq!(text, "hi");
    assert_eq!(shown, "1970-01-01 00:00:00 UTC");

    let m = Message::with_timestamp(1431648000, 0, String::from("x"));
    assert_eq!(m.unpack_for_html_integration().1, "2015-05-15 00:00:00 UTC");

    let m = Message::with_timestamp(947638923, 4_000_000, String::from("x"));
    assert_eq!(m.unpack_for_html_integration().1, "2000-01-12 01:02:03.004 UTC");
}

#[test]
fn new_message_keeps_its_text() {
    let m = Message::new(String::from("fresh"));
    assert_eq!(m.text, "fresh");
    let (secs, nanos) = m.timestamp();
    assert!(secs >= 0);
    assert!(nanos < 1_000_000_000);
}

#[test]
fn labeled_message_exposes_inner_timestamp() {
    let m = Message::with_timestamp(42, 7, String::from("in"));
    let labeled = LabeledMessage::Incoming(m);
    assert_eq!(labeled.timestamp(), (42, 7));
    let m = Message::with_timestamp(43, 8, String::from("out"));
    assert_eq!(LabeledMessage::Outgoing(m).timestamp(), (43, 8));
}

#[test]
fn composing_an_empty_input_sends_nothing() {
    assert!(compose_outgoing(String::new()).is_none());
    let sent = compose_outgoing(String::from("hello")).unwrap();
    assert_eq!(sent.text, "hello");
}

#[test]
fn connection_payload_check() {
    assert!(is_connection_established(&String::from("connected")));
    assert!(!is_connection_established(&String::from("pending")));
}

fn ready_state() -> AppData {
    let mut state = AppData::new();
    state.set_document_id(String::from("doc-7")).unwrap();
    state.set_node_ticket(String::from("ticket-9")).unwrap();
    state
}

#[test]
fn broadcast_plan_reads_state_and_encodes() {
    let state = ready_state();
    let message = Message::with_timestamp(100, 0, String::from("payload"));
    let plan = prepare_broadcast(&state, message, String::from("node-a")).unwrap();
    assert_eq!(plan.document_id, "doc-7");
    assert_eq!(plan.node_ticket, "ticket-9");
    assert!(!plan.data.is_empty());
}

#[test]
fn broadcast_without_state_names_the_missing_piece() {
    let empty = AppData::new();
    let m = Message::with_timestamp(1, 0, String::from("m"));
    assert_eq!(
        prepare_broadcast(&empty, m, String::from("n")).unwrap_err(),
        "Document ID not set"
    );
    let mut half = AppData::new();
    half.set_document_id(String::from("doc")).unwrap();
    let m = Message::with_timestamp(1, 0, String::from("m"));
    assert_eq!(
        prepare_broadcast(&half, m, String::from("n")).unwrap_err(),
        "Node Ticket not set"
    );
}

#[test]
fn encoded_broadcast_decodes_back_to_the_message() {
    let state = ready_state();
    let message = Message::with_timestamp(5000, 123, String::from("round trip"));
    let plan = prepare_broadcast(&state, message, String::from("node-sender")).unwrap();
    // a different node, with an older newest-seen timestamp, delivers it
    match ingest_commit(&plan.data, &String::from("node-receiver"), 10) {
        CommitDecision::Deliver {
            message,
            peer_id,
            new_recent,
        } => {
            assert_eq!(message.text, "round trip");
            assert_eq!(message.timestamp_secs, 5000);
            assert_eq!(message.timestamp_nanos, 123);
            assert_eq!(peer_id, "node-sender");
            assert_eq!(new_recent, 5000);
        }
        other => panic!("expected delivery, got {:?}", other),
    }
}

#[test]
fn ingest_filters_replays_and_noise() {
    let state = ready_state();
    let message = Message::with_timestamp(5000, 0, String::from("m"));
    let plan = prepare_broadcast(&state, message, String::from("node-self")).unwrap();
    // this node's own message is not redelivered
    assert_eq!(
        ingest_commit(&plan.data, &String::from("node-self"), 10),
        CommitDecision::Ignore
    );
    // an already-seen timestamp is not redelivered
    assert_eq!(
        ingest_commit(&plan.data, &String::from("other"), 5000),
        CommitDecision::Ignore
    );
    // the initial empty commit carries no message
    assert_eq!(
        ingest_commit(&Vec::new(), &String::from("other"), 0),
        CommitDecision::Ignore
    );
    // garbage does not decode
    assert_eq!(
        ingest_commit(&vec![0xFF, 0xFF, 0xFF], &String::from("other"), 0),
        CommitDecision::DecodeFailed
    );
}

#[test]
fn commit_decision_on_given_parts() {
    let parts = Some((100i64, 0u32, String::from("t"), String::from("peer")));
    match commit_decision(parts, &String::from("me"), 99) {
        CommitDecision::Deliver { new_recent, .. } => assert_eq!(new_recent, 100),
        other => panic!("expected delivery, got {:?}", other),
    }
    // an equal timestamp is already seen
    let parts = Some((100i64, 0u32, String::from("t"), String::from("peer")));
    assert_eq!(
        commit_decision(parts, &String::from("me"), 100),
        CommitDecision::Ignore
    );
    assert_eq!(
        commit_decision(None, &String::from("me"), 0),
        CommitDecision::DecodeFailed
    );
    // an unrepresentable timestamp counts as a decode failure
    let parts = Some((-5i64, 0u32, String::from("t"), String::from("peer")));
    assert_eq!(
        commit_decision(parts, &String::from("me"), 0),
        CommitDecision::DecodeFailed
    );
}

#[test]
fn state_cells_set_only_once() {
    let mut state = AppData::new();
    assert!(state.get_document_id().is_err());
    assert!(state.set_document_id(String::from("first")).is_ok());
    // the second set is rejected and hands the value back
    assert_eq!(
        state.set_document_id(String::from("second")),
        Err(String::from("second"))
    );
    assert_eq!(state.get_document_id().unwrap(), "first");

    assert_eq!(state.get_node_tickedt().unwrap_err(), "Node Ticket not set");
    assert!(state.set_node_ticket(String::from("t1")).is_ok());
    assert_eq!(state.set_node_ticket(String::from("t2")), Err(String::from("t2")));
    assert_eq!(state.get_node_tickedt().unwrap(), "t1");
}

#[test]
fn discovery_and_connection_steps() {
    let mut state = AppData::new();
    let (event, payload) = note_discovery(&mut state, String::from("doc-1"));
    assert_eq!(event, "connection");
    assert_eq!(payload, "connected");
    assert_eq!(state.get_document_id().unwrap(), "doc-1");
    // a later discovery does not overwrite the first
    let _ = note_discovery(&mut state, String::from("doc-2"));
    assert_eq!(state.get_document_id().unwrap(), "doc-1");

    let (event, payload) = note_connection(
        &mut state,
        String::from("ticket-1"),
        String::from("Direct"),
    );
    assert_eq!(event, "connection_type");
    assert_eq!(payload, "Direct");
    assert_eq!(state.get_node_tickedt().unwrap(), "ticket-1");
}

#[test]
fn doc_event_step_covers_all_notifications() {
    let me = String::from("node-me");
    let mut state = AppData::new();
    // discovery records the document and announces the connection
    match handle_doc_event(&mut state, DocEvent::Discovered(String::from("doc-x")), &me, 0) {
        DocEventAction::Announce(name, payload) => {
            assert_eq!(name, "connection");
            assert_eq!(payload, "connected");
        }
        other => panic!("expected an announcement, got {:?}", other),
    }
    assert_eq!(state.get_document_id().unwrap(), "doc-x");
    // an access change does nothing
    assert_eq!(
        handle_doc_event(&mut state, DocEvent::AccessChanged, &me, 0),
        DocEventAction::Nothing
    );
    // fresh remote data delivers the message and advances the timestamp
    let sender = ready_state();
    let m = Message::with_timestamp(777, 0, String::from("fresh"));
    let plan = prepare_broadcast(&sender, m, String::from("node-peer")).unwrap();
    match handle_doc_event(&mut state, DocEvent::Data(plan.data.clone()), &me, 0) {
        DocEventAction::DeliverMessage(delivered, new_recent) => {
            assert_eq!(delivered.text, "fresh");
            assert_eq!(new_recent, 777);
        }
        other => panic!("expected a delivery, got {:?}", other),
    }
    // the same data with the timestamp already seen is ignored
    assert_eq!(
        handle_doc_event(&mut state, DocEvent::Data(plan.data), &me, 777),
        DocEventAction::Nothing
    );
    // undecodable data stops the listener
    assert_eq!(
        handle_doc_event(&mut state, DocEvent::Data(vec![0xFF, 0xFF, 0xFF]), &me, 0),
        DocEventAction::Abort
    );
}

#[test]
fn connecting_reports_the_joined_document() {
    let mut state = AppData::new();
    let msg = complete_connection(&mut state, &String::from("doc-42"), String::from("nt"));
    assert_eq!(msg, "Connected with document doc-42");
    assert_eq!(state.get_node_tickedt().unwrap(), "nt");
}

#[test]
fn ticket_display_renders_a_qr_code() {
    let shown = ticket_display(String::from("nodeABC123ticket"));
    assert_eq!(shown.ticket, "nodeABC123ticket");
    let svg = shown.qr_svg.expect("a short ticket fits a QR code");
    assert!(svg.starts_with("<svg"));
    assert_ne!(svg, "nodeABC123ticket");
}

#[test]
fn oversized_content_yields_no_qr_code() {
    // far beyond the capacity of any QR code version
    let huge = "x".repeat(20_000);
    let shown = ticket_display(huge);
    assert!(shown.qr_svg.is_none());
}

#[test]
fn scan_options_carry_the_request() {
    let options = scan_options(Format::QRCode, false, CameraDirection::Back);
    assert_eq!(options.camera_direction, CameraDirection::Back);
    assert!(!options.windowed);
    assert_eq!(options.formats, vec![Format::QRCode]);
}

#[test]
fn message_with_metadata_keeps_its_parts() {
    let m = Message::with_timestamp(9, 1, String::from("meta"));
    let with_meta = MessageWithMetaData::new(m, String::from("peer-1"));
    assert_eq!(with_meta.timestamp(), (9, 1));
    assert_eq!(with_meta.peer_id, "peer-1");
    assert_eq!(with_meta.message.text, "meta");
}
