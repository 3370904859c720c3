use ipc_contract::api::{named, outcome_of, param};
use ipc_contract::bus::EventBus;
use ipc_contract::engine::{
    build_invocation, interpret_reply, interpret_subscribe, ListenOutcome, StubResult,
    SubscribeReply, TransportReply, WireValue,
};
use ipc_contract::schema::{InterfaceDef, Method, TypeExpr};
use ipc_contract::stubgen::{invoke_bindings, InvokeBindingAttrs};

fn generate_single(method: Method) -> ipc_contract::stubgen::StubFn {
    let def = InterfaceDef {
        name: String::from("Single"),
        methods: vec![method],
    };
    invoke_bindings(def, &InvokeBindingAttrs { cmd_prefix: None })
        .unwrap()
        .pop()
        .unwrap()
}

#[test]
fn outcome_stub_returns_both_branches() {
    // method get_ticket() -> Outcome<String, String>
    let stub = generate_single(Method {
        name: String::from("get_ticket"),
        params: vec![],
        ret: outcome_of(named("String"), named("String")),
    });
    // transport returns success "abc123" -> stub returns success "abc123"
    let success = interpret_reply(
        &stub.call,
        TransportReply::Resolved(WireValue::Text(String::from("abc123"))),
    );
    assert_eq!(success, StubResult::Success(WireValue::Text(String::from("abc123"))));
    // transport returns failure "timeout" -> stub returns failure "timeout"
    let failure = interpret_reply(
        &stub.call,
        TransportReply::Rejected(WireValue::Text(String::from("timeout"))),
    );
    assert_eq!(failure, StubResult::Failure(WireValue::Text(String::from("timeout"))));
}

#[test]
fn plain_stub_never_decodes_failure_branch() {
    // a non-Outcome return takes the plain path
    let stub = generate_single(Method {
        name: String::from("current_count"),
        params: vec![],
        ret: named("u64"),
    });
    let value = interpret_reply(&stub.call, TransportReply::Resolved(WireValue::Int(7)));
    assert_eq!(value, StubResult::Value(WireValue::Int(7)));
    let rejected = interpret_reply(
        &stub.call,
        TransportReply::Rejected(WireValue::Text(String::from("gone"))),
    );
    match rejected {
        StubResult::HostError(_) => {}
        other => panic!("a plain call must not decode a failure branch: {:?}", other),
    }
}

#[test]
fn invocation_record_pairs_names_and_values_in_order() {
    let stub = generate_single(Method {
        name: String::from("broadcast"),
        params: vec![param("message_body", named("String")), param("repeat_count", named("u64"))],
        ret: outcome_of(TypeExpr::Unit, named("String")),
    });
    let request = build_invocation(
        &stub,
        vec![
            WireValue::Text(String::from("hi there")),
            WireValue::Int(2),
        ],
    );
    assert_eq!(request.command, "broadcast");
    assert_eq!(request.args.entries.len(), 2);
    assert_eq!(request.args.entries[0].field, "messageBody");
    assert_eq!(request.args.entries[0].value, WireValue::Text(String::from("hi there")));
    assert_eq!(request.args.entries[1].field, "repeatCount");
    assert_eq!(request.args.entries[1].value, WireValue::Int(2));
}

#[test]
fn subscription_failure_surfaces_before_any_payload() {
    let refused = interpret_subscribe(SubscribeReply::Refused(WireValue::Text(String::from(
        "permission denied",
    ))));
    assert_eq!(
        refused,
        ListenOutcome::SubscriptionError(WireValue::Text(String::from("permission denied")))
    );
    // a granted subscription opens a live fan-out queue on the bus
    let mut bus = EventBus::new();
    let id = bus.subscribe(String::from("connection"));
    match interpret_subscribe(SubscribeReply::Granted(id)) {
        ListenOutcome::Listening(handle) => {
            bus.emit(&String::from("connection"), &String::from("connected"));
            assert_eq!(bus.next_event(handle), Some(String::from("connected")));
        }
        other => panic!("expected a live listener, got {:?}", other),
    }
}

#[test]
fn listener_before_emit_observes_payload() {
    // event "connection" with payload type String
    let mut bus = EventBus::new();
    let listener = bus.subscribe(String::from("connection"));
    let delivered = bus.emit(&String::from("connection"), &String::from("connected"));
    assert_eq!(delivered, 1);
    assert_eq!(bus.next_event(listener), Some(String::from("connected")));
    assert_eq!(bus.next_event(listener), None);
}

#[test]
fn cancelled_listener_is_released_and_observes_nothing() {
    let mut bus = EventBus::new();
    let keeper = bus.subscribe(String::from("connection"));
    let quitter = bus.subscribe(String::from("connection"));
    assert_eq!(bus.subscription_count(), 2);
    // the quitter cancels before the emit: its subscription is released
    bus.cancel(quitter);
    assert_eq!(bus.subscription_count(), 1);
    let delivered = bus.emit(&String::from("connection"), &String::from("connected"));
    assert_eq!(delivered, 1);
    assert_eq!(bus.next_event(quitter), None);
    assert_eq!(bus.next_event(keeper), Some(String::from("connected")));
}

#[test]
fn each_subscriber_gets_its_own_fanout_queue() {
    let mut bus = EventBus::new();
    let first = bus.subscribe(String::from("conversation"));
    let second = bus.subscribe(String::from("conversation"));
    let other = bus.subscribe(String::from("connection"));
    let delivered = bus.emit(&String::from("conversation"), &String::from("hello"));
    // both conversation subscribers receive it, the connection one does not
    assert_eq!(delivered, 2);
    assert_eq!(bus.next_event(first), Some(String::from("hello")));
    // consuming one queue leaves the other's copy in place
    assert_eq!(bus.next_event(second), Some(String::from("hello")));
    assert_eq!(bus.next_event(other), None);
}

#[test]
fn queued_payloads_come_out_in_emit_order() {
    let mut bus = EventBus::new();
    let listener = bus.subscribe(String::from("connection_type"));
    bus.emit(&String::from("connection_type"), &String::from("Direct"));
    bus.emit(&String::from("connection_type"), &String::from("Mixed"));
    assert_eq!(bus.next_event(listener), Some(String::from("Direct")));
    assert_eq!(bus.next_event(listener), Some(String::from("Mixed")));
    assert_eq!(bus.next_event(listener), None);
}

#[test]
fn subscriber_after_emit_sees_nothing_earlier() {
    let mut bus = EventBus::new();
    bus.emit(&String::from("connection"), &String::from("connected"));
    let late = bus.subscribe(String::from("connection"));
    assert_eq!(bus.next_event(late), None);
}
