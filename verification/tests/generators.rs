use ipc_contract::api::{api_interface, named, outcome_of, param};
use ipc_contract::dispatch::{impl_trait, ImplTrait};
use ipc_contract::errors::{DefinitionFault, GateFault, GenError};
use ipc_contract::events::{derive_events, EventDefinition, EventMacroInput};
use ipc_contract::schema::{classify_return, extract_result_types, Method, ReturnShape, TypeExpr};
use ipc_contract::stubgen::{invoke_bindings, CallKind, InvokeBindingAttrs, KeyValuePair};
use ipc_contract::text::wire_case;

fn no_prefix() -> InvokeBindingAttrs {
    InvokeBindingAttrs { cmd_prefix: None }
}

fn simple_method(name: &str, params: Vec<ipc_contract::schema::Param>, ret: TypeExpr) -> Method {
    Method {
        name: String::from(name),
        params,
        ret,
    }
}

#[test]
fn outcome_shape_is_extracted() {
    let ty = outcome_of(named("String"), named("String"));
    let extracted = extract_result_types(&ty);
    assert!(extracted.is_some());
    let (ok, err) = extracted.unwrap();
    assert_eq!(*ok, named("String"));
    assert_eq!(*err, named("String"));
    assert!(matches!(
        classify_return(ty),
        ReturnShape::Outcome(_, _)
    ));
}

#[test]
fn non_outcome_shapes_are_opaque_or_unit() {
    // no value at all
    assert_eq!(classify_return(TypeExpr::Unit), ReturnShape::Unit);
    // a one-parameter generic is not the Outcome shape
    let one_arg = TypeExpr::Named {
        segments: vec![String::from("Vec")],
        args: vec![named("String")],
    };
    assert!(extract_result_types(&one_arg).is_none());
    assert!(matches!(classify_return(one_arg), ReturnShape::Opaque(_)));
    // a Result with one type parameter is not the Outcome shape either
    let one_arg_result = TypeExpr::Named {
        segments: vec![String::from("Result")],
        args: vec![named("String")],
    };
    assert!(extract_result_types(&one_arg_result).is_none());
    // a tuple is Opaque
    let tuple = TypeExpr::Tuple(vec![named("String"), named("String")]);
    assert!(matches!(classify_return(tuple), ReturnShape::Opaque(_)));
}

#[test]
fn qualified_result_counts_by_last_segment() {
    let ty = TypeExpr::Named {
        segments: vec![String::from("core"), String::from("result"), String::from("Result")],
        args: vec![named("u64"), named("String")],
    };
    assert!(extract_result_types(&ty).is_some());
}

#[test]
fn stub_generation_for_api() {
    let stubs = invoke_bindings(api_interface(), &no_prefix()).unwrap();
    assert_eq!(stubs.len(), 3);
    assert_eq!(stubs[0].fn_name, "get_serialized_ticket");
    assert_eq!(stubs[0].wire_ident, "get_serialized_ticket");
    assert!(stubs[0].fields.is_empty());
    assert!(matches!(stubs[0].call, CallKind::Outcome(_, _)));
    assert_eq!(stubs[1].fn_name, "connect_via_serialized_ticket");
    assert_eq!(stubs[1].fields.len(), 1);
    assert_eq!(stubs[1].fields[0].source_name, "ticket");
    assert_eq!(stubs[1].fields[0].wire_name, "ticket");
    assert_eq!(stubs[2].fn_name, "broadcast_message");
    match &stubs[2].call {
        CallKind::Outcome(ok, err) => {
            assert_eq!(*ok, TypeExpr::Unit);
            assert_eq!(*err, named("String"));
        }
        other => panic!("expected the failure-decodable path, got {:?}", other),
    }
}

#[test]
fn command_prefix_prepends_to_wire_ident() {
    let attrs = InvokeBindingAttrs {
        cmd_prefix: Some(String::from("chat|")),
    };
    let stubs = invoke_bindings(api_interface(), &attrs).unwrap();
    assert_eq!(stubs[0].wire_ident, "chat|get_serialized_ticket");
    assert_eq!(stubs[1].wire_ident, "chat|connect_via_serialized_ticket");
    // the generated function keeps the declared name
    assert_eq!(stubs[0].fn_name, "get_serialized_ticket");
}

#[test]
fn attrs_from_pairs_takes_last_prefix() {
    let pairs = vec![
        KeyValuePair {
            key: String::from("cmd_prefix"),
            value: String::from("one|"),
        },
        KeyValuePair {
            key: String::from("unrelated"),
            value: String::from("x"),
        },
        KeyValuePair {
            key: String::from("cmd_prefix"),
            value: String::from("two|"),
        },
    ];
    let attrs = InvokeBindingAttrs::from_pairs(&pairs);
    assert_eq!(attrs.cmd_prefix, Some(String::from("two|")));
    assert_eq!(InvokeBindingAttrs::from_pairs(&vec![]).cmd_prefix, None);
}

#[test]
fn argument_record_preserves_declaration_order() {
    let def = ipc_contract::schema::InterfaceDef {
        name: String::from("Ordered"),
        methods: vec![simple_method(
            "several",
            vec![
                param("gamma_ray", named("u64")),
                param("alpha", named("String")),
                param("beta_value", named("bool")),
            ],
            TypeExpr::Unit,
        )],
    };
    let stubs = invoke_bindings(def, &no_prefix()).unwrap();
    let fields = &stubs[0].fields;
    assert_eq!(fields.len(), 3);
    assert_eq!(fields[0].source_name, "gamma_ray");
    assert_eq!(fields[1].source_name, "alpha");
    assert_eq!(fields[2].source_name, "beta_value");
    assert_eq!(fields[0].wire_name, "gammaRay");
    assert_eq!(fields[1].wire_name, "alpha");
    assert_eq!(fields[2].wire_name, "betaValue");
}

#[test]
fn wire_case_examples() {
    assert_eq!(wire_case("camera_direction"), "cameraDirection");
    assert_eq!(wire_case("get_ticket"), "getTicket");
    assert_eq!(wire_case("snake_case_name"), "snakeCaseName");
    assert_eq!(wire_case("already"), "already");
    assert_eq!(wire_case("a__b"), "aB");
    assert_eq!(wire_case("_leading"), "leading");
    assert_eq!(wire_case("trailing_"), "trailing");
    assert_eq!(wire_case("Upper_start"), "upperStart");
    assert_eq!(wire_case(""), "");
    assert_eq!(wire_case("___"), "");
}

#[test]
fn regeneration_yields_identical_field_names() {
    let build = || ipc_contract::schema::InterfaceDef {
        name: String::from("Twice"),
        methods: vec![simple_method(
            "send_all",
            vec![param("message_body", named("String")), param("retry_count", named("u64"))],
            outcome_of(TypeExpr::Unit, named("String")),
        )],
    };
    let first = invoke_bindings(build(), &no_prefix()).unwrap();
    let second = invoke_bindings(build(), &no_prefix()).unwrap();
    assert_eq!(first.len(), second.len());
    for (a, b) in first.iter().zip(second.iter()) {
        assert_eq!(a.wire_ident, b.wire_ident);
        assert_eq!(a.fields.len(), b.fields.len());
        for (fa, fb) in a.fields.iter().zip(b.fields.iter()) {
            assert_eq!(fa.wire_name, fb.wire_name);
        }
    }
}

#[test]
fn duplicate_method_name_fails_generation() {
    let def = ipc_contract::schema::InterfaceDef {
        name: String::from("Dup"),
        methods: vec![
            simple_method("sync", vec![], outcome_of(TypeExpr::Unit, named("String"))),
            simple_method("sync", vec![], TypeExpr::Unit),
        ],
    };
    let err = invoke_bindings(def, &no_prefix()).unwrap_err();
    assert_eq!(err.fault, DefinitionFault::DuplicateMethod);
    assert_eq!(err.item, "sync");
    assert_eq!(err.message(), "duplicate method name: sync");
}

#[test]
fn receiver_parameter_fails_generation() {
    let def = ipc_contract::schema::InterfaceDef {
        name: String::from("WithSelf"),
        methods: vec![simple_method(
            "takes_self",
            vec![ipc_contract::schema::Param {
                binding: ipc_contract::schema::Binding::Receiver,
                ty: named("String"),
            }],
            TypeExpr::Unit,
        )],
    };
    let err = invoke_bindings(def, &no_prefix()).unwrap_err();
    assert_eq!(err.fault, DefinitionFault::ReceiverParam);
    assert_eq!(err.item, "takes_self");
    assert_eq!(err.detail, "self");
}

#[test]
fn pattern_parameter_fails_generation() {
    let def = ipc_contract::schema::InterfaceDef {
        name: String::from("WithPattern"),
        methods: vec![simple_method(
            "destructures",
            vec![ipc_contract::schema::Param {
                binding: ipc_contract::schema::Binding::Pattern(String::from("(a, b)")),
                ty: named("Pair"),
            }],
            TypeExpr::Unit,
        )],
    };
    let err = invoke_bindings(def, &no_prefix()).unwrap_err();
    assert_eq!(err.fault, DefinitionFault::UnsupportedPattern);
    assert_eq!(err.item, "destructures");
    assert_eq!(err.detail, "(a, b)");
}

#[test]
fn duplicate_parameter_name_fails_generation() {
    let def = ipc_contract::schema::InterfaceDef {
        name: String::from("DupParam"),
        methods: vec![simple_method(
            "twice",
            vec![param("x", named("u64")), param("x", named("String"))],
            TypeExpr::Unit,
        )],
    };
    let err = invoke_bindings(def, &no_prefix()).unwrap_err();
    assert_eq!(err.fault, DefinitionFault::DuplicateParam);
    assert_eq!(err.item, "twice");
    assert_eq!(err.detail, "x");
    assert_eq!(err.message(), "duplicate parameter name in method twice: x");
}

fn host_typed(first_segment: &str, rest: &str) -> TypeExpr {
    TypeExpr::Named {
        segments: vec![String::from(first_segment), String::from(rest)],
        args: vec![],
    }
}

#[test]
fn dispatch_strips_host_context_parameter() {
    // method broadcast(message: Message, ctx: HostState), marker HostState
    let input = ImplTrait {
        trait_ident: String::from("API"),
        fns: vec![simple_method(
            "broadcast",
            vec![param("message", named("Message")), param("ctx", named("HostState"))],
            outcome_of(TypeExpr::Unit, named("String")),
        )],
    };
    let table = impl_trait(input, &String::from("HostState")).unwrap();
    assert_eq!(table.hidden_impl_name, "__ImplAPI");
    let entry = &table.entries[0];
    // the public contract exposes only `message`
    assert_eq!(entry.public_params.len(), 1);
    assert_eq!(
        entry.public_params[0].binding,
        ipc_contract::schema::Binding::Name(String::from("message"))
    );
    // the generated call still receives ctx, bound to a discarded name
    assert_eq!(entry.call_bindings, vec![String::from("message"), String::from("_ctx")]);
}

#[test]
fn dispatch_strips_zero_one_and_many() {
    let marker = String::from("tauri");
    // zero host-context parameters: everything kept
    let zero = ImplTrait {
        trait_ident: String::from("Zero"),
        fns: vec![simple_method(
            "plain",
            vec![param("a", named("u64")), param("b", named("String"))],
            TypeExpr::Unit,
        )],
    };
    let t0 = impl_trait(zero, &marker).unwrap();
    assert_eq!(t0.entries[0].public_params.len(), 2);
    assert_eq!(t0.entries[0].call_bindings, vec![String::from("a"), String::from("b")]);

    // several host-context parameters, interleaved: exactly those stripped
    let many = ImplTrait {
        trait_ident: String::from("Many"),
        fns: vec![simple_method(
            "mixed",
            vec![
                param("state", host_typed("tauri", "State")),
                param("ticket", named("String")),
                param("handle", host_typed("tauri", "AppHandle")),
            ],
            TypeExpr::Unit,
        )],
    };
    let t2 = impl_trait(many, &marker).unwrap();
    assert_eq!(t2.entries[0].public_params.len(), 1);
    assert_eq!(
        t2.entries[0].public_params[0].binding,
        ipc_contract::schema::Binding::Name(String::from("ticket"))
    );
    assert_eq!(
        t2.entries[0].call_bindings,
        vec![String::from("_state"), String::from("ticket"), String::from("_handle")]
    );
    // only the leading segment matters: a type merely named `tauri` in a
    // later segment is kept
    let nested = ImplTrait {
        trait_ident: String::from("Nested"),
        fns: vec![simple_method(
            "inner",
            vec![param("v", host_typed("kinds", "tauri"))],
            TypeExpr::Unit,
        )],
    };
    let t3 = impl_trait(nested, &marker).unwrap();
    assert_eq!(t3.entries[0].public_params.len(), 1);
}

#[test]
fn dispatch_table_lookup_finds_entries() {
    let input = ImplTrait {
        trait_ident: String::from("API"),
        fns: vec![
            simple_method("first", vec![], TypeExpr::Unit),
            simple_method("second", vec![], TypeExpr::Unit),
        ],
    };
    let table = impl_trait(input, &String::from("tauri")).unwrap();
    assert!(table.lookup(&String::from("first")).is_some());
    assert_eq!(
        table.lookup(&String::from("second")).unwrap().method_name,
        "second"
    );
    assert!(table.lookup(&String::from("absent")).is_none());
}

#[test]
fn dispatch_duplicate_handler_fails() {
    let input = ImplTrait {
        trait_ident: String::from("API"),
        fns: vec![
            simple_method("sync", vec![], TypeExpr::Unit),
            simple_method("sync", vec![], TypeExpr::Unit),
        ],
    };
    let err = impl_trait(input, &String::from("tauri")).unwrap_err();
    assert_eq!(err.fault, DefinitionFault::DuplicateMethod);
    assert_eq!(err.item, "sync");
}

fn event_input(emit: bool, listen: bool) -> EventMacroInput {
    EventMacroInput {
        emit_capable: emit,
        listen_capable: listen,
        events: ipc_contract::api::api_events(),
    }
}

#[test]
fn both_gates_fail_generation() {
    match derive_events(event_input(true, true)) {
        Err(GenError::Configuration(c)) => {
            assert_eq!(c.fault, GateFault::BothGates);
            assert!(c.message().contains("both"));
        }
        other => panic!("expected a configuration error, got {:?}", other),
    }
}

#[test]
fn neither_gate_fails_generation() {
    match derive_events(event_input(false, false)) {
        Err(GenError::Configuration(c)) => {
            assert_eq!(c.fault, GateFault::NeitherGate);
            assert!(c.message().contains("neither"));
        }
        other => panic!("expected a configuration error, got {:?}", other),
    }
}

#[test]
fn single_gate_generates_wrappers() {
    let emitting = derive_events(event_input(true, false)).unwrap();
    assert_eq!(emitting.len(), 3);
    for w in &emitting {
        assert!(w.emits);
        assert!(!w.listens);
    }
    // event names pass through verbatim, never wire-cased
    assert_eq!(emitting[2].event_name, "connection_type");
    assert_eq!(emitting[2].carrier_name, "connection_type");
    assert_eq!(emitting[0].event_name, "conversation");

    let listening = derive_events(event_input(false, true)).unwrap();
    for w in &listening {
        assert!(!w.emits);
        assert!(w.listens);
    }
}

#[test]
fn scanner_stub_uses_the_plugin_namespace() {
    // the capability module follows the same stub pattern, behind the
    // plugin's command prefix, on the plain path (its return is no Outcome)
    let attrs = InvokeBindingAttrs {
        cmd_prefix: Some(String::from("plugin:barcode-scanner|")),
    };
    let stubs =
        invoke_bindings(ipc_contract::barcode_scanner::scan_interface(), &attrs).unwrap();
    assert_eq!(stubs.len(), 1);
    assert_eq!(stubs[0].wire_ident, "plugin:barcode-scanner|scan");
    assert_eq!(stubs[0].fields[0].wire_name, "cameraDirection");
    assert_eq!(stubs[0].fields[1].wire_name, "formats");
    assert_eq!(stubs[0].fields[2].wire_name, "windowed");
    assert!(matches!(stubs[0].call, CallKind::Plain(_)));
}

#[test]
fn duplicate_event_name_fails_generation() {
    let input = EventMacroInput {
        emit_capable: true,
        listen_capable: false,
        events: vec![
            EventDefinition {
                name: String::from("connection"),
                payload_type: named("String"),
            },
            EventDefinition {
                name: String::from("connection"),
                payload_type: named("u64"),
            },
        ],
    };
    match derive_events(input) {
        Err(GenError::Definition(d)) => {
            assert_eq!(d.fault, DefinitionFault::DuplicateEvent);
            assert_eq!(d.item, "connection");
            assert_eq!(d.message(), "duplicate event name: connection");
        }
        other => panic!("expected a definition error, got {:?}", other),
    }
}
