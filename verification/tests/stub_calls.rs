use comet_rpc::dispatch::{Proto, QueryMsg, ResponseMsg, Value};
use comet_rpc::registry::{MethodDecl, Registrar, ServiceDecl};
use comet_rpc::stub::{
    build_query, compile_method, match_response, BuildTarget, ConnectionGate, MethodBody,
    StubAction, StubCall, StubEvent, StubFault, StubState,
};
use comet_rpc::{perform, run};

#[test]
fn stub_call_happy_path() {
    let mut call = StubCall::new(0, vec![Value::Int(4)]);
    assert_eq!(call.state, StubState::Idle);

    let a = call.step(StubEvent::Started);
    assert_eq!(a, StubAction::Acquire);
    assert_eq!(call.state, StubState::AwaitingConnection);

    let a = call.step(StubEvent::ConnectionReady);
    assert_eq!(
        a,
        StubAction::Send(Proto::Query(QueryMsg { entry_id: 0, args: vec![Value::Int(4)] }))
    );
    assert_eq!(call.state, StubState::AwaitingResponse);

    let a = call.step(StubEvent::Arrived(Proto::Response(ResponseMsg {
        entry_id: 0,
        value: Value::Int(5),
    })));
    assert_eq!(a, StubAction::Finish);
    assert_eq!(call.state, StubState::Completed(Value::Int(5)));
}

#[test]
fn stub_call_without_connection_is_fatal() {
    let mut call = StubCall::new(0, vec![Value::Int(4)]);
    call.step(StubEvent::Started);
    let a = call.step(StubEvent::ConnectionMissing);
    assert_eq!(a, StubAction::Abort);
    assert_eq!(call.state, StubState::Fatal(StubFault::NoSocket));
}

#[test]
fn crossed_response_is_detected_not_returned() {
    let mut call = StubCall::new(0, vec![Value::Int(4)]);
    call.step(StubEvent::Started);
    call.step(StubEvent::ConnectionReady);
    // A reply for descriptor 1 arrives while call 0 is awaiting: the
    // call must end in the desynchronization fault, never complete
    // with the other call's value.
    let a = call.step(StubEvent::Arrived(Proto::Response(ResponseMsg {
        entry_id: 1,
        value: Value::Int(99),
    })));
    assert_eq!(a, StubAction::Abort);
    assert_eq!(call.state, StubState::Fatal(StubFault::ProtocolDesync));
}

#[test]
fn query_envelope_never_matches_a_waiting_call() {
    let mut call = StubCall::new(0, vec![]);
    call.step(StubEvent::Started);
    call.step(StubEvent::ConnectionReady);
    let a = call.step(StubEvent::Arrived(Proto::Query(QueryMsg { entry_id: 0, args: vec![] })));
    assert_eq!(a, StubAction::Abort);
    assert_eq!(call.state, StubState::Fatal(StubFault::ProtocolDesync));
}

#[test]
fn match_response_accepts_exactly_the_awaited_variant() {
    let ok = match_response(
        3,
        Proto::Response(ResponseMsg { entry_id: 3, value: Value::Text("done".to_string()) }),
    );
    assert_eq!(ok, Ok(Value::Text("done".to_string())));
    let crossed = match_response(
        3,
        Proto::Response(ResponseMsg { entry_id: 4, value: Value::Unit }),
    );
    assert_eq!(crossed, Err(StubFault::ProtocolDesync));
    let query = match_response(3, Proto::Query(QueryMsg { entry_id: 3, args: vec![] }));
    assert_eq!(query, Err(StubFault::ProtocolDesync));
}

#[test]
fn connection_admits_one_call_at_a_time() {
    let mut gate = ConnectionGate::new();
    assert!(gate.try_begin());
    // A second call issued while the first is still awaiting its
    // response is refused: only one request is ever in flight.
    assert!(!gate.try_begin());
    gate.finish();
    assert!(gate.try_begin());
}

#[test]
fn build_query_carries_id_and_copied_arguments() {
    let args = vec![Value::Int(4), Value::Bool(true)];
    let q = build_query(7, &args);
    assert_eq!(q, Proto::Query(QueryMsg { entry_id: 7, args: args.clone() }));
}

#[test]
fn exactly_one_body_per_build_target() {
    let mut reg = Registrar::new();
    let owner = "Counter".to_string();
    reg.register_rpc(
        &owner,
        &MethodDecl {
            method_name: "increment".to_string(),
            takes_receiver: true,
            param_type_names: vec![],
            return_type_name: Some("i32".to_string()),
        },
    );
    let entries = reg.finalize();
    assert_eq!(compile_method(&entries[0], &BuildTarget::Host), MethodBody::HostBody);
    assert_eq!(
        compile_method(&entries[0], &BuildTarget::Remote),
        MethodBody::StubBody { entry_id: 0 }
    );
}

#[test]
fn perform_emits_both_bodies_per_method() {
    let mut reg = Registrar::new();
    let svc = ServiceDecl {
        self_type: "Counter".to_string(),
        methods: vec![
            MethodDecl {
                method_name: "increment".to_string(),
                takes_receiver: true,
                param_type_names: vec![],
                return_type_name: Some("i32".to_string()),
            },
            MethodDecl {
                method_name: "reset".to_string(),
                takes_receiver: true,
                param_type_names: vec![],
                return_type_name: None,
            },
        ],
    };
    let expanded = perform(&mut reg, &svc);
    assert_eq!(expanded.len(), 2);
    for (k, m) in expanded.iter().enumerate() {
        assert_eq!(m.entry_id, k as u64);
        assert_eq!(m.host_body, MethodBody::HostBody);
        assert_eq!(m.stub_body, MethodBody::StubBody { entry_id: k as u64 });
    }
    let entries = reg.finalize();
    assert_eq!(entries.len(), 2);
    // A second block continues the same id sequence: the protocol
    // compiled from the combined registry stays whole.
    let p = run(&vec![ServiceDecl {
        self_type: "Counter".to_string(),
        methods: vec![MethodDecl {
            method_name: "increment".to_string(),
            takes_receiver: true,
            param_type_names: vec![],
            return_type_name: Some("i32".to_string()),
        }],
    }])
    .expect("generation should succeed");
    assert_eq!(p.query_variants.len(), 1);
}
