use comet_rpc::names::{query_variant_string, response_variant_string, u64_to_dec};
use comet_rpc::protocol::{generate_rpc_proto, GenError};
use comet_rpc::registry::{MethodDecl, Registrar, ServiceDecl};
use comet_rpc::render::{render_dispatch, render_protocol};
use comet_rpc::run;

fn decl(name: &str, takes_receiver: bool, params: &[&str], ret: Option<&str>) -> MethodDecl {
    MethodDecl {
        method_name: name.to_string(),
        takes_receiver,
        param_type_names: params.iter().map(|s| s.to_string()).collect(),
        return_type_name: ret.map(|s| s.to_string()),
    }
}

#[test]
fn ids_follow_registration_order() {
    let mut reg = Registrar::new();
    let owner = "Counter".to_string();
    assert_eq!(reg.register_rpc(&owner, &decl("increment", true, &[], Some("i32"))), 0);
    assert_eq!(reg.register_rpc(&owner, &decl("add", true, &["i32"], Some("i32"))), 1);
    assert_eq!(reg.register_rpc(&owner, &decl("reset", true, &[], None)), 2);
    let entries = reg.finalize();
    assert_eq!(entries.len(), 3);
    for (i, e) in entries.iter().enumerate() {
        assert_eq!(e.id, i as u64);
        assert_eq!(e.model_name, "Counter");
    }
    assert_eq!(entries[1].query_types, vec!["Counter".to_string(), "i32".to_string()]);
    assert_eq!(entries[1].method_name, "add");
    assert_eq!(entries[2].response_type, "()");
}

#[test]
fn one_variant_pair_per_descriptor() {
    let mut reg = Registrar::new();
    let owner = "Counter".to_string();
    reg.register_rpc(&owner, &decl("increment", true, &[], Some("i32")));
    reg.register_rpc(&owner, &decl("add", true, &["i32"], Some("i32")));
    reg.register_rpc(&owner, &decl("reset", true, &[], None));
    let entries = reg.finalize();
    let p = generate_rpc_proto(&entries).expect("generation should succeed");
    assert_eq!(p.query_variants.len(), 3);
    assert_eq!(p.response_variants.len(), 3);
    for i in 0..3u64 {
        assert_eq!(p.query_variants[i as usize].variant_name, format!("Query{}", i));
        assert_eq!(p.response_variants[i as usize].variant_name, format!("Response{}", i));
    }
}

#[test]
fn counter_increment_generates_expected_unions() {
    let mut reg = Registrar::new();
    let owner = "Counter".to_string();
    reg.register_rpc(&owner, &decl("increment", true, &[], Some("i32")));
    let entries = reg.finalize();
    assert_eq!(entries[0].query_types, vec!["Counter".to_string()]);
    assert_eq!(entries[0].response_type, "i32");
    let p = generate_rpc_proto(&entries).expect("generation should succeed");
    assert_eq!(p.query_variants[0].variant_name, "Query0");
    assert_eq!(p.query_variants[0].field_types, vec!["Counter".to_string()]);
    assert_eq!(p.response_variants[0].variant_name, "Response0");
    assert_eq!(p.response_variants[0].field_types, vec!["i32".to_string()]);
    assert_eq!(p.arms[0].model_name, "Counter");
    assert_eq!(p.arms[0].method_name, "increment");
    assert_eq!(p.arms[0].by_ref, vec![true]);
}

#[test]
fn receiver_is_elided_other_arguments_are_not() {
    let mut reg = Registrar::new();
    let owner = "Counter".to_string();
    reg.register_rpc(&owner, &decl("add", true, &["i32", "Counter"], Some("i32")));
    let entries = reg.finalize();
    let p = generate_rpc_proto(&entries).expect("generation should succeed");
    assert_eq!(p.arms[0].by_ref, vec![true, false, true]);
}

#[test]
fn empty_registry_generates_empty_unions() {
    let reg = Registrar::new();
    let entries = reg.finalize();
    assert_eq!(entries.len(), 0);
    let p = generate_rpc_proto(&entries).expect("generation should succeed");
    assert_eq!(p.query_variants.len(), 0);
    assert_eq!(p.response_variants.len(), 0);
    assert_eq!(p.arms.len(), 0);
    let text = render_protocol(&p);
    assert_eq!(text, "pub enum Query {\n}\npub enum Response {\n}\n");
}

#[test]
fn generation_is_idempotent() {
    let mut reg = Registrar::new();
    let owner = "Counter".to_string();
    reg.register_rpc(&owner, &decl("increment", true, &[], Some("i32")));
    reg.register_rpc(&owner, &decl("add", true, &["i32"], Some("i32")));
    let entries = reg.finalize();
    let p1 = generate_rpc_proto(&entries).expect("generation should succeed");
    let p2 = generate_rpc_proto(&entries).expect("generation should succeed");
    assert_eq!(render_protocol(&p1), render_protocol(&p2));
    assert_eq!(p1.arms.len(), p2.arms.len());
    for (a, b) in p1.arms.iter().zip(p2.arms.iter()) {
        assert_eq!(a.model_name, b.model_name);
        assert_eq!(a.method_name, b.method_name);
        assert_eq!(a.by_ref, b.by_ref);
    }
}

#[test]
fn rendered_unions_carry_every_variant() {
    let mut reg = Registrar::new();
    let owner = "Counter".to_string();
    reg.register_rpc(&owner, &decl("increment", true, &[], Some("i32")));
    reg.register_rpc(&owner, &decl("add", true, &["i32"], Some("i32")));
    let entries = reg.finalize();
    let p = generate_rpc_proto(&entries).expect("generation should succeed");
    let text = render_protocol(&p);
    assert_eq!(
        text,
        "pub enum Query {\n    Query0(Counter),\n    Query1(Counter, i32),\n}\n\
         pub enum Response {\n    Response0(i32),\n    Response1(i32),\n}\n"
    );
}

#[test]
fn rendered_dispatcher_routes_each_variant() {
    let mut reg = Registrar::new();
    let owner = "Counter".to_string();
    reg.register_rpc(&owner, &decl("increment", true, &[], Some("i32")));
    reg.register_rpc(&owner, &decl("add", true, &["i32"], Some("i32")));
    let entries = reg.finalize();
    let p = generate_rpc_proto(&entries).expect("generation should succeed");
    let text = render_dispatch(&p);
    assert_eq!(
        text,
        "match query {\n\
         \u{20}   Query::Query0(arg0) => Some(Proto::Response(Response::Response0(Counter::increment(&arg0)))),\n\
         \u{20}   Query::Query1(arg0, arg1) => Some(Proto::Response(Response::Response1(Counter::add(&arg0, arg1)))),\n\
         }\n"
    );
}

#[test]
fn rendered_dispatcher_of_empty_protocol_has_no_arms() {
    let p = generate_rpc_proto(&Registrar::new().finalize()).expect("generation should succeed");
    assert_eq!(render_dispatch(&p), "match query {\n}\n");
}

#[test]
fn unresolved_type_name_fails_generation() {
    let mut reg = Registrar::new();
    let owner = "Counter".to_string();
    reg.register_rpc(&owner, &decl("increment", true, &[], Some("i32")));
    reg.register_rpc(&owner, &decl("broken", true, &["]["], Some("i32")));
    let entries = reg.finalize();
    match generate_rpc_proto(&entries) {
        Err(GenError::UnresolvedName { entry_index }) => assert_eq!(entry_index, 1),
        Ok(_) => panic!("generation should fail on an unresolvable type name"),
    }
}

#[test]
fn unresolved_method_name_fails_generation() {
    let mut reg = Registrar::new();
    let owner = "Counter".to_string();
    reg.register_rpc(&owner, &decl("not a name", true, &[], Some("i32")));
    let entries = reg.finalize();
    match generate_rpc_proto(&entries) {
        Err(GenError::UnresolvedName { entry_index }) => assert_eq!(entry_index, 0),
        Ok(_) => panic!("generation should fail on an unresolvable method name"),
    }
}

#[test]
fn unresolved_owner_fails_generation() {
    let mut reg = Registrar::new();
    let owner = "not a type!".to_string();
    reg.register_rpc(&owner, &decl("increment", true, &[], Some("i32")));
    let entries = reg.finalize();
    assert!(generate_rpc_proto(&entries).is_err());
}

#[test]
fn unit_return_is_recorded_as_unit_type() {
    let mut reg = Registrar::new();
    let owner = "Counter".to_string();
    reg.register_rpc(&owner, &decl("reset", true, &[], None));
    let entries = reg.finalize();
    let p = generate_rpc_proto(&entries).expect("the unit type should resolve");
    assert_eq!(p.response_variants[0].field_types, vec!["()".to_string()]);
}

#[test]
fn duplicate_registration_keeps_both_descriptors() {
    let mut reg = Registrar::new();
    let owner = "Counter".to_string();
    let d = decl("increment", true, &[], Some("i32"));
    assert_eq!(reg.register_rpc(&owner, &d), 0);
    assert_eq!(reg.register_rpc(&owner, &d), 1);
    let entries = reg.finalize();
    assert_eq!(entries.len(), 2);
    assert_eq!(entries[0].method_name, entries[1].method_name);
}

#[test]
fn variant_names_render_decimal_ids() {
    assert_eq!(query_variant_string(0), "Query0");
    assert_eq!(query_variant_string(10), "Query10");
    assert_eq!(response_variant_string(7), "Response7");
    assert_eq!(u64_to_dec(0), "0");
    assert_eq!(u64_to_dec(1234567890), "1234567890");
    assert_eq!(u64_to_dec(u64::MAX), "18446744073709551615");
}

#[test]
fn run_collects_services_in_order() {
    let counter = ServiceDecl {
        self_type: "Counter".to_string(),
        methods: vec![decl("increment", true, &[], Some("i32"))],
    };
    let store = ServiceDecl {
        self_type: "Store".to_string(),
        methods: vec![
            decl("get", true, &["String"], Some("Option<i64>")),
            decl("put", true, &["String", "i64"], None),
        ],
    };
    let p = run(&vec![counter, store]).expect("generation should succeed");
    assert_eq!(p.query_variants.len(), 3);
    assert_eq!(p.query_variants[1].variant_name, "Query1");
    assert_eq!(p.arms[0].model_name, "Counter");
    assert_eq!(p.arms[1].model_name, "Store");
    assert_eq!(p.arms[2].model_name, "Store");
    assert_eq!(p.arms[2].method_name, "put");
}

#[test]
fn run_reports_the_first_unresolvable_descriptor() {
    let good = ServiceDecl {
        self_type: "Counter".to_string(),
        methods: vec![decl("increment", true, &[], Some("i32"))],
    };
    let bad = ServiceDecl {
        self_type: "Store".to_string(),
        methods: vec![decl("get", true, &["]["], Some("i64"))],
    };
    match run(&vec![good, bad]) {
        Err(GenError::UnresolvedName { entry_index }) => assert_eq!(entry_index, 1),
        Ok(_) => panic!("generation should fail as a whole"),
    }
}

#[test]
fn run_of_no_services_yields_empty_protocol() {
    let p = run(&vec![]).expect("generation should succeed");
    assert_eq!(p.query_variants.len(), 0);
    assert_eq!(p.response_variants.len(), 0);
}
