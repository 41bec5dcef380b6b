use apollo_tracing::HTTPMethod;
use apollo_tracing::machine::format_uname;
use apollo_tracing::machine::uname;
use apollo_tracing::node::ErrorEntry;
use apollo_tracing::node::NodeId;
use apollo_tracing::report::build_header;
use apollo_tracing::session::ApolloTracingDataExt;
use apollo_tracing::session::OperationInfo;
use apollo_tracing::session::RequestSession;
use apollo_tracing::session::SessionStage;
use apollo_tracing::session::build_trace;
use apollo_tracing::session::is_introspection_query;
use apollo_tracing::session::operation_key;
use apollo_tracing::trace::Timestamp;
use apollo_tracing::trace::duration_ns;
use apollo_tracing::tree::TraceTreeBuilder;

#[test]
fn method_codes() {
    assert_eq!(HTTPMethod::UNKNOWN.code(), 0);
    assert_eq!(HTTPMethod::OPTIONS.code(), 1);
    assert_eq!(HTTPMethod::GET.code(), 2);
    assert_eq!(HTTPMethod::HEAD.code(), 3);
    assert_eq!(HTTPMethod::POST.code(), 4);
    assert_eq!(HTTPMethod::PUT.code(), 5);
    assert_eq!(HTTPMethod::DELETE.code(), 6);
    assert_eq!(HTTPMethod::TRACE.code(), 7);
    assert_eq!(HTTPMethod::CONNECT.code(), 8);
    assert_eq!(HTTPMethod::PATCH.code(), 9);
}

#[test]
fn data_ext_defaults_to_all_absent() {
    let d = ApolloTracingDataExt::default();
    assert!(d.userid.is_none());
    assert!(d.client_name.is_none());
    assert!(d.client_version.is_none());
    assert!(d.path.is_none());
    assert!(d.host.is_none());
    assert!(d.method.is_none());
    assert!(d.secure.is_none());
    assert!(d.protocol.is_none());
    assert!(d.status_code.is_none());
}

#[test]
fn duration_exact_and_clamped() {
    let s = Timestamp { seconds: 10, nanos: 500 };
    let e = Timestamp { seconds: 12, nanos: 400 };
    assert_eq!(duration_ns(&s, &e), 1_999_999_900);
    // Clock going backwards clamps to zero.
    assert_eq!(duration_ns(&e, &s), 0);
    assert_eq!(duration_ns(&s, &s), 0);
    // A distance no signed 64-bit nanosecond count can represent is
    // reported as no duration at all.
    let lo = Timestamp { seconds: -10_000_000_000, nanos: 0 };
    let hi = Timestamp { seconds: 10_000_000_000, nanos: 0 };
    assert_eq!(duration_ns(&lo, &hi), 0);
    assert_eq!(
        duration_ns(&Timestamp { seconds: i64::MIN, nanos: 0 }, &Timestamp {
            seconds: i64::MAX,
            nanos: 999_999_999,
        }),
        0
    );
    // The largest representable distance is still exact.
    let s0 = Timestamp { seconds: 0, nanos: 0 };
    let e0 = Timestamp { seconds: i64::MAX / 1_000_000_000, nanos: 854_775_807 };
    assert_eq!(duration_ns(&s0, &e0), i64::MAX as u64);
    let past = Timestamp { seconds: i64::MAX / 1_000_000_000, nanos: 854_775_808 };
    assert_eq!(duration_ns(&s0, &past), 0);
}

#[test]
fn operation_key_format() {
    assert_eq!(
        operation_key(Some("Hello".to_string()), &"query Hello { hi }".to_string()),
        "# Hello\n query Hello { hi }"
    );
    assert_eq!(
        operation_key(None, &"query { hi }".to_string()),
        "# no_name\n query { hi }"
    );
}

fn op(is_query: bool, fields: &[&str]) -> OperationInfo {
    OperationInfo {
        is_query,
        top_level_fields: fields.iter().map(|f| f.to_string()).collect(),
    }
}

#[test]
fn introspection_detection() {
    assert!(is_introspection_query(&vec![op(true, &["__schema"])]));
    assert!(is_introspection_query(&vec![
        op(true, &["hero", "__schema"]),
        op(false, &["login"]),
    ]));
    assert!(!is_introspection_query(&vec![op(true, &["hero"])]));
    // A mutation selecting __schema is not an introspection query.
    assert!(!is_introspection_query(&vec![op(false, &["__schema"])]));
    assert!(!is_introspection_query(&vec![]));
}

#[test]
fn sentinels_fill_missing_metadata() {
    let ts = Timestamp { seconds: 5, nanos: 0 };
    let t = build_trace(
        ApolloTracingDataExt::default(),
        None,
        ts,
        ts,
        TraceTreeBuilder::new().finalize(),
    );
    assert_eq!(t.client_name, "no client name");
    assert_eq!(t.client_version, "no client version");
    assert_eq!(t.client_reference_id, "anonymous");
    assert_eq!(t.operation_name, "no operation");
    assert_eq!(t.http.path, "no path");
    assert_eq!(t.http.host, "no host");
    assert_eq!(t.http.protocol, "no operation");
    assert!(matches!(t.http.method, HTTPMethod::UNKNOWN));
    assert!(!t.http.secure);
    assert_eq!(t.http.status_code, 0);
    assert_eq!(t.duration_ns, 0);
}

#[test]
fn supplied_metadata_is_kept() {
    let ext = ApolloTracingDataExt {
        userid: Some("u1".to_string()),
        client_name: Some("cli".to_string()),
        client_version: Some("2.0".to_string()),
        path: Some("/graphql".to_string()),
        host: Some("api.example".to_string()),
        method: Some(HTTPMethod::POST),
        secure: Some(true),
        protocol: Some("HTTP/1.1".to_string()),
        status_code: Some(200),
    };
    let s = Timestamp { seconds: 5, nanos: 0 };
    let e = Timestamp { seconds: 5, nanos: 250 };
    let t = build_trace(
        ext,
        Some("Hello".to_string()),
        s,
        e,
        TraceTreeBuilder::new().finalize(),
    );
    assert_eq!(t.client_name, "cli");
    assert_eq!(t.client_version, "2.0");
    assert_eq!(t.client_reference_id, "u1");
    assert_eq!(t.operation_name, "Hello");
    assert_eq!(t.http.path, "/graphql");
    assert_eq!(t.http.host, "api.example");
    assert!(matches!(t.http.method, HTTPMethod::POST));
    assert!(t.http.secure);
    assert_eq!(t.http.protocol, "HTTP/1.1");
    assert_eq!(t.http.status_code, 200);
    assert_eq!(t.duration_ns, 250);
}

#[test]
fn session_lifecycle_produces_one_trace() {
    let t0 = Timestamp { seconds: 50, nanos: 0 };
    let mut s = RequestSession::new(t0);
    assert!(matches!(s.stage, SessionStage::Created));
    assert_eq!(s.operation_key, "schema");
    s.on_parse_complete(
        &vec![op(true, &["hero"])],
        Some("Hello".to_string()),
        &"query Hello { hero }".to_string(),
    );
    assert!(matches!(s.stage, SessionStage::Parsed));
    assert_eq!(s.operation_key, "# Hello\n query Hello { hero }");
    s.on_execute_begin(Timestamp { seconds: 51, nanos: 0 });
    let h = s.tree.begin_field(
        "hero".to_string(),
        None,
        "Query".to_string(),
        "Hero".to_string(),
        "hero".to_string(),
        NodeId::ResponseName("hero".to_string()),
        10,
    );
    s.tree.end_field(&h, 20);
    let (key, trace) = s.on_execute_end(
        Timestamp { seconds: 52, nanos: 0 },
        ApolloTracingDataExt::default(),
        Some("Hello".to_string()),
    );
    assert_eq!(key, "# Hello\n query Hello { hero }");
    assert_eq!(trace.duration_ns, 1_000_000_000);
    assert_eq!(trace.root.children.len(), 1);
    assert_eq!(trace.operation_name, "Hello");
}

#[test]
fn introspection_keeps_schema_sentinel() {
    let t0 = Timestamp { seconds: 1, nanos: 0 };
    let mut s = RequestSession::new(t0);
    s.on_parse_complete(
        &vec![op(true, &["__schema"])],
        Some("Introspect".to_string()),
        &"query Introspect { __schema }".to_string(),
    );
    assert_eq!(s.operation_key, "schema");
}

#[test]
fn field_error_still_yields_a_trace() {
    // Field `x` raises an error; its node carries exactly that one error
    // and the request's trace is still produced and accepted by the queue.
    let t0 = Timestamp { seconds: 7, nanos: 0 };
    let mut s = RequestSession::new(t0);
    s.on_parse_complete(&vec![op(true, &["x"])], None, &"query { x }".to_string());
    s.on_execute_begin(t0);
    let h = s.tree.begin_field(
        "x".to_string(),
        None,
        "Query".to_string(),
        "Int".to_string(),
        "x".to_string(),
        NodeId::ResponseName("x".to_string()),
        0,
    );
    s.tree.record_error(
        &h,
        ErrorEntry {
            message: "boom".to_string(),
            locations: vec![],
            json: "{\"message\":\"boom\"}".to_string(),
        },
    );
    s.tree.end_field(&h, 9);
    let (key, trace) = s.on_execute_end(
        Timestamp { seconds: 8, nanos: 0 },
        ApolloTracingDataExt::default(),
        None,
    );
    let x = &trace.root.children[0];
    assert_eq!(x.errors.len(), 1);
    assert_eq!(x.errors[0].message, "boom");
    let mut q = apollo_tracing::aggregator::TraceQueue::with_target(1);
    assert!(q.try_send(key, trace).is_none());
}

#[test]
fn uname_line_format() {
    assert_eq!(
        format_uname(
            &"Linux".to_string(),
            &"#1 SMP".to_string(),
            &"6.1.0".to_string(),
            &"x86_64".to_string(),
            &"node1".to_string(),
        ),
        "Linux #1 SMP 6.1.0 x86_64 node1"
    );
}

#[test]
fn uname_reports_this_host() {
    let line = uname().expect("host identification available");
    assert!(line.contains(' '));
}

#[test]
fn host_header_fixes_service_coordinates() {
    let h = apollo_tracing::report::host_header(
        "gql-1.example".to_string(),
        "graph@current".to_string(),
        "release-7".to_string(),
    );
    assert_eq!(h.hostname, "gql-1.example");
    assert_eq!(h.graph_ref, "graph@current");
    assert_eq!(h.service_version, "release-7");
    assert_eq!(h.agent_version, "async-studio-extension 0.1.0");
    assert_eq!(h.runtime_version, "Rust - No runtime version provided yet");
    // Sentinel or a five-field host line: both carry spaces.
    assert!(h.uname.contains(' '));
}

#[test]
fn header_fields_and_uname_sentinel() {
    let h = build_header(
        None,
        "gql-1.example".to_string(),
        "graph@current".to_string(),
        "release-7".to_string(),
    );
    assert_eq!(h.uname, "No uname provided");
    assert_eq!(h.hostname, "gql-1.example");
    assert_eq!(h.graph_ref, "graph@current");
    assert_eq!(h.service_version, "release-7");
    assert_eq!(h.agent_version, "async-studio-extension 0.1.0");
    assert_eq!(h.runtime_version, "Rust - No runtime version provided yet");
    let h2 = build_header(
        Some("Linux x y z n".to_string()),
        "a".to_string(),
        "b".to_string(),
        "c".to_string(),
    );
    assert_eq!(h2.uname, "Linux x y z n");
}
