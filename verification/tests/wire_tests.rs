use std::io::Read;

use apollo_tracing::aggregator::Aggregator;
use apollo_tracing::node::NodeId;
use apollo_tracing::report::ReportHeader;
use apollo_tracing::report::encode_report;
use apollo_tracing::report::prepare_flush;
use apollo_tracing::session::ApolloTracingDataExt;
use apollo_tracing::session::build_trace;
use apollo_tracing::trace::Timestamp;
use apollo_tracing::tree::TraceTreeBuilder;
use apollo_tracing::wire::node_bytes;
use apollo_tracing::wire::push_varint;

fn varint(n: u64) -> Vec<u8> {
    let mut v = Vec::new();
    push_varint(&mut v, n);
    v
}

#[test]
fn varint_exact_bytes() {
    assert_eq!(varint(0), vec![0]);
    assert_eq!(varint(1), vec![1]);
    assert_eq!(varint(127), vec![127]);
    assert_eq!(varint(128), vec![128, 1]);
    assert_eq!(varint(300), vec![172, 2]);
    assert_eq!(varint(u64::MAX), vec![255, 255, 255, 255, 255, 255, 255, 255, 255, 1]);
}

#[test]
fn node_exact_bytes() {
    let mut b = TraceTreeBuilder::new();
    let h = b.begin_field(
        "a".to_string(),
        None,
        "Q".to_string(),
        "S".to_string(),
        "a".to_string(),
        NodeId::ResponseName("a".to_string()),
        1,
    );
    b.end_field(&h, 2);
    let root = b.finalize();
    let bytes = node_bytes(&root.children[0]);
    assert_eq!(
        bytes,
        vec![
            10, 1, 97, // response name "a"
            26, 1, 81, // parent type "Q"
            34, 1, 97, // original field name "a"
            42, 1, 83, // field type "S"
            48, 1, // start offset 1
            56, 2, // end offset 2
        ]
    );
}

fn empty_header() -> ReportHeader {
    ReportHeader {
        uname: String::new(),
        hostname: String::new(),
        graph_ref: String::new(),
        service_version: String::new(),
        agent_version: String::new(),
        runtime_version: String::new(),
    }
}

#[test]
fn empty_report_exact_bytes() {
    // An empty batch is just the header record: six empty string fields.
    let batch = apollo_tracing::aggregator::ReportBatch { buckets: Vec::new() };
    let bytes = encode_report(&batch, &empty_header());
    assert_eq!(bytes, vec![10, 12, 10, 0, 18, 0, 26, 0, 34, 0, 42, 0, 50, 0]);
}

#[test]
fn report_contains_key_and_trace() {
    let ts = Timestamp { seconds: 3, nanos: 9 };
    let mut agg = Aggregator::new(1);
    assert!(agg
        .ingest(
            "query Hello".to_string(),
            build_trace(
                ApolloTracingDataExt::default(),
                Some("Hello".to_string()),
                ts,
                Timestamp { seconds: 4, nanos: 9 },
                TraceTreeBuilder::new().finalize(),
            ),
        )
        .is_none());
    let batch = agg
        .ingest(
            "query Hello".to_string(),
            build_trace(
                ApolloTracingDataExt::default(),
                Some("Hello".to_string()),
                ts,
                Timestamp { seconds: 4, nanos: 9 },
                TraceTreeBuilder::new().finalize(),
            ),
        )
        .expect("second trace flushes at target 1");
    let bytes = encode_report(&batch, &empty_header());
    // The operation key's field appears, length-delimited, inside the entry.
    let key = b"query Hello";
    let with_tag: Vec<u8> = [&[10u8, key.len() as u8][..], key].concat();
    assert!(bytes
        .windows(with_tag.len())
        .any(|w| w == with_tag.as_slice()));
}

#[test]
fn compressed_payload_round_trips() {
    let ts = Timestamp { seconds: 1, nanos: 2 };
    let mut agg = Aggregator::new(1);
    assert!(agg
        .ingest(
            "k".to_string(),
            build_trace(
                ApolloTracingDataExt::default(),
                None,
                ts,
                ts,
                TraceTreeBuilder::new().finalize(),
            ),
        )
        .is_none());
    let batch = agg
        .ingest(
            "k".to_string(),
            build_trace(
                ApolloTracingDataExt::default(),
                None,
                ts,
                ts,
                TraceTreeBuilder::new().finalize(),
            ),
        )
        .expect("flush at target 1");
    let encoded = encode_report(&batch, &empty_header());
    let compressed = prepare_flush(&batch, &empty_header()).expect("compression succeeds");
    // A real gzip stream: magic bytes, and inflating restores the wire image.
    assert_ne!(compressed, encoded);
    assert_eq!(compressed[0], 0x1f);
    assert_eq!(compressed[1], 0x8b);
    let mut decoder = flate2::read::GzDecoder::new(&compressed[..]);
    let mut inflated = Vec::new();
    decoder
        .read_to_end(&mut inflated)
        .expect("payload inflates");
    assert_eq!(inflated, encoded);
}
