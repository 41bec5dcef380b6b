use apollo_tracing::node::ErrorEntry;
use apollo_tracing::node::ErrorLocation;
use apollo_tracing::node::NodeId;
use apollo_tracing::node::TraceNode;
use apollo_tracing::tree::TraceTreeBuilder;

fn begin(
    b: &mut TraceTreeBuilder,
    path: &str,
    parent: Option<&str>,
    name: &str,
    start: u64,
) -> apollo_tracing::tree::NodeHandle {
    b.begin_field(
        path.to_string(),
        parent.map(|p| p.to_string()),
        "Query".to_string(),
        "String".to_string(),
        name.to_string(),
        NodeId::ResponseName(name.to_string()),
        start,
    )
}

fn child_names(n: &TraceNode) -> Vec<String> {
    n.children
        .iter()
        .map(|c| match &c.id {
            NodeId::ResponseName(s) => s.clone(),
            NodeId::Index(i) => format!("{}", i),
        })
        .collect()
}

#[test]
fn sibling_completion_order_under_parent() {
    // Fields `a`, `a.b`, `a.c` resolve concurrently; b completes before c.
    let mut b = TraceTreeBuilder::new();
    let ha = begin(&mut b, "a", None, "a", 1);
    let hc = begin(&mut b, "a.c", Some("a"), "c", 3);
    let hb = begin(&mut b, "a.b", Some("a"), "b", 2);
    b.end_field(&hb, 10);
    b.end_field(&hc, 11);
    b.end_field(&ha, 12);
    let root = b.finalize();
    assert_eq!(child_names(&root), vec!["a".to_string()]);
    let a = &root.children[0];
    assert_eq!(child_names(a), vec!["b".to_string(), "c".to_string()]);
    assert_eq!(a.children[0].start_offset_ns, 2);
    assert_eq!(a.children[0].end_offset_ns, Some(10));
    assert_eq!(a.children[1].start_offset_ns, 3);
    assert_eq!(a.children[1].end_offset_ns, Some(11));
    assert_eq!(a.end_offset_ns, Some(12));
}

#[test]
fn parent_absent_attaches_to_root() {
    // The parent path was never registered: the node goes under the root.
    let mut b = TraceTreeBuilder::new();
    let h = begin(&mut b, "x.y", Some("x"), "y", 0);
    b.end_field(&h, 5);
    let root = b.finalize();
    assert_eq!(child_names(&root), vec!["y".to_string()]);
}

#[test]
fn parent_already_finalized_attaches_to_root() {
    // The parent ended (and was evicted) before the child: root keeps it.
    let mut b = TraceTreeBuilder::new();
    let ha = begin(&mut b, "a", None, "a", 0);
    let hb = begin(&mut b, "a.b", Some("a"), "b", 1);
    b.end_field(&ha, 2);
    b.end_field(&hb, 3);
    let root = b.finalize();
    assert_eq!(child_names(&root), vec!["a".to_string(), "b".to_string()]);
    assert!(root.children[0].children.is_empty());
}

#[test]
fn every_node_appears_exactly_once() {
    fn count(n: &TraceNode) -> usize {
        1 + n.children.iter().map(count).sum::<usize>()
    }
    let mut b = TraceTreeBuilder::new();
    let ha = begin(&mut b, "a", None, "a", 0);
    let hb = begin(&mut b, "a.b", Some("a"), "b", 1);
    let hc = begin(&mut b, "a.c", Some("a"), "c", 1);
    let hd = begin(&mut b, "a.b.d", Some("a.b"), "d", 2);
    let he = begin(&mut b, "e", None, "e", 2);
    b.end_field(&hd, 3);
    b.end_field(&hb, 4);
    b.end_field(&hc, 5);
    b.end_field(&he, 6);
    b.end_field(&ha, 7);
    let root = b.finalize();
    // Five begun fields, five ended: five nodes below the synthetic root.
    assert_eq!(count(&root) - 1, 5);
    assert_eq!(child_names(&root), vec!["e".to_string(), "a".to_string()]);
    let a = &root.children[1];
    assert_eq!(child_names(a), vec!["b".to_string(), "c".to_string()]);
    assert_eq!(child_names(&a.children[0]), vec!["d".to_string()]);
}

#[test]
fn no_errors_recorded_means_empty_list() {
    let mut b = TraceTreeBuilder::new();
    let h = begin(&mut b, "x", None, "x", 0);
    b.end_field(&h, 1);
    let root = b.finalize();
    assert!(root.children[0].errors.is_empty());
}

#[test]
fn n_errors_recorded_in_call_order() {
    let mut b = TraceTreeBuilder::new();
    let h = begin(&mut b, "x", None, "x", 0);
    for k in 0..3 {
        b.record_error(
            &h,
            ErrorEntry {
                message: format!("error {}", k),
                locations: vec![ErrorLocation { line: k + 1, column: 7 }],
                json: "{}".to_string(),
            },
        );
    }
    b.end_field(&h, 1);
    let root = b.finalize();
    let x = &root.children[0];
    assert_eq!(x.errors.len(), 3);
    for k in 0..3usize {
        assert_eq!(x.errors[k].message, format!("error {}", k));
        assert_eq!(x.errors[k].locations.len(), 1);
        assert_eq!(x.errors[k].locations[0].line, (k + 1) as u32);
        assert_eq!(x.errors[k].locations[0].column, 7);
    }
}

#[test]
fn finalized_durations_are_non_negative() {
    fn check(n: &TraceNode) {
        let end = n.end_offset_ns.expect("finalized node has an end offset");
        assert!(end >= n.start_offset_ns);
        for c in &n.children {
            check(c);
        }
    }
    let mut b = TraceTreeBuilder::new();
    let ha = begin(&mut b, "a", None, "a", 10);
    let hb = begin(&mut b, "a.b", Some("a"), "b", 20);
    b.end_field(&hb, 20);
    b.end_field(&ha, 30);
    let root = b.finalize();
    check(&root);
}

#[test]
fn list_index_identity() {
    let mut b = TraceTreeBuilder::new();
    let h = b.begin_field(
        "items.0".to_string(),
        Some("items".to_string()),
        "Query".to_string(),
        "Item".to_string(),
        "items".to_string(),
        NodeId::Index(0),
        1,
    );
    b.end_field(&h, 2);
    let root = b.finalize();
    match &root.children[0].id {
        NodeId::Index(i) => assert_eq!(*i, 0),
        NodeId::ResponseName(_) => panic!("expected a list index identity"),
    }
}
