//! Per-request orchestration: the lifecycle from request creation through
//! parsing and execution to the finished `Trace`.
//!
//! The session owns the wall-clock bounds, the operation key and the
//! request's tree builder. Completion consumes the session and yields the
//! key and exactly one trace, ready for the aggregator's queue.

use vstd::prelude::*;
use vstd::string::StringExecFns;

use crate::HTTPMethod;
use crate::node::TraceNode;
use crate::node::node_finalized;
use crate::node::nodes_count;
use crate::trace::HttpInfo;
use crate::trace::Timestamp;
use crate::trace::Trace;
use crate::trace::duration_ns;
use crate::trace::spec_duration_ns;
use crate::trace::ts_wf;
use crate::tree::TraceTreeBuilder;

verus! {

/// Optional request metadata supplied by the host; every missing field
/// degrades to a documented sentinel instead of failing.
#[derive(Debug, Clone)]
pub struct ApolloTracingDataExt {
    pub userid: Option<String>,
    pub client_name: Option<String>,
    pub client_version: Option<String>,
    pub path: Option<String>,
    pub host: Option<String>,
    pub method: Option<HTTPMethod>,
    pub secure: Option<bool>,
    pub protocol: Option<String>,
    pub status_code: Option<u32>,
}

impl Default for ApolloTracingDataExt {
    /// All metadata absent.
    fn default() -> (d: Self)
        ensures
            d.userid is None,
            d.client_name is None,
            d.client_version is None,
            d.path is None,
            d.host is None,
            d.method is None,
            d.secure is None,
            d.protocol is None,
            d.status_code is None,
    {
        ApolloTracingDataExt {
            userid: None,
            client_name: None,
            client_version: None,
            path: None,
            host: None,
            method: None,
            secure: None,
            protocol: None,
            status_code: None,
        }
    }
}

/// One operation of the parsed document, reduced to what the key
/// computation inspects: whether it is a query, and its top-level field
/// names.
#[derive(Debug, Clone)]
pub struct OperationInfo {
    pub is_query: bool,
    pub top_level_fields: Vec<String>,
}

/// A query operation that selects the schema-introspection field.
pub open spec fn op_is_introspection(op: OperationInfo) -> bool {
    &&& op.is_query
    &&& exists|j: int|
        0 <= j < op.top_level_fields@.len() && (#[trigger] op.top_level_fields@[j])@
            == "__schema"@
}

/// The document is an introspection request: some query operation selects
/// the schema field.
pub open spec fn spec_is_introspection(ops: Seq<OperationInfo>) -> bool {
    exists|i: int| 0 <= i < ops.len() && op_is_introspection(#[trigger] ops[i])
}

/// Decides whether the parsed operations form an introspection request.
pub fn is_introspection_query(ops: &Vec<OperationInfo>) -> (r: bool)
    ensures
        r == spec_is_introspection(ops@),
{
    let marker = String::from_str("__schema");
    let n = ops.len();
    let mut i: usize = 0;
    while i < n
        invariant
            n == ops@.len(),
            i <= n,
            marker@ == "__schema"@,
            forall|a: int| 0 <= a < i ==> !op_is_introspection(#[trigger] ops@[a]),
        decreases n - i,
    {
        if ops[i].is_query {
            let fields = &ops[i].top_level_fields;
            let m = fields.len();
            let mut j: usize = 0;
            while j < m
                invariant
                    i < n,
                    n == ops@.len(),
                    fields@ == ops@[i as int].top_level_fields@,
                    ops@[i as int].is_query,
                    m == fields@.len(),
                    j <= m,
                    marker@ == "__schema"@,
                    forall|b: int| 0 <= b < j ==> (#[trigger] fields@[b])@ != "__schema"@,
                decreases m - j,
            {
                if fields[j] == marker {
                    proof {
                        assert((ops@[i as int].top_level_fields@[j as int])@ == "__schema"@);
                        assert(op_is_introspection(ops@[i as int]));
                    }
                    return true;
                }
                j += 1;
            }
        }
        i += 1;
    }
    false
}

/// The operation name that keys a trace when the document gave none.
pub open spec fn spec_opname(name: Option<String>) -> Seq<char> {
    match name {
        Some(s) => s@,
        None => "no_name"@,
    }
}

/// The operation key: the name as a comment line, then the normalized
/// query text.
pub open spec fn spec_operation_key(name: Seq<char>, query: Seq<char>) -> Seq<char> {
    "# "@ + name + "\n "@ + query
}

/// Builds the operation key for a named (or anonymous) operation and its
/// normalized query text.
pub fn operation_key(name: Option<String>, query: &String) -> (r: String)
    ensures
        r@ == spec_operation_key(spec_opname(name), query@),
{
    let mut s = String::from_str("# ");
    match name {
        Some(n) => s.append(n.as_str()),
        None => s.append("no_name"),
    }
    s.append("\n ");
    s.append(query.as_str());
    s
}

fn or_default(v: Option<String>, d: &str) -> (r: String)
    ensures
        r@ == match v {
            Some(s) => s@,
            None => d@,
        },
{
    match v {
        Some(s) => s,
        None => String::from_str(d),
    }
}

/// The missing-metadata sentinel for an optional string.
pub open spec fn spec_or(v: Option<String>, d: Seq<char>) -> Seq<char> {
    match v {
        Some(s) => s@,
        None => d,
    }
}

/// Assembles the finished trace from the host-supplied metadata, the
/// wall-clock bounds and the finalized tree root. Every absent metadata
/// field takes its sentinel; the duration is the clamped distance between
/// the two instants.
pub fn build_trace(
    ext: ApolloTracingDataExt,
    operation_name: Option<String>,
    start: Timestamp,
    end: Timestamp,
    root: TraceNode,
) -> (t: Trace)
    requires
        ts_wf(start),
        ts_wf(end),
    ensures
        t.client_name@ == spec_or(ext.client_name, "no client name"@),
        t.client_version@ == spec_or(ext.client_version, "no client version"@),
        t.client_reference_id@ == spec_or(ext.userid, "anonymous"@),
        t.operation_name@ == spec_or(operation_name, "no operation"@),
        t.http.path@ == spec_or(ext.path, "no path"@),
        t.http.host@ == spec_or(ext.host, "no host"@),
        t.http.protocol@ == spec_or(ext.protocol, "no operation"@),
        t.http.method == match ext.method {
            Some(m) => m,
            None => HTTPMethod::UNKNOWN,
        },
        t.http.secure == match ext.secure {
            Some(b) => b,
            None => false,
        },
        t.http.status_code == match ext.status_code {
            Some(c) => c,
            None => 0u32,
        },
        t.duration_ns == spec_duration_ns(start, end),
        t.start_time == start,
        t.end_time == end,
        t.root == root,
{
    let duration = duration_ns(&start, &end);
    let method = match ext.method {
        Some(m) => m,
        None => HTTPMethod::UNKNOWN,
    };
    let secure = match ext.secure {
        Some(b) => b,
        None => false,
    };
    let status_code = match ext.status_code {
        Some(c) => c,
        None => 0,
    };
    Trace {
        client_name: or_default(ext.client_name, "no client name"),
        client_version: or_default(ext.client_version, "no client version"),
        client_reference_id: or_default(ext.userid, "anonymous"),
        duration_ns: duration,
        operation_name: or_default(operation_name, "no operation"),
        http: HttpInfo {
            path: or_default(ext.path, "no path"),
            host: or_default(ext.host, "no host"),
            method,
            secure,
            protocol: or_default(ext.protocol, "no operation"),
            status_code,
        },
        start_time: start,
        end_time: end,
        root,
    }
}

/// Lifecycle stage of one request.
#[derive(Debug, Clone, Copy, PartialEq, Eq, Structural)]
pub enum SessionStage {
    Created,
    Parsed,
    Executing,
    Completed,
}

/// Per-request orchestration state: lifecycle stage, operation key,
/// wall-clock bounds, and the request's tree builder. Field-resolution
/// events drive `tree` directly through its own contracts.
pub struct RequestSession {
    pub stage: SessionStage,
    pub operation_key: String,
    pub start_time: Timestamp,
    pub end_time: Timestamp,
    pub tree: TraceTreeBuilder,
}

impl RequestSession {
    /// The session's own invariant: a well-formed tree and well-formed
    /// instants.
    pub open spec fn wf(self) -> bool {
        &&& self.tree.wf()
        &&& ts_wf(self.start_time)
        &&& ts_wf(self.end_time)
    }

    /// Opens a session when a request begins: stage `Created`, the
    /// schema sentinel as operation key, an empty tree, and the given
    /// instant as both bounds.
    pub fn new(now: Timestamp) -> (s: RequestSession)
        requires
            ts_wf(now),
        ensures
            s.wf(),
            s.stage == SessionStage::Created,
            s.operation_key@ == "schema"@,
            s.start_time == now,
            s.end_time == now,
            s.tree.pending().len() == 0,
            s.tree.roots().len() == 0,
            s.tree.began() == 0,
            s.tree.ended() == 0,
            s.tree.used() == Set::<Seq<char>>::empty(),
    {
        RequestSession {
            stage: SessionStage::Created,
            operation_key: String::from_str("schema"),
            start_time: now,
            end_time: now,
            tree: TraceTreeBuilder::new(),
        }
    }

    /// Records the parsed operation. For an ordinary document the key
    /// becomes the named, normalized query; an introspection-only
    /// document keeps the schema sentinel, so its traces are never
    /// attributed to a derived signature. Calling again replaces the key
    /// the same way (the transition is idempotent).
    pub fn on_parse_complete(
        &mut self,
        operations: &Vec<OperationInfo>,
        operation_name: Option<String>,
        normalized_query: &String,
    )
        requires
            old(self).wf(),
            old(self).stage == SessionStage::Created || old(self).stage
                == SessionStage::Parsed,
        ensures
            final(self).wf(),
            final(self).stage == SessionStage::Parsed,
            final(self).start_time == old(self).start_time,
            final(self).end_time == old(self).end_time,
            final(self).tree == old(self).tree,
            !spec_is_introspection(operations@) ==> final(self).operation_key@
                == spec_operation_key(spec_opname(operation_name), normalized_query@),
            spec_is_introspection(operations@) ==> final(self).operation_key == old(
                self,
            ).operation_key,
    {
        if !is_introspection_query(operations) {
            self.operation_key = operation_key(operation_name, normalized_query);
        }
        self.stage = SessionStage::Parsed;
    }

    /// Marks execution start and records its wall-clock instant.
    pub fn on_execute_begin(&mut self, now: Timestamp)
        requires
            old(self).wf(),
            ts_wf(now),
            old(self).stage == SessionStage::Created || old(self).stage
                == SessionStage::Parsed,
        ensures
            final(self).wf(),
            final(self).stage == SessionStage::Executing,
            final(self).start_time == now,
            final(self).end_time == old(self).end_time,
            final(self).operation_key == old(self).operation_key,
            final(self).tree == old(self).tree,
    {
        self.start_time = now;
        self.stage = SessionStage::Executing;
    }

    /// Completes the request: finalizes the tree, assembles exactly one
    /// trace from the session and host metadata, and hands back the
    /// operation key it should be batched under. Consuming the session
    /// makes a second trace for the same request impossible. Field errors
    /// recorded on nodes never prevent this step.
    pub fn on_execute_end(
        self,
        now: Timestamp,
        ext: ApolloTracingDataExt,
        operation_name: Option<String>,
    ) -> (r: (String, Trace))
        requires
            self.wf(),
            ts_wf(now),
            self.stage == SessionStage::Executing,
        ensures
            r.0 == self.operation_key,
            r.1.root.children@ == self.tree.roots(),
            node_finalized(r.1.root),
            self.tree.pending().len() == 0 ==> nodes_count(r.1.root.children@)
                == self.tree.began(),
            r.1.client_name@ == spec_or(ext.client_name, "no client name"@),
            r.1.client_version@ == spec_or(ext.client_version, "no client version"@),
            r.1.client_reference_id@ == spec_or(ext.userid, "anonymous"@),
            r.1.operation_name@ == spec_or(operation_name, "no operation"@),
            r.1.http.path@ == spec_or(ext.path, "no path"@),
            r.1.http.host@ == spec_or(ext.host, "no host"@),
            r.1.http.protocol@ == spec_or(ext.protocol, "no operation"@),
            r.1.http.method == match ext.method {
                Some(m) => m,
                None => HTTPMethod::UNKNOWN,
            },
            r.1.http.secure == match ext.secure {
                Some(b) => b,
                None => false,
            },
            r.1.http.status_code == match ext.status_code {
                Some(c) => c,
                None => 0u32,
            },
            r.1.duration_ns == spec_duration_ns(self.start_time, now),
            r.1.start_time == self.start_time,
            r.1.end_time == now,
    {
        let root = self.tree.finalize();
        let trace = build_trace(ext, operation_name, self.start_time, now, root);
        (self.operation_key, trace)
    }
}

} // verus!
