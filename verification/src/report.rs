//! The reporter's pure half: the report header, the full wire encoding of
//! one batch, and the compression step that yields the submission payload.
//!
//! Submission itself — the HTTP POST and its logging — is the transport's
//! business and happens outside the library; a failed flush never reaches
//! back into the aggregator, whose state was swapped out beforehand.

use vstd::prelude::*;
use vstd::string::StringExecFns;

use crate::aggregator::Bucket;
use crate::aggregator::ReportBatch;
use crate::machine::spec_uname_line;
use crate::machine::uname;
use crate::session::spec_or;
use crate::trace::Timestamp;
use crate::trace::HttpInfo;
use crate::trace::Trace;
use crate::wire::push_msg_field;
use crate::wire::push_str_field;
use crate::wire::push_varint_field;
use crate::wire::spec_len_field;
use crate::wire::spec_str_field;
use crate::wire::spec_varint_field;
use crate::wire::spec_node;
use crate::wire::node_bytes;

verus! {

/// Shared immutable identity shipped with every report: host, graph and
/// agent descriptions.
#[derive(Debug, Clone)]
pub struct ReportHeader {
    pub uname: String,
    pub hostname: String,
    pub graph_ref: String,
    pub service_version: String,
    pub agent_version: String,
    pub runtime_version: String,
}

pub const TAG_TS_SECONDS: u8 = 8;
pub const TAG_TS_NANOS: u8 = 16;

pub const TAG_HTTP_PATH: u8 = 10;
pub const TAG_HTTP_HOST: u8 = 18;
pub const TAG_HTTP_METHOD: u8 = 24;
pub const TAG_HTTP_SECURE: u8 = 32;
pub const TAG_HTTP_PROTOCOL: u8 = 42;
pub const TAG_HTTP_STATUS: u8 = 48;

pub const TAG_TRACE_CLIENT_NAME: u8 = 10;
pub const TAG_TRACE_CLIENT_VERSION: u8 = 18;
pub const TAG_TRACE_CLIENT_REFERENCE_ID: u8 = 26;
pub const TAG_TRACE_DURATION: u8 = 32;
pub const TAG_TRACE_OPERATION_NAME: u8 = 42;
pub const TAG_TRACE_HTTP: u8 = 50;
pub const TAG_TRACE_START: u8 = 58;
pub const TAG_TRACE_END: u8 = 66;
pub const TAG_TRACE_ROOT: u8 = 74;

pub const TAG_STATS_TRACE: u8 = 10;

pub const TAG_ENTRY_KEY: u8 = 10;
pub const TAG_ENTRY_VALUE: u8 = 18;

pub const TAG_HEADER_UNAME: u8 = 10;
pub const TAG_HEADER_HOSTNAME: u8 = 18;
pub const TAG_HEADER_GRAPH_REF: u8 = 26;
pub const TAG_HEADER_SERVICE_VERSION: u8 = 34;
pub const TAG_HEADER_AGENT_VERSION: u8 = 42;
pub const TAG_HEADER_RUNTIME_VERSION: u8 = 50;

pub const TAG_REPORT_HEADER: u8 = 10;
pub const TAG_REPORT_ENTRY: u8 = 18;

/// Body of a wall-clock instant record.
pub open spec fn spec_timestamp(t: Timestamp) -> Seq<u8> {
    spec_varint_field(TAG_TS_SECONDS, (t.seconds as u64) as nat) + spec_varint_field(
        TAG_TS_NANOS,
        t.nanos as nat,
    )
}

/// Body of the HTTP context record.
pub open spec fn spec_http(h: HttpInfo) -> Seq<u8> {
    spec_str_field(TAG_HTTP_PATH, h.path@) + spec_str_field(TAG_HTTP_HOST, h.host@)
        + spec_varint_field(TAG_HTTP_METHOD, h.method.spec_code() as nat)
        + spec_varint_field(TAG_HTTP_SECURE, if h.secure { 1nat } else { 0nat })
        + spec_str_field(TAG_HTTP_PROTOCOL, h.protocol@) + spec_varint_field(
        TAG_HTTP_STATUS,
        h.status_code as nat,
    )
}

/// Body of one trace record.
pub open spec fn spec_trace(t: Trace) -> Seq<u8> {
    spec_str_field(TAG_TRACE_CLIENT_NAME, t.client_name@) + spec_str_field(
        TAG_TRACE_CLIENT_VERSION,
        t.client_version@,
    ) + spec_str_field(TAG_TRACE_CLIENT_REFERENCE_ID, t.client_reference_id@)
        + spec_varint_field(TAG_TRACE_DURATION, t.duration_ns as nat) + spec_str_field(
        TAG_TRACE_OPERATION_NAME,
        t.operation_name@,
    ) + spec_len_field(TAG_TRACE_HTTP, spec_http(t.http)) + spec_len_field(
        TAG_TRACE_START,
        spec_timestamp(t.start_time),
    ) + spec_len_field(TAG_TRACE_END, spec_timestamp(t.end_time)) + spec_len_field(
        TAG_TRACE_ROOT,
        spec_node(t.root),
    )
}

/// Body of one bucket's trace list record.
pub open spec fn spec_traces(s: Seq<Trace>) -> Seq<u8>
    decreases s,
{
    if s.len() == 0 {
        Seq::empty()
    } else {
        spec_traces(s.drop_last()) + spec_len_field(TAG_STATS_TRACE, spec_trace(s.last()))
    }
}

/// Body of one keyed entry of the report: the operation key and its
/// trace list.
pub open spec fn spec_entry(b: Bucket) -> Seq<u8> {
    spec_str_field(TAG_ENTRY_KEY, b.key@) + spec_len_field(
        TAG_ENTRY_VALUE,
        spec_traces(b.traces@),
    )
}

/// The report's keyed entries, in bucket order.
pub open spec fn spec_entries(s: Seq<Bucket>) -> Seq<u8>
    decreases s,
{
    if s.len() == 0 {
        Seq::empty()
    } else {
        spec_entries(s.drop_last()) + spec_len_field(TAG_REPORT_ENTRY, spec_entry(s.last()))
    }
}

/// Body of the header record.
pub open spec fn spec_header(h: ReportHeader) -> Seq<u8> {
    spec_str_field(TAG_HEADER_UNAME, h.uname@) + spec_str_field(
        TAG_HEADER_HOSTNAME,
        h.hostname@,
    ) + spec_str_field(TAG_HEADER_GRAPH_REF, h.graph_ref@) + spec_str_field(
        TAG_HEADER_SERVICE_VERSION,
        h.service_version@,
    ) + spec_str_field(TAG_HEADER_AGENT_VERSION, h.agent_version@) + spec_str_field(
        TAG_HEADER_RUNTIME_VERSION,
        h.runtime_version@,
    )
}

/// The complete wire image of one flushed batch: the header record, then
/// one keyed entry per bucket.
pub open spec fn spec_report(h: ReportHeader, buckets: Seq<Bucket>) -> Seq<u8> {
    spec_len_field(TAG_REPORT_HEADER, spec_header(h)) + spec_entries(buckets)
}

fn timestamp_bytes(t: &Timestamp) -> (r: Vec<u8>)
    ensures
        r@ == spec_timestamp(*t),
{
    let mut out: Vec<u8> = Vec::new();
    push_varint_field(&mut out, TAG_TS_SECONDS, t.seconds as u64);
    push_varint_field(&mut out, TAG_TS_NANOS, t.nanos as u64);
    proof {
        assert(out@ =~= spec_timestamp(*t));
    }
    out
}

fn http_bytes(h: &HttpInfo) -> (r: Vec<u8>)
    ensures
        r@ == spec_http(*h),
{
    let mut out: Vec<u8> = Vec::new();
    push_str_field(&mut out, TAG_HTTP_PATH, &h.path);
    push_str_field(&mut out, TAG_HTTP_HOST, &h.host);
    push_varint_field(&mut out, TAG_HTTP_METHOD, h.method.code());
    push_varint_field(&mut out, TAG_HTTP_SECURE, if h.secure { 1 } else { 0 });
    push_str_field(&mut out, TAG_HTTP_PROTOCOL, &h.protocol);
    push_varint_field(&mut out, TAG_HTTP_STATUS, h.status_code as u64);
    proof {
        assert(out@ =~= spec_http(*h));
    }
    out
}

fn trace_bytes(t: &Trace) -> (r: Vec<u8>)
    ensures
        r@ == spec_trace(*t),
{
    let mut out: Vec<u8> = Vec::new();
    push_str_field(&mut out, TAG_TRACE_CLIENT_NAME, &t.client_name);
    push_str_field(&mut out, TAG_TRACE_CLIENT_VERSION, &t.client_version);
    push_str_field(&mut out, TAG_TRACE_CLIENT_REFERENCE_ID, &t.client_reference_id);
    push_varint_field(&mut out, TAG_TRACE_DURATION, t.duration_ns);
    push_str_field(&mut out, TAG_TRACE_OPERATION_NAME, &t.operation_name);
    push_msg_field(&mut out, TAG_TRACE_HTTP, http_bytes(&t.http));
    push_msg_field(&mut out, TAG_TRACE_START, timestamp_bytes(&t.start_time));
    push_msg_field(&mut out, TAG_TRACE_END, timestamp_bytes(&t.end_time));
    push_msg_field(&mut out, TAG_TRACE_ROOT, node_bytes(&t.root));
    proof {
        assert(out@ =~= spec_trace(*t));
    }
    out
}

fn entry_bytes(b: &Bucket) -> (r: Vec<u8>)
    ensures
        r@ == spec_entry(*b),
{
    let mut stats: Vec<u8> = Vec::new();
    let n = b.traces.len();
    let mut i: usize = 0;
    while i < n
        invariant
            n == b.traces@.len(),
            i <= n,
            stats@ == spec_traces(b.traces@.take(i as int)),
        decreases n - i,
    {
        let body = trace_bytes(&b.traces[i]);
        push_msg_field(&mut stats, TAG_STATS_TRACE, body);
        proof {
            let pre = b.traces@.take(i as int);
            let nxt = b.traces@.take(i + 1 as int);
            assert(nxt.drop_last() =~= pre);
            assert(nxt.last() == b.traces@[i as int]);
            assert(stats@ =~= spec_traces(nxt));
        }
        i += 1;
    }
    proof {
        assert(b.traces@.take(n as int) =~= b.traces@);
    }
    let mut out: Vec<u8> = Vec::new();
    push_str_field(&mut out, TAG_ENTRY_KEY, &b.key);
    push_msg_field(&mut out, TAG_ENTRY_VALUE, stats);
    proof {
        assert(out@ =~= spec_entry(*b));
    }
    out
}

fn header_bytes(h: &ReportHeader) -> (r: Vec<u8>)
    ensures
        r@ == spec_header(*h),
{
    let mut out: Vec<u8> = Vec::new();
    push_str_field(&mut out, TAG_HEADER_UNAME, &h.uname);
    push_str_field(&mut out, TAG_HEADER_HOSTNAME, &h.hostname);
    push_str_field(&mut out, TAG_HEADER_GRAPH_REF, &h.graph_ref);
    push_str_field(&mut out, TAG_HEADER_SERVICE_VERSION, &h.service_version);
    push_str_field(&mut out, TAG_HEADER_AGENT_VERSION, &h.agent_version);
    push_str_field(&mut out, TAG_HEADER_RUNTIME_VERSION, &h.runtime_version);
    proof {
        assert(out@ =~= spec_header(*h));
    }
    out
}

/// Encodes one flushed batch, with the shared header, into its complete
/// wire image.
pub fn encode_report(batch: &ReportBatch, header: &ReportHeader) -> (r: Vec<u8>)
    ensures
        r@ == spec_report(*header, batch.buckets@),
{
    let mut out: Vec<u8> = Vec::new();
    push_msg_field(&mut out, TAG_REPORT_HEADER, header_bytes(header));
    let ghost head = spec_len_field(TAG_REPORT_HEADER, spec_header(*header));
    let n = batch.buckets.len();
    let mut i: usize = 0;
    while i < n
        invariant
            n == batch.buckets@.len(),
            i <= n,
            out@ == head + spec_entries(batch.buckets@.take(i as int)),
        decreases n - i,
    {
        let body = entry_bytes(&batch.buckets[i]);
        push_msg_field(&mut out, TAG_REPORT_ENTRY, body);
        proof {
            let pre = batch.buckets@.take(i as int);
            let nxt = batch.buckets@.take(i + 1 as int);
            assert(nxt.drop_last() =~= pre);
            assert(nxt.last() == batch.buckets@[i as int]);
            assert(out@ =~= head + spec_entries(nxt));
        }
        i += 1;
    }
    proof {
        assert(batch.buckets@.take(n as int) =~= batch.buckets@);
        assert(out@ =~= spec_report(*header, batch.buckets@));
    }
    out
}

/// Why a payload could not be compressed.
#[derive(Debug, Clone)]
pub struct CompressionError {
    pub message: String,
}

pub uninterp spec fn gzip_of(bytes: Seq<u8>) -> Seq<u8>;

/// Relies on flate2's gzip writer (`write::GzEncoder` at the default
/// level over a `Vec` sink): the stream is a function of the input bytes
/// alone — the ten-byte header is fixed (zero mtime, fixed system byte,
/// beginning with the magic bytes `0x1f 0x8b`) and the checksum and
/// deflate body depend only on the data. Encoding reports errors only
/// from the sink it writes into, and a `Vec` sink cannot fail, so the
/// call always succeeds; the error arm covers the compressor's interface,
/// not a path this sink can take.
#[verifier::external_body]
fn gzip_compress(bytes: &Vec<u8>) -> (r: Result<Vec<u8>, CompressionError>)
    ensures
        r is Ok,
        r matches Ok(c) ==> c@ == gzip_of(bytes@) && c@.len() >= 10 && c@[0] == 0x1fu8
            && c@[1] == 0x8bu8,
{
    let mut enc = flate2::write::GzEncoder::new(Vec::new(), flate2::Compression::default());
    if let Err(e) = std::io::Write::write_all(&mut enc, bytes.as_slice()) {
        return Err(CompressionError { message: e.to_string() });
    }
    match enc.finish() {
        Ok(v) => Ok(v),
        Err(e) => Err(CompressionError { message: e.to_string() }),
    }
}

/// The reporter's flush preparation: serialize the batch plus header into
/// the wire format, then compress. The payload is exactly the compressed
/// wire image, and with this in-memory sink the step always succeeds; a
/// compression failure would be dropped by the caller — logged, never
/// propagated, leaving later flushes untouched.
pub fn prepare_flush(batch: &ReportBatch, header: &ReportHeader) -> (r: Result<
    Vec<u8>,
    CompressionError,
>)
    ensures
        r is Ok,
        r matches Ok(c) ==> c@ == gzip_of(spec_report(*header, batch.buckets@)),
{
    let encoded = encode_report(batch, header);
    gzip_compress(&encoded)
}

/// Builds the shared report header from the host identity line (or its
/// absence) and the configured service coordinates.
pub fn build_header(
    uname_line: Option<String>,
    hostname: String,
    graph_ref: String,
    release_name: String,
) -> (h: ReportHeader)
    ensures
        h.uname@ == spec_or(uname_line, "No uname provided"@),
        h.hostname == hostname,
        h.graph_ref == graph_ref,
        h.service_version == release_name,
        h.agent_version@ == "async-studio-extension 0.1.0"@,
        h.runtime_version@ == "Rust - No runtime version provided yet"@,
{
    let uname_field = match uname_line {
        Some(s) => s,
        None => String::from_str("No uname provided"),
    };
    ReportHeader {
        uname: uname_field,
        hostname,
        graph_ref,
        service_version: release_name,
        agent_version: String::from_str("async-studio-extension 0.1.0"),
        runtime_version: String::from_str("Rust - No runtime version provided yet"),
    }
}

/// Builds the header for this host: asks the machine for its identity
/// line — falling back to the sentinel when that fails — and fixes the
/// service coordinates. The identity field is either that sentinel or a
/// five-field host line; which of the two cannot be told apart here, as
/// only the machine decides whether the call succeeds.
pub fn host_header(hostname: String, graph_ref: String, release_name: String) -> (h:
    ReportHeader)
    ensures
        h.hostname == hostname,
        h.graph_ref == graph_ref,
        h.service_version == release_name,
        h.agent_version@ == "async-studio-extension 0.1.0"@,
        h.runtime_version@ == "Rust - No runtime version provided yet"@,
        h.uname@ == "No uname provided"@ || exists|
            sysname: Seq<char>,
            version: Seq<char>,
            release: Seq<char>,
            machine: Seq<char>,
            nodename: Seq<char>,
        |
            h.uname@ == spec_uname_line(sysname, version, release, machine, nodename),
{
    let line = match uname() {
        Ok(l) => Some(l),
        Err(_) => None,
    };
    let ghost gline = line;
    let h = build_header(line, hostname, graph_ref, release_name);
    proof {
        match gline {
            Some(l) => {
                let (sysname, version, release, machine, nodename) = choose|
                    sysname: Seq<char>,
                    version: Seq<char>,
                    release: Seq<char>,
                    machine: Seq<char>,
                    nodename: Seq<char>,
                |
                    l@ == spec_uname_line(sysname, version, release, machine, nodename);
                assert(h.uname@ == spec_uname_line(
                    sysname,
                    version,
                    release,
                    machine,
                    nodename,
                ));
            },
            None => {
                assert(h.uname@ == "No uname provided"@);
            },
        }
    }
    h
}

} // verus!
