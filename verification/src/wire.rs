//! Wire encoding of traces.
//!
//! The reporter ships batches in a compact binary form of the usual
//! tag/length kind: each field is a single tag byte — field number shifted
//! left three, low bits giving the kind — followed by a base-128 varint for
//! numeric fields, or a varint byte length and the payload for strings and
//! nested records. Fields are emitted in field-number order, every field
//! present. The format is owned by the reporter and opaque to everything
//! else; the spec functions here are its definition.

use vstd::prelude::*;
use vstd::utf8::encode_utf8;

use crate::node::ErrorEntry;
use crate::node::ErrorLocation;
use crate::node::NodeId;
use crate::node::TraceNode;

verus! {

/// Base-128 varint: low seven bits first, high bit of each byte marking
/// continuation.
pub open spec fn spec_varint(n: nat) -> Seq<u8>
    decreases n,
{
    if n < 128 {
        seq![n as u8]
    } else {
        seq![((n % 128) + 128) as u8] + spec_varint(n / 128)
    }
}

/// A numeric field: tag byte, then the value as a varint.
pub open spec fn spec_varint_field(tag: u8, n: nat) -> Seq<u8> {
    seq![tag] + spec_varint(n)
}

/// A length-delimited field: tag byte, payload length as a varint, then
/// the payload.
pub open spec fn spec_len_field(tag: u8, payload: Seq<u8>) -> Seq<u8> {
    seq![tag] + spec_varint(payload.len()) + payload
}

/// A string field: its UTF-8 bytes, length-delimited.
pub open spec fn spec_str_field(tag: u8, s: Seq<char>) -> Seq<u8> {
    spec_len_field(tag, encode_utf8(s))
}

/// Appends a varint to the buffer.
pub fn push_varint(out: &mut Vec<u8>, n: u64)
    ensures
        final(out)@ == old(out)@ + spec_varint(n as nat),
{
    let ghost prefix = old(out)@;
    let mut x: u64 = n;
    while x >= 128
        invariant
            out@ + spec_varint(x as nat) == prefix + spec_varint(n as nat),
        decreases x,
    {
        let byte: u8 = ((x % 128) + 128) as u8;
        let ghost x0 = x as nat;
        out.push(byte);
        x = x / 128;
        proof {
            assert(spec_varint(x0) == seq![byte] + spec_varint(x as nat));
            assert(out@ + spec_varint(x as nat) =~= prefix + spec_varint(n as nat));
        }
    }
    out.push(x as u8);
    proof {
        assert(spec_varint(x as nat) == seq![x as u8]);
        assert(final(out)@ =~= prefix + spec_varint(n as nat));
    }
}

/// Appends a byte slice to the buffer.
fn push_slice(out: &mut Vec<u8>, b: &[u8])
    ensures
        final(out)@ == old(out)@ + b@,
{
    let n = b.len();
    let mut i: usize = 0;
    while i < n
        invariant
            n == b@.len(),
            i <= n,
            out@ == old(out)@ + b@.take(i as int),
        decreases n - i,
    {
        out.push(b[i]);
        proof {
            assert(b@.take(i + 1 as int) =~= b@.take(i as int).push(b@[i as int]));
            assert(out@ =~= old(out)@ + b@.take(i + 1 as int));
        }
        i += 1;
    }
    proof {
        assert(b@.take(n as int) =~= b@);
    }
}

/// Appends a numeric field.
pub fn push_varint_field(out: &mut Vec<u8>, tag: u8, n: u64)
    ensures
        final(out)@ == old(out)@ + spec_varint_field(tag, n as nat),
{
    out.push(tag);
    push_varint(out, n);
    proof {
        assert(final(out)@ =~= old(out)@ + spec_varint_field(tag, n as nat));
    }
}

/// Appends a string field.
pub fn push_str_field(out: &mut Vec<u8>, tag: u8, s: &String)
    ensures
        final(out)@ == old(out)@ + spec_str_field(tag, s@),
{
    out.push(tag);
    let bytes = s.as_str().as_bytes();
    push_varint(out, bytes.len() as u64);
    push_slice(out, bytes);
    proof {
        assert(final(out)@ =~= old(out)@ + spec_str_field(tag, s@));
    }
}

/// Appends a nested record, length-delimited.
pub fn push_msg_field(out: &mut Vec<u8>, tag: u8, body: Vec<u8>)
    ensures
        final(out)@ == old(out)@ + spec_len_field(tag, body@),
{
    out.push(tag);
    push_varint(out, body.len() as u64);
    let mut moved = body;
    out.append(&mut moved);
    proof {
        assert(final(out)@ =~= old(out)@ + spec_len_field(tag, body@));
    }
}

pub const TAG_NODE_RESPONSE_NAME: u8 = 10;
pub const TAG_NODE_INDEX: u8 = 16;
pub const TAG_NODE_PARENT_TYPE: u8 = 26;
pub const TAG_NODE_ORIGINAL_FIELD_NAME: u8 = 34;
pub const TAG_NODE_FIELD_TYPE: u8 = 42;
pub const TAG_NODE_START: u8 = 48;
pub const TAG_NODE_END: u8 = 56;
pub const TAG_NODE_ERROR: u8 = 66;
pub const TAG_NODE_CHILD: u8 = 74;

pub const TAG_LOCATION_LINE: u8 = 8;
pub const TAG_LOCATION_COLUMN: u8 = 16;

pub const TAG_ERROR_MESSAGE: u8 = 10;
pub const TAG_ERROR_LOCATION: u8 = 18;
pub const TAG_ERROR_JSON: u8 = 26;

/// Body of one error location record.
pub open spec fn spec_location(l: ErrorLocation) -> Seq<u8> {
    spec_varint_field(TAG_LOCATION_LINE, l.line as nat) + spec_varint_field(
        TAG_LOCATION_COLUMN,
        l.column as nat,
    )
}

/// The locations of one error, as consecutive nested records.
pub open spec fn spec_locations(s: Seq<ErrorLocation>) -> Seq<u8>
    decreases s,
{
    if s.len() == 0 {
        Seq::empty()
    } else {
        spec_locations(s.drop_last()) + spec_len_field(
            TAG_ERROR_LOCATION,
            spec_location(s.last()),
        )
    }
}

/// Body of one error record: message, locations, serialized diagnostic.
pub open spec fn spec_error(e: ErrorEntry) -> Seq<u8> {
    spec_str_field(TAG_ERROR_MESSAGE, e.message@) + spec_locations(e.locations@)
        + spec_str_field(TAG_ERROR_JSON, e.json@)
}

/// The errors of one node, as consecutive nested records.
pub open spec fn spec_errors(s: Seq<ErrorEntry>) -> Seq<u8>
    decreases s,
{
    if s.len() == 0 {
        Seq::empty()
    } else {
        spec_errors(s.drop_last()) + spec_len_field(TAG_NODE_ERROR, spec_error(s.last()))
    }
}

/// The identity field: response name or list index, never both.
pub open spec fn spec_node_id(id: NodeId) -> Seq<u8> {
    match id {
        NodeId::ResponseName(s) => spec_str_field(TAG_NODE_RESPONSE_NAME, s@),
        NodeId::Index(i) => spec_varint_field(TAG_NODE_INDEX, i as nat),
    }
}

/// The end offset that goes on the wire: zero while unset.
pub open spec fn spec_node_end(n: TraceNode) -> nat {
    match n.end_offset_ns {
        Some(e) => e as nat,
        None => 0,
    }
}

/// Body of one node record: identity, type context, offsets, errors,
/// then the children in completion order.
pub open spec fn spec_node(n: TraceNode) -> Seq<u8>
    decreases n,
{
    spec_node_id(n.id) + spec_str_field(TAG_NODE_PARENT_TYPE, n.parent_type@)
        + spec_str_field(TAG_NODE_ORIGINAL_FIELD_NAME, n.original_field_name@)
        + spec_str_field(TAG_NODE_FIELD_TYPE, n.field_type@) + spec_varint_field(
        TAG_NODE_START,
        n.start_offset_ns as nat,
    ) + spec_varint_field(TAG_NODE_END, spec_node_end(n)) + spec_errors(n.errors@)
        + spec_children(n.children@)
}

/// The children of one node, as consecutive nested records.
pub open spec fn spec_children(s: Seq<TraceNode>) -> Seq<u8>
    decreases s,
{
    if s.len() == 0 {
        Seq::empty()
    } else {
        spec_children(s.drop_last()) + spec_len_field(TAG_NODE_CHILD, spec_node(s.last()))
    }
}

fn location_bytes(l: &ErrorLocation) -> (r: Vec<u8>)
    ensures
        r@ == spec_location(*l),
{
    let mut out: Vec<u8> = Vec::new();
    push_varint_field(&mut out, TAG_LOCATION_LINE, l.line as u64);
    push_varint_field(&mut out, TAG_LOCATION_COLUMN, l.column as u64);
    proof {
        assert(out@ =~= spec_location(*l));
    }
    out
}

fn error_bytes(e: &ErrorEntry) -> (r: Vec<u8>)
    ensures
        r@ == spec_error(*e),
{
    let mut out: Vec<u8> = Vec::new();
    push_str_field(&mut out, TAG_ERROR_MESSAGE, &e.message);
    let n = e.locations.len();
    let mut i: usize = 0;
    while i < n
        invariant
            n == e.locations@.len(),
            i <= n,
            out@ == spec_str_field(TAG_ERROR_MESSAGE, e.message@) + spec_locations(
                e.locations@.take(i as int),
            ),
        decreases n - i,
    {
        let body = location_bytes(&e.locations[i]);
        push_msg_field(&mut out, TAG_ERROR_LOCATION, body);
        proof {
            let pre = e.locations@.take(i as int);
            let nxt = e.locations@.take(i + 1 as int);
            assert(nxt.drop_last() =~= pre);
            assert(nxt.last() == e.locations@[i as int]);
            assert(out@ =~= spec_str_field(TAG_ERROR_MESSAGE, e.message@) + spec_locations(
                nxt,
            ));
        }
        i += 1;
    }
    proof {
        assert(e.locations@.take(n as int) =~= e.locations@);
    }
    push_str_field(&mut out, TAG_ERROR_JSON, &e.json);
    proof {
        assert(out@ =~= spec_error(*e));
    }
    out
}

/// Encodes one node record's body, children included.
pub fn node_bytes(n: &TraceNode) -> (r: Vec<u8>)
    ensures
        r@ == spec_node(*n),
    decreases *n,
{
    let mut out: Vec<u8> = Vec::new();
    match &n.id {
        NodeId::ResponseName(s) => push_str_field(&mut out, TAG_NODE_RESPONSE_NAME, s),
        NodeId::Index(ix) => push_varint_field(&mut out, TAG_NODE_INDEX, *ix as u64),
    }
    proof {
        assert(out@ =~= spec_node_id(n.id));
    }
    push_str_field(&mut out, TAG_NODE_PARENT_TYPE, &n.parent_type);
    push_str_field(&mut out, TAG_NODE_ORIGINAL_FIELD_NAME, &n.original_field_name);
    push_str_field(&mut out, TAG_NODE_FIELD_TYPE, &n.field_type);
    push_varint_field(&mut out, TAG_NODE_START, n.start_offset_ns);
    let end: u64 = match n.end_offset_ns {
        Some(e) => e,
        None => 0,
    };
    push_varint_field(&mut out, TAG_NODE_END, end);
    let ghost head = spec_node_id(n.id) + spec_str_field(TAG_NODE_PARENT_TYPE, n.parent_type@)
        + spec_str_field(TAG_NODE_ORIGINAL_FIELD_NAME, n.original_field_name@)
        + spec_str_field(TAG_NODE_FIELD_TYPE, n.field_type@) + spec_varint_field(
        TAG_NODE_START,
        n.start_offset_ns as nat,
    ) + spec_varint_field(TAG_NODE_END, spec_node_end(*n));
    proof {
        assert(out@ =~= head);
    }
    let en = n.errors.len();
    let mut i: usize = 0;
    while i < en
        invariant
            en == n.errors@.len(),
            i <= en,
            out@ == head + spec_errors(n.errors@.take(i as int)),
        decreases en - i,
    {
        let body = error_bytes(&n.errors[i]);
        push_msg_field(&mut out, TAG_NODE_ERROR, body);
        proof {
            let pre = n.errors@.take(i as int);
            let nxt = n.errors@.take(i + 1 as int);
            assert(nxt.drop_last() =~= pre);
            assert(nxt.last() == n.errors@[i as int]);
            assert(out@ =~= head + spec_errors(nxt));
        }
        i += 1;
    }
    proof {
        assert(n.errors@.take(en as int) =~= n.errors@);
    }
    let ghost head2 = head + spec_errors(n.errors@);
    let cn = n.children.len();
    let mut j: usize = 0;
    while j < cn
        invariant
            cn == n.children@.len(),
            j <= cn,
            out@ == head2 + spec_children(n.children@.take(j as int)),
        decreases cn - j,
    {
        let body = node_bytes(&n.children[j]);
        push_msg_field(&mut out, TAG_NODE_CHILD, body);
        proof {
            let pre = n.children@.take(j as int);
            let nxt = n.children@.take(j + 1 as int);
            assert(nxt.drop_last() =~= pre);
            assert(nxt.last() == n.children@[j as int]);
            assert(out@ =~= head2 + spec_children(nxt));
        }
        j += 1;
    }
    proof {
        assert(n.children@.take(cn as int) =~= n.children@);
        assert(out@ =~= spec_node(*n));
    }
    out
}

} // verus!
