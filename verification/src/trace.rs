//! The finalized, immutable record of one completed operation, and the
//! wall-clock arithmetic that produces its duration.

use vstd::prelude::*;

use crate::HTTPMethod;
use crate::node::TraceNode;

verus! {

pub const NANOS_PER_SECOND: u32 = 1000000000;

/// A wall-clock instant: whole seconds since the epoch plus the
/// sub-second nanoseconds.
#[derive(Debug, Clone, Copy, PartialEq, Eq, Structural)]
pub struct Timestamp {
    pub seconds: i64,
    pub nanos: u32,
}

/// A timestamp's nanosecond field never reaches a whole second.
pub open spec fn ts_wf(t: Timestamp) -> bool {
    t.nanos < NANOS_PER_SECOND
}

/// A timestamp as one nanosecond count.
pub open spec fn ts_ns(t: Timestamp) -> int {
    t.seconds * (NANOS_PER_SECOND as int) + t.nanos
}

/// Nanoseconds from `start` to `end`: zero when the clock went backwards,
/// and zero again when the distance exceeds what a signed 64-bit
/// nanosecond count can represent — an unrepresentable duration is
/// reported as no duration, never a panic.
pub open spec fn spec_duration_ns(start: Timestamp, end: Timestamp) -> u64 {
    let d = ts_ns(end) - ts_ns(start);
    if d <= 0 {
        0
    } else if d > i64::MAX {
        0
    } else {
        d as u64
    }
}

/// Computes the duration between two instants.
pub fn duration_ns(start: &Timestamp, end: &Timestamp) -> (r: u64)
    requires
        ts_wf(*start),
        ts_wf(*end),
    ensures
        r == spec_duration_ns(*start, *end),
{
    let ds: i128 = end.seconds as i128 - start.seconds as i128;
    let dn: i128 = end.nanos as i128 - start.nanos as i128;
    proof {
        assert(-18446744073709551616i128 <= ds && ds <= 18446744073709551616i128);
        assert(-18446744073709551616000000000i128 <= ds * 1000000000i128 && ds
            * 1000000000i128 <= 18446744073709551616000000000i128) by (nonlinear_arith)
            requires
                -18446744073709551616i128 <= ds && ds <= 18446744073709551616i128,
        ;
        assert(ds * (NANOS_PER_SECOND as i128) == ds * 1000000000i128);
    }
    let total: i128 = ds * (NANOS_PER_SECOND as i128) + dn;
    if total <= 0 {
        0
    } else if total > i64::MAX as i128 {
        0
    } else {
        total as u64
    }
}

/// HTTP context of the traced request.
#[derive(Debug, Clone)]
pub struct HttpInfo {
    pub path: String,
    pub host: String,
    pub method: HTTPMethod,
    pub secure: bool,
    pub protocol: String,
    pub status_code: u32,
}

/// The complete record of one served operation: caller identity, wall-clock
/// bounds and duration, HTTP context, operation metadata, and the root of
/// the field-resolution tree. Created exactly once per request, immutable
/// thereafter.
#[derive(Debug)]
pub struct Trace {
    pub client_name: String,
    pub client_version: String,
    pub client_reference_id: String,
    pub duration_ns: u64,
    pub operation_name: String,
    pub http: HttpInfo,
    pub start_time: Timestamp,
    pub end_time: Timestamp,
    pub root: TraceNode,
}

} // verus!
