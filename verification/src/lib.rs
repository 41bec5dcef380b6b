//! Collector for per-request field-resolution traces.
//!
//! The crate builds a tree of spans while a request's fields resolve,
//! groups finished traces into batches keyed by operation signature, and
//! prepares compressed wire payloads for submission.

use vstd::prelude::*;

pub mod aggregator;
pub mod machine;
pub mod node;
pub mod report;
pub mod session;
pub mod trace;
pub mod tree;
pub mod wire;

verus! {

/// HTTP method recorded in a trace's request context.
#[derive(Debug, Clone, PartialEq, Eq, Structural)]
pub enum HTTPMethod {
    UNKNOWN,
    OPTIONS,
    GET,
    HEAD,
    POST,
    PUT,
    DELETE,
    TRACE,
    CONNECT,
    PATCH,
}

impl HTTPMethod {
    /// Numeric code of the method on the wire.
    pub open spec fn spec_code(self) -> u64 {
        match self {
            HTTPMethod::UNKNOWN => 0,
            HTTPMethod::OPTIONS => 1,
            HTTPMethod::GET => 2,
            HTTPMethod::HEAD => 3,
            HTTPMethod::POST => 4,
            HTTPMethod::PUT => 5,
            HTTPMethod::DELETE => 6,
            HTTPMethod::TRACE => 7,
            HTTPMethod::CONNECT => 8,
            HTTPMethod::PATCH => 9,
        }
    }

    /// Returns the method's numeric wire code.
    pub fn code(&self) -> (r: u64)
        ensures
            r == self.spec_code(),
    {
        match self {
            HTTPMethod::UNKNOWN => 0,
            HTTPMethod::OPTIONS => 1,
            HTTPMethod::GET => 2,
            HTTPMethod::HEAD => 3,
            HTTPMethod::POST => 4,
            HTTPMethod::PUT => 5,
            HTTPMethod::DELETE => 6,
            HTTPMethod::TRACE => 7,
            HTTPMethod::CONNECT => 8,
            HTTPMethod::PATCH => 9,
        }
    }
}

} // verus!
