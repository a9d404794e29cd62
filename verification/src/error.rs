//! The uniform error of the retrieval pipeline.

use vstd::prelude::*;

verus! {

/// What can go wrong between asking the server and holding a job list:
/// the base URL does not form a valid query URL, the transport fails or
/// answers with a non-success status, or the body does not have the
/// expected shape — including any unrecognized colour or result string,
/// which must fail the decode rather than be coerced.
#[derive(Clone, Copy, Debug, PartialEq, Eq, Structural)]
pub enum JenkinsError {
    UrlError,
    TransportError,
    DecodeError,
}

} // verus!
