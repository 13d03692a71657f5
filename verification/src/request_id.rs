//! The per-request correlation identifier that the HTTP layer mints for each
//! incoming request and attaches to its log lines.

use vstd::prelude::*;

verus! {

/// One request's correlation identifier, an opaque string minted when the
/// request arrives and carried with it from then on.
pub struct RequestID(pub String);

impl RequestID {
    /// Wraps a freshly minted identifier.
    pub fn new(id: String) -> (r: RequestID)
        ensures
            r.0@ == id@,
    {
        RequestID(id)
    }
}

} // verus!
