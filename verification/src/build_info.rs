//! Build metadata exposed by `GET /api/build-info`.

use vstd::prelude::*;

verus! {

/// The body of `GET /api/build-info`: `<version> <digest>`.
pub fn current_wire_body(version: &str, backend_source_digest: &str) -> (body: String)
    ensures
        body@ == version@ + " "@ + backend_source_digest@,
{
    let mut body = String::from_str(version);
    body.append(" ");
    body.append(backend_source_digest);
    body
}

} // verus!
