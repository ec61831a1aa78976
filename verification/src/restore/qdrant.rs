//! Checking a Qdrant server before a snapshot is restored into it.

use vstd::prelude::*;
use vstd::string::*;
use crate::text::concat2;

verus! {

/// The health endpoint of the Qdrant server at `url`.
pub fn health_url(url: &str) -> (r: String)
    ensures
        r@ == url@ + "/health"@,
{
    concat2(url, "/health")
}

/// The outcome of the health check, given whether the server answered with success.
pub fn health_check_outcome(success: bool) -> (r: Result<(), String>)
    ensures
        success ==> r is Ok,
        !success ==> r is Err && r->Err_0@ == "Qdrant health check failed"@,
{
    if success {
        Ok(())
    } else {
        Err(String::from_str("Qdrant health check failed"))
    }
}

} // verus!
