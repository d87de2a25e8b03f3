//! The answer to a health check.
use vstd::prelude::*;

use crate::error::StatusCode;

verus! {

broadcast use vstd::string::group_string_axioms;

/// Answers a health check: the service is up.
pub fn health_check() -> (response: (StatusCode, String))
    ensures
        response.0 == StatusCode::Success,
        response.1@ == "Ok"@,
{
    (StatusCode::Success, "Ok".to_string())
}

} // verus!
