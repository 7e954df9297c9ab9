//! The health check: tells whether the store answers.

use crate::db::statement::{Failure, FailureView};
use crate::handlers::response::{text_response, Response, ResponseView, OK};
use vstd::prelude::*;

verus! {

/// What the health check answers to the report on its probe.
///
/// The status is 200 either way; a failure shows only in the text.
pub open spec fn spec_db_check(probe: Result<(), FailureView>) -> ResponseView {
    match probe {
        Ok(_) => text_response(OK, "Database connection OK"@),
        Err(failure) => text_response(OK, "Database error: "@ + failure.message),
    }
}

/// Answers the health check from the report on a probe of the store.
pub fn db_check(probe: Result<(), Failure>) -> (response: Response)
    ensures
        response@ == spec_db_check(
            match probe {
                Ok(_) => Ok(()),
                Err(failure) => Err(failure@),
            },
        ),
{
    match probe {
        Ok(_) => Response::text(OK, "Database connection OK"),
        Err(failure) => Response::diagnostic(OK, "Database error: ", failure.message.as_str()),
    }
}

} // verus!
