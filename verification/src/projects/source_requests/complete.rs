use vstd::prelude::*;
use crate::status::{ClientError, not_found_or_forbidden_passed_through, status_of_not_found_or_forbidden};

verus! {

/// A completion for the projects service to record: by whom.
pub struct Completion {
    pub user_id: String,
}

/// First step of completing a source request by the user `user_id`: the
/// completion is recorded as that user's.
pub fn start(user_id: String) -> (call: Completion)
    ensures
        call == (Completion { user_id }),
{
    Completion { user_id }
}

/// Answer to the completion of a source request, once the projects service has
/// answered: done, or an upstream "not found" or "forbidden" passed through; any
/// other failure is a server error.
pub fn on_completed(reply: Result<(), ClientError>) -> (r: Result<(), u16>)
    ensures
        r == match reply {
            Ok(_) => Ok(()),
            Err(e) => Err(not_found_or_forbidden_passed_through(e)),
        },
{
    match reply {
        Ok(_) => Ok(()),
        Err(e) => Err(status_of_not_found_or_forbidden(e)),
    }
}

} // verus!
