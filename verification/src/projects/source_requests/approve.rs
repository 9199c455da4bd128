use vstd::prelude::*;
use crate::status::{ClientError, not_found_or_forbidden_passed_through, status_of_not_found_or_forbidden};

verus! {

/// An approval for the projects service to record: by whom.
pub struct Approval {
    pub user_id: String,
}

/// First step of approving a source request by the user `user_id`: the approval
/// is recorded as that user's.
pub fn start(user_id: String) -> (call: Approval)
    ensures
        call == (Approval { user_id }),
{
    Approval { user_id }
}

/// Answer to the approval of a source request, once the projects service has
/// answered: done, or an upstream "not found" or "forbidden" passed through; any
/// other failure is a server error.
pub fn on_approved(reply: Result<(), ClientError>) -> (r: Result<(), u16>)
    ensures
        r == match reply {
            Ok(_) => Ok(()),
            Err(e) => Err(not_found_or_forbidden_passed_through(e)),
        },
{
    match reply {
        Ok(_) => Ok(()),
        Err(e) => Err(status_of_not_found_or_forbidden(e)),
    }
}

} // verus!
