use vstd::prelude::*;
use crate::status::{ClientError, not_found_passed_through, status_of_not_found};

verus! {

/// The source requests of a project.
pub struct ListSourceRequestsResponse {
    pub source_requests: Vec<SourceRequest>,
}

/// A source request of a project, by id, with its summary.
pub struct SourceRequest {
    pub id: String,
    pub source_request: SourceRequestSummary,
}

/// The summary of a source request, by its state.
pub enum SourceRequestSummary {
    New(NewSourceRequestSummary),
    Approved(ApprovedSourceRequestSummary),
    Completed(CompletedSourceRequestSummary),
}

/// A source request not yet approved.
pub struct NewSourceRequestSummary {
    pub project_id: String,
    pub user_id: String,
    pub title: String,
}

/// An approved source request.
pub struct ApprovedSourceRequestSummary {
    pub project_id: String,
    pub user_id: String,
    pub title: String,
}

/// A completed source request.
pub struct CompletedSourceRequestSummary {
    pub project_id: String,
    pub user_id: String,
    pub title: String,
}

/// Answer to listing a project's source requests, once the projects service has
/// answered: the source requests as listed; an upstream "not found" is passed
/// through and any other failure is a server error.
pub fn on_listed(reply: Result<Vec<SourceRequest>, ClientError>) -> (r: Result<ListSourceRequestsResponse, u16>)
    ensures
        r == match reply {
            Ok(s) => Ok(ListSourceRequestsResponse { source_requests: s }),
            Err(e) => Err(not_found_passed_through(e)),
        },
{
    match reply {
        Ok(source_requests) => Ok(ListSourceRequestsResponse { source_requests }),
        Err(e) => Err(status_of_not_found(e)),
    }
}

} // verus!
