use vstd::prelude::*;
use crate::routes::{Router, Method, Endpoint, RouteView, route, can_add, table_view};

pub mod comments;
pub mod create;
pub mod list_source_requests;
pub mod get_by_id;
pub mod create_comment;
pub mod approve;
pub mod complete;

verus! {

/// The routes of source requests.
pub open spec fn project_source_requests_routes() -> Seq<RouteView> {
    seq![
        route(Method::Post, "/projects/:project_id/source_requests", Endpoint::CreateSourceRequest),
        route(Method::Get, "/projects/:project_id/source_requests", Endpoint::ListSourceRequests),
        route(Method::Get, "/projects/:project_id/source_requests/:source_request_id", Endpoint::GetSourceRequestById),
        route(Method::Post, "/projects/:project_id/source_requests/:source_request_id/approve", Endpoint::ApproveSourceRequest),
        route(Method::Post, "/projects/:project_id/source_requests/:source_request_id/complete", Endpoint::CompleteSourceRequest),
        route(Method::Post, "/projects/:project_id/source_requests/:source_request_id/comments", Endpoint::CreateComment),
    ]
}

pub trait ProjectSourceRequestsRouter: Sized {
    /// The table can take the routes of source requests.
    spec fn accepts_project_source_requests_routes(&self) -> bool;

    fn register_project_source_requests_routes(self) -> Self
        requires
            self.accepts_project_source_requests_routes(),
    ;
}

impl ProjectSourceRequestsRouter for Router {
    open spec fn accepts_project_source_requests_routes(&self) -> bool {
        can_add(self@, project_source_requests_routes())
    }

    fn register_project_source_requests_routes(self) -> (r: Self)
        ensures
            r@ == self@ + project_source_requests_routes(),
    {
        let table = vec![
            (Method::Post, "/projects/:project_id/source_requests", Endpoint::CreateSourceRequest),
            (Method::Get, "/projects/:project_id/source_requests", Endpoint::ListSourceRequests),
            (Method::Get, "/projects/:project_id/source_requests/:source_request_id", Endpoint::GetSourceRequestById),
            (Method::Post, "/projects/:project_id/source_requests/:source_request_id/approve", Endpoint::ApproveSourceRequest),
            (Method::Post, "/projects/:project_id/source_requests/:source_request_id/complete", Endpoint::CompleteSourceRequest),
            (Method::Post, "/projects/:project_id/source_requests/:source_request_id/comments", Endpoint::CreateComment),
        ];
        assert(table_view(table@) =~= project_source_requests_routes());
        self.add_routes(&table)
    }
}

} // verus!
