use vstd::prelude::*;
use crate::routes::{Router, Method, Endpoint, RouteView, route, can_add, table_view};
use crate::projects::source_requests::project_source_requests_routes;

verus! {

/// The routes of comments on source requests.
pub open spec fn project_source_request_comments_routes() -> Seq<RouteView> {
    seq![
        route(Method::Post, "/projects/:project_id/source_requests/:source_request_id/comments", Endpoint::CreateComment),
    ]
}

/// The route of comments on source requests is one that the routes of source
/// requests already hold, so no table can take both.
pub proof fn lemma_comments_routes_clash(routes: Seq<RouteView>)
    ensures
        !can_add(routes, project_source_requests_routes() + project_source_request_comments_routes()),
{
    let all = routes + (project_source_requests_routes() + project_source_request_comments_routes());
    let n = routes.len() as int;
    assert(all[n + 5] == all[n + 6]);
}

pub trait ProjectSourceRequestCommentsRouter: Sized {
    /// The table can take the routes of comments on source requests.
    spec fn accepts_project_source_request_comments_routes(&self) -> bool;

    fn register_project_source_request_comments_routes(self) -> Self
        requires
            self.accepts_project_source_request_comments_routes(),
    ;
}

impl ProjectSourceRequestCommentsRouter for Router {
    open spec fn accepts_project_source_request_comments_routes(&self) -> bool {
        can_add(self@, project_source_request_comments_routes())
    }

    fn register_project_source_request_comments_routes(self) -> (r: Self)
        ensures
            r@ == self@ + project_source_request_comments_routes(),
    {
        let table = vec![
            (Method::Post, "/projects/:project_id/source_requests/:source_request_id/comments", Endpoint::CreateComment),
        ];
        assert(table_view(table@) =~= project_source_request_comments_routes());
        self.add_routes(&table)
    }
}

} // verus!
