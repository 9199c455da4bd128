use vstd::prelude::*;
use crate::routes::{Router, Method, Endpoint, RouteView, route, can_add, table_view};

pub mod list_threads;
pub mod create_thread;
pub mod get_thread_by_id;

verus! {

/// The routes of project discussion threads.
pub open spec fn project_threads_routes() -> Seq<RouteView> {
    seq![
        route(Method::Get, "/projects/:project_id/threads", Endpoint::ListThreads),
        route(Method::Post, "/projects/:project_id/threads", Endpoint::CreateThread),
        route(Method::Get, "/projects/:project_id/threads/:thread_id", Endpoint::GetThreadById),
    ]
}

pub trait ProjectThreadsRouter: Sized {
    /// The table can take the routes of project discussion threads.
    spec fn accepts_project_threads_routes(&self) -> bool;

    fn register_project_threads_routes(self) -> Self
        requires
            self.accepts_project_threads_routes(),
    ;
}

impl ProjectThreadsRouter for Router {
    open spec fn accepts_project_threads_routes(&self) -> bool {
        can_add(self@, project_threads_routes())
    }

    fn register_project_threads_routes(self) -> (r: Self)
        ensures
            r@ == self@ + project_threads_routes(),
    {
        let table = vec![
            (Method::Get, "/projects/:project_id/threads", Endpoint::ListThreads),
            (Method::Post, "/projects/:project_id/threads", Endpoint::CreateThread),
            (Method::Get, "/projects/:project_id/threads/:thread_id", Endpoint::GetThreadById),
        ];
        assert(table_view(table@) =~= project_threads_routes());
        self.add_routes(&table)
    }
}

} // verus!
