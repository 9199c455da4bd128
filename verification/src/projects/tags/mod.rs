use vstd::prelude::*;
use crate::routes::{Router, Method, Endpoint, RouteView, route, can_add, table_view};

pub mod create_tag;
pub mod delete_tag;

verus! {

/// The routes of project tags.
pub open spec fn project_tags_routes() -> Seq<RouteView> {
    seq![
        route(Method::Post, "/projects/:project_id/tags", Endpoint::CreateTag),
        route(Method::Delete, "/projects/:project_id/tags/:tag", Endpoint::DeleteTag),
    ]
}

pub trait ProjectTagsRouter: Sized {
    /// The table can take the routes of project tags.
    spec fn accepts_project_tags_routes(&self) -> bool;

    fn register_project_tags_routes(self) -> Self
        requires
            self.accepts_project_tags_routes(),
    ;
}

impl ProjectTagsRouter for Router {
    open spec fn accepts_project_tags_routes(&self) -> bool {
        can_add(self@, project_tags_routes())
    }

    fn register_project_tags_routes(self) -> (r: Self)
        ensures
            r@ == self@ + project_tags_routes(),
    {
        let table = vec![
            (Method::Post, "/projects/:project_id/tags", Endpoint::CreateTag),
            (Method::Delete, "/projects/:project_id/tags/:tag", Endpoint::DeleteTag),
        ];
        assert(table_view(table@) =~= project_tags_routes());
        self.add_routes(&table)
    }
}

} // verus!
