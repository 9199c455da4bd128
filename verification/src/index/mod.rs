use vstd::prelude::*;
use crate::routes::{Router, Method, Endpoint, RouteView, route, can_add, table_view};

pub mod popular;

verus! {

/// The routes of the landing page.
pub open spec fn index_routes() -> Seq<RouteView> {
    seq![
        route(Method::Get, "/popular", Endpoint::Popular),
    ]
}

pub trait IndexRouter: Sized {
    /// The table can take the routes of the landing page.
    spec fn accepts_index_routes(&self) -> bool;

    fn register_index_routes(self) -> Self
        requires
            self.accepts_index_routes(),
    ;
}

impl IndexRouter for Router {
    open spec fn accepts_index_routes(&self) -> bool {
        can_add(self@, index_routes())
    }

    fn register_index_routes(self) -> (r: Self)
        ensures
            r@ == self@ + index_routes(),
    {
        let table = vec![
            (Method::Get, "/popular", Endpoint::Popular),
        ];
        assert(table_view(table@) =~= index_routes());
        self.add_routes(&table)
    }
}

} // verus!
