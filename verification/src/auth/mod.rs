use vstd::prelude::*;
use crate::routes::{Router, Method, Endpoint, RouteView, route, can_add, table_view};

pub mod login;
pub mod sign_up;

verus! {

/// A user name and password, as the auth service is handed them.
pub struct Credentials {
    pub username: String,
    pub password: String,
}

/// The routes of account creation and login.
pub open spec fn auth_routes() -> Seq<RouteView> {
    seq![
        route(Method::Post, "/sign_up", Endpoint::SignUp),
        route(Method::Post, "/login", Endpoint::Login),
    ]
}

pub trait AuthRouter: Sized {
    /// The table can take the routes of account creation and login.
    spec fn accepts_auth_routes(&self) -> bool;

    fn register_auth_routes(self) -> Self
        requires
            self.accepts_auth_routes(),
    ;
}

impl AuthRouter for Router {
    open spec fn accepts_auth_routes(&self) -> bool {
        can_add(self@, auth_routes())
    }

    fn register_auth_routes(self) -> (r: Self)
        ensures
            r@ == self@ + auth_routes(),
    {
        let table = vec![
            (Method::Post, "/sign_up", Endpoint::SignUp),
            (Method::Post, "/login", Endpoint::Login),
        ];
        assert(table_view(table@) =~= auth_routes());
        self.add_routes(&table)
    }
}

} // verus!
