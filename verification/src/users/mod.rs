use vstd::prelude::*;
use crate::routes::{Router, Method, Endpoint, RouteView, route, can_add, table_view};

pub mod get_user_by_id;
pub mod get_user_by_username;
pub mod message_queue;

verus! {

/// A user's profile.
pub struct User {
    pub id: String,
    pub username: String,
    pub projects: Vec<UserProject>,
}

/// A project of a user, on the user's profile.
pub struct UserProject {
    pub id: String,
    pub name: String,
}

/// The routes of user profiles.
pub open spec fn users_routes() -> Seq<RouteView> {
    seq![
        route(Method::Get, "/users/:user_id", Endpoint::GetUserById),
        route(Method::Get, "/users/@:username", Endpoint::GetUserByUsername),
    ]
}

pub trait UserRouter: Sized {
    /// The table can take the routes of user profiles.
    spec fn accepts_users_routes(&self) -> bool;

    fn register_users_routes(self) -> Self
        requires
            self.accepts_users_routes(),
    ;
}

impl UserRouter for Router {
    open spec fn accepts_users_routes(&self) -> bool {
        can_add(self@, users_routes())
    }

    fn register_users_routes(self) -> (r: Self)
        ensures
            r@ == self@ + users_routes(),
    {
        let table = vec![
            (Method::Get, "/users/:user_id", Endpoint::GetUserById),
            (Method::Get, "/users/@:username", Endpoint::GetUserByUsername),
        ];
        assert(table_view(table@) =~= users_routes());
        self.add_routes(&table)
    }
}

} // verus!
