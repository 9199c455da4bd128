use vstd::prelude::*;
use crate::index::{IndexRouter, index_routes};
use crate::auth::{AuthRouter, auth_routes};
use crate::users::{UserRouter, users_routes};
use crate::projects::{ProjectsRouter, projects_routes};

verus! {

/// The HTTP methods the service answers.
#[derive(Clone, Copy, Debug, PartialEq, Eq, Structural)]
pub enum Method {
    Get,
    Post,
    Put,
    Delete,
}

/// The endpoints of the service, one per handler.
#[derive(Clone, Copy, Debug, PartialEq, Eq, Structural)]
pub enum Endpoint {
    Health,
    Popular,
    SignUp,
    Login,
    GetUserById,
    GetUserByUsername,
    CreateProject,
    GetProjectById,
    CreateEvent,
    CreateTag,
    DeleteTag,
    ListThreads,
    CreateThread,
    GetThreadById,
    CreateSourceRequest,
    ListSourceRequests,
    GetSourceRequestById,
    ApproveSourceRequest,
    CompleteSourceRequest,
    CreateComment,
}

/// One entry of the routing table: requests with `method` on `path` go to `endpoint`.
pub struct Route {
    pub method: Method,
    pub path: String,
    pub endpoint: Endpoint,
}

/// What a route is, for contracts: its method, its path's characters and its endpoint.
pub type RouteView = (Method, Seq<char>, Endpoint);

impl View for Route {
    type V = RouteView;

    open spec fn view(&self) -> RouteView {
        (self.method, self.path@, self.endpoint)
    }
}

/// A route that the routing table is to hold.
pub open spec fn route(method: Method, path: &str, endpoint: Endpoint) -> RouteView {
    (method, path@, endpoint)
}

/// The routes that a table of (method, path, endpoint) entries describes.
pub open spec fn table_view(table: Seq<(Method, &str, Endpoint)>) -> Seq<RouteView> {
    table.map_values(|t: (Method, &str, Endpoint)| route(t.0, t.1, t.2))
}

/// `routes` holds an entry for `method` on `path`.
pub open spec fn has_route(routes: Seq<RouteView>, method: Method, path: Seq<char>) -> bool {
    exists|i: int| 0 <= i < routes.len() && (#[trigger] routes[i]).0 == method && routes[i].1 == path
}

/// No two entries of `routes` answer the same method on the same path, so that
/// every request is routed to at most one endpoint.
pub open spec fn unambiguous(routes: Seq<RouteView>) -> bool {
    forall|i: int, j: int|
        0 <= i < routes.len() && 0 <= j < routes.len() && i != j
            ==> !((#[trigger] routes[i]).0 == (#[trigger] routes[j]).0 && routes[i].1 == routes[j].1)
}

/// None of `added` clashes with `routes` or with another entry of `added`.
pub open spec fn can_add(routes: Seq<RouteView>, added: Seq<RouteView>) -> bool {
    unambiguous(routes + added)
}

/// Adding the first of `added` to a table that can take all of `added` leaves a
/// table that can take the rest.
pub proof fn lemma_can_add_first(routes: Seq<RouteView>, added: Seq<RouteView>)
    requires
        can_add(routes, added),
        added.len() > 0,
    ensures
        !has_route(routes, added[0].0, added[0].1),
        can_add(routes.push(added[0]), added.drop_first()),
{
    let all = routes + added;
    assert(routes.push(added[0]) + added.drop_first() =~= all);
    if has_route(routes, added[0].0, added[0].1) {
        let i = choose|i: int|
            0 <= i < routes.len() && (#[trigger] routes[i]).0 == added[0].0 && routes[i].1 == added[0].1;
        assert(all[i] == routes[i]);
        assert(all[routes.len() as int] == added[0]);
    }
}

/// A table that can take `x + y` can take `x`, and after it `y`.
pub proof fn lemma_can_add_split(routes: Seq<RouteView>, x: Seq<RouteView>, y: Seq<RouteView>)
    requires
        can_add(routes, x + y),
    ensures
        can_add(routes, x),
        can_add(routes + x, y),
{
    let all = routes + (x + y);
    assert(all =~= (routes + x) + y);
    let pre = routes + x;
    assert forall|i: int, j: int|
        0 <= i < pre.len() && 0 <= j < pre.len() && i != j
            implies !((#[trigger] pre[i]).0 == (#[trigger] pre[j]).0 && pre[i].1 == pre[j].1) by {
        assert(all[i] == pre[i]);
        assert(all[j] == pre[j]);
    }
}

/// The routing table of the service.
pub struct Router {
    routes: Vec<Route>,
}

impl View for Router {
    type V = Seq<RouteView>;

    closed spec fn view(&self) -> Seq<RouteView> {
        self.routes@.map_values(|r: Route| r@)
    }
}

impl Router {
    #[verifier::type_invariant]
    closed spec fn wf(self) -> bool {
        unambiguous(self@)
    }

    /// An empty routing table.
    pub fn new() -> (r: Router)
        ensures
            r@ == Seq::<RouteView>::empty(),
    {
        let r = Router { routes: Vec::new() };
        assert(r@ =~= Seq::<RouteView>::empty());
        r
    }

    /// Adds the route `method` on `path` to `endpoint`. The table must not answer
    /// `method` on `path` yet: a second handler for the same request is refused.
    pub fn route(self, method: Method, path: &str, endpoint: Endpoint) -> (r: Router)
        requires
            !has_route(self@, method, path@),
        ensures
            r@ == self@.push(route(method, path, endpoint)),
    {
        proof {
            use_type_invariant(&self);
        }
        let ghost old_view = self@;
        let mut routes = self.routes;
        routes.push(Route { method, path: path.to_owned(), endpoint });
        let ghost new_view = routes@.map_values(|r: Route| r@);
        assert(new_view =~= old_view.push(route(method, path, endpoint)));
        assert forall|i: int, j: int|
            0 <= i < new_view.len() && 0 <= j < new_view.len() && i != j
                implies !((#[trigger] new_view[i]).0 == (#[trigger] new_view[j]).0
                && new_view[i].1 == new_view[j].1) by {
            if i == new_view.len() - 1 {
                assert(old_view[j] == new_view[j]);
            } else if j == new_view.len() - 1 {
                assert(old_view[i] == new_view[i]);
            } else {
                assert(old_view[i] == new_view[i]);
                assert(old_view[j] == new_view[j]);
            }
        }
        Router { routes }
    }


    /// Adds the routes of `table`, in order. None of them may clash with the
    /// table or with another of them.
    pub fn add_routes(self, table: &Vec<(Method, &str, Endpoint)>) -> (r: Router)
        requires
            can_add(self@, table_view(table@)),
        ensures
            r@ == self@ + table_view(table@),
    {
        let ghost all = table_view(table@);
        let mut r = self;
        let mut i: usize = 0;
        assert(all.skip(0) =~= all);
        assert(self@ + all.take(0) =~= self@);
        while i < table.len()
            invariant
                i <= table.len(),
                all == table_view(table@),
                r@ == self@ + all.take(i as int),
                can_add(r@, all.skip(i as int)),
            decreases table.len() - i,
        {
            let entry = table[i];
            proof {
                assert(all.skip(i as int)[0] == route(entry.0, entry.1, entry.2));
                assert(all.skip(i as int).drop_first() =~= all.skip(i + 1));
                lemma_can_add_first(r@, all.skip(i as int));
            }
            r = r.route(entry.0, entry.1, entry.2);
            assert(all.take(i + 1) =~= all.take(i as int).push(route(entry.0, entry.1, entry.2)));
            i = i + 1;
        }
        assert(all.take(i as int) =~= all);
        r
    }

    /// The entries of the table, in the order they were added.
    pub fn routes(&self) -> (routes: &Vec<Route>)
        ensures
            routes@.map_values(|r: Route| r@) == self@,
            unambiguous(self@),
    {
        proof {
            use_type_invariant(self);
        }
        &self.routes
    }
}

/// The routes of the whole service, besides its health check.
pub open spec fn web_bff_routes() -> Seq<RouteView> {
    index_routes() + auth_routes() + users_routes() + projects_routes()
}

pub trait WebBffRouter: Sized {
    /// The table can take the routes of the whole service.
    spec fn accepts_web_bff_routes(&self) -> bool;

    fn register_web_bff_routes(self) -> Self
        requires
            self.accepts_web_bff_routes(),
    ;
}

impl WebBffRouter for Router {
    open spec fn accepts_web_bff_routes(&self) -> bool {
        can_add(self@, web_bff_routes())
    }

    fn register_web_bff_routes(self) -> (r: Self)
        ensures
            r@ == self@ + web_bff_routes(),
    {
        let ghost start = self@;
        let ghost a = index_routes();
        let ghost b = auth_routes();
        let ghost c = users_routes();
        let ghost d = projects_routes();
        proof {
            assert(web_bff_routes() =~= a + (b + (c + d)));
            lemma_can_add_split(start, a, b + (c + d));
        }
        let r = self.register_index_routes();
        proof {
            lemma_can_add_split(r@, b, c + d);
        }
        let r = r.register_auth_routes();
        proof {
            lemma_can_add_split(r@, c, d);
        }
        let r = r.register_users_routes();
        let r = r.register_projects_routes();
        assert(r@ =~= start + web_bff_routes());
        r
    }
}

} // verus!
