use vstd::prelude::*;
use routes::{Router, Method, Endpoint, RouteView, route, unambiguous, WebBffRouter, web_bff_routes};

pub mod status;
pub mod keyed;
pub mod routes;
pub mod index;
pub mod auth;
pub mod users;
pub mod projects;

verus! {

/// The routes of the service: its health check, then everything else.
pub open spec fn service_routes() -> Seq<RouteView> {
    seq![route(Method::Get, "/health", Endpoint::Health)] + web_bff_routes()
}

/// No two routes of the service answer the same method on the same path.
pub proof fn lemma_service_routes_unambiguous()
    ensures
        unambiguous(service_routes()),
{
    reveal_strlit("/health");
    reveal_strlit("/popular");
    reveal_strlit("/sign_up");
    reveal_strlit("/login");
    reveal_strlit("/users/:user_id");
    reveal_strlit("/users/@:username");
    reveal_strlit("/projects");
    reveal_strlit("/projects/:project_id");
    reveal_strlit("/projects/:project_id/tags");
    reveal_strlit("/projects/:project_id/tags/:tag");
    reveal_strlit("/projects/:project_id/threads");
    reveal_strlit("/projects/:project_id/threads/:thread_id");
    reveal_strlit("/projects/:project_id/source_requests");
    reveal_strlit("/projects/:project_id/source_requests/:source_request_id");
    reveal_strlit("/projects/:project_id/source_requests/:source_request_id/approve");
    reveal_strlit("/projects/:project_id/source_requests/:source_request_id/complete");
    reveal_strlit("/projects/:project_id/source_requests/:source_request_id/comments");
    let s = service_routes();
    assert(s =~= seq![
        route(Method::Get, "/health", Endpoint::Health),
        route(Method::Get, "/popular", Endpoint::Popular),
        route(Method::Post, "/sign_up", Endpoint::SignUp),
        route(Method::Post, "/login", Endpoint::Login),
        route(Method::Get, "/users/:user_id", Endpoint::GetUserById),
        route(Method::Get, "/users/@:username", Endpoint::GetUserByUsername),
        route(Method::Post, "/projects", Endpoint::CreateProject),
        route(Method::Get, "/projects/:project_id", Endpoint::GetProjectById),
        route(Method::Put, "/projects/:project_id", Endpoint::CreateEvent),
        route(Method::Post, "/projects/:project_id/tags", Endpoint::CreateTag),
        route(Method::Delete, "/projects/:project_id/tags/:tag", Endpoint::DeleteTag),
        route(Method::Get, "/projects/:project_id/threads", Endpoint::ListThreads),
        route(Method::Post, "/projects/:project_id/threads", Endpoint::CreateThread),
        route(Method::Get, "/projects/:project_id/threads/:thread_id", Endpoint::GetThreadById),
        route(Method::Post, "/projects/:project_id/source_requests", Endpoint::CreateSourceRequest),
        route(Method::Get, "/projects/:project_id/source_requests", Endpoint::ListSourceRequests),
        route(Method::Get, "/projects/:project_id/source_requests/:source_request_id", Endpoint::GetSourceRequestById),
        route(Method::Post, "/projects/:project_id/source_requests/:source_request_id/approve", Endpoint::ApproveSourceRequest),
        route(Method::Post, "/projects/:project_id/source_requests/:source_request_id/complete", Endpoint::CompleteSourceRequest),
        route(Method::Post, "/projects/:project_id/source_requests/:source_request_id/comments", Endpoint::CreateComment),
    ]);
    let lens: Seq<nat> = seq![7, 8, 8, 6, 15, 17, 9, 21, 21, 26, 31, 29, 29, 40, 37, 37, 56, 64, 65, 65];
    assert forall|i: int| 0 <= i < s.len() implies (#[trigger] s[i]).1.len() == lens[i] by {
    }
    assert(s[18].1[60] != s[19].1[60]);
    assert forall|i: int, j: int|
        0 <= i < s.len() && 0 <= j < s.len() && i != j
            implies !((#[trigger] s[i]).0 == (#[trigger] s[j]).0 && s[i].1 == s[j].1) by {
        if s[i].0 == s[j].0 && s[i].1 == s[j].1 {
            assert(lens[i] == lens[j]);
            assert(i == 18 && j == 19 || i == 19 && j == 18);
        }
    }
}

/// The routing table of the service.
pub fn router() -> (r: Router)
    ensures
        r@ == service_routes(),
{
    let r = Router::new().route(Method::Get, "/health", Endpoint::Health);
    proof {
        lemma_service_routes_unambiguous();
        assert(r@ + web_bff_routes() =~= service_routes());
    }
    r.register_web_bff_routes()
}

} // verus!
