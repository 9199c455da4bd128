use web_bff::router;
use web_bff::routes::{Endpoint, Method, Router};
use web_bff::auth::AuthRouter;

fn entries(r: &Router) -> Vec<(Method, String, Endpoint)> {
    r.routes().iter().map(|x| (x.method, x.path.clone(), x.endpoint)).collect()
}

#[test]
fn service_has_every_route_once() {
    let r = router();
    let e = entries(&r);
    assert_eq!(e.len(), 20);
    assert_eq!(e[0], (Method::Get, "/health".to_string(), Endpoint::Health));
    assert_eq!(e[1], (Method::Get, "/popular".to_string(), Endpoint::Popular));
    for i in 0..e.len() {
        for j in 0..e.len() {
            if i != j {
                assert!(!(e[i].0 == e[j].0 && e[i].1 == e[j].1));
            }
        }
    }
}

#[test]
fn project_path_answers_get_and_put() {
    let e = entries(&router());
    let on_project: Vec<_> = e.iter().filter(|x| x.1 == "/projects/:project_id").collect();
    assert_eq!(on_project.len(), 2);
    assert_eq!(on_project[0].0, Method::Get);
    assert_eq!(on_project[0].2, Endpoint::GetProjectById);
    assert_eq!(on_project[1].0, Method::Put);
    assert_eq!(on_project[1].2, Endpoint::CreateEvent);
}

#[test]
fn comments_route_goes_to_create_comment() {
    let e = entries(&router());
    let last = &e[e.len() - 1];
    assert_eq!(last.0, Method::Post);
    assert_eq!(last.1, "/projects/:project_id/source_requests/:source_request_id/comments");
    assert_eq!(last.2, Endpoint::CreateComment);
}

#[test]
fn auth_routes_are_appended() {
    let r = Router::new().route(Method::Get, "/health", Endpoint::Health).register_auth_routes();
    let e = entries(&r);
    assert_eq!(e, vec![
        (Method::Get, "/health".to_string(), Endpoint::Health),
        (Method::Post, "/sign_up".to_string(), Endpoint::SignUp),
        (Method::Post, "/login".to_string(), Endpoint::Login),
    ]);
}
