use users_api::router::{app, Handler, Method, Router};
use users_api::service::{plan, Plan};

#[test]
fn table_serves_the_four_routes() {
    let router = app();
    assert_eq!(router.dispatch(Method::Get, "/"), Handler::Root);
    assert_eq!(router.dispatch(Method::Get, "/health-check"), Handler::HealthCheck);
    assert_eq!(router.dispatch(Method::Get, "/users"), Handler::LoadUsers);
    assert_eq!(router.dispatch(Method::Post, "/users"), Handler::CreateUser);
}

#[test]
fn table_hands_unknown_paths_to_the_fallback() {
    let router = app();
    assert_eq!(router.dispatch(Method::Get, "/does-not-exist"), Handler::Fallback);
    assert_eq!(router.dispatch(Method::Get, ""), Handler::Fallback);
    assert_eq!(router.dispatch(Method::Get, "/users/"), Handler::Fallback);
    assert_eq!(router.dispatch(Method::Get, "/Users"), Handler::Fallback);
    assert_eq!(router.dispatch(Method::Get, "/users/1"), Handler::Fallback);
}

#[test]
fn table_hands_unknown_methods_to_the_fallback() {
    let router = app();
    assert_eq!(router.dispatch(Method::Post, "/"), Handler::Fallback);
    assert_eq!(router.dispatch(Method::Post, "/health-check"), Handler::Fallback);
    assert_eq!(router.dispatch(Method::Put, "/users"), Handler::Fallback);
    assert_eq!(router.dispatch(Method::Delete, "/users"), Handler::Fallback);
    assert_eq!(router.dispatch(Method::Patch, "/users"), Handler::Fallback);
    assert_eq!(router.dispatch(Method::Head, "/users"), Handler::Fallback);
    assert_eq!(router.dispatch(Method::Options, "/users"), Handler::Fallback);
    assert_eq!(router.dispatch(Method::Connect, "/users"), Handler::Fallback);
    assert_eq!(router.dispatch(Method::Trace, "/users"), Handler::Fallback);
    assert_eq!(router.dispatch(Method::Other, "/users"), Handler::Fallback);
}

#[test]
fn empty_table_has_only_the_fallback() {
    let router = Router::new();
    assert_eq!(router.routes.len(), 0);
    assert_eq!(router.dispatch(Method::Get, "/"), Handler::Fallback);
}

#[test]
fn added_route_is_served_and_nothing_else_changes() {
    let router = Router::new().route(Method::Put, "/things", Handler::Root);
    assert_eq!(router.dispatch(Method::Put, "/things"), Handler::Root);
    assert_eq!(router.dispatch(Method::Get, "/things"), Handler::Fallback);
    assert_eq!(router.dispatch(Method::Put, "/thing"), Handler::Fallback);
    let router = router.route(Method::Get, "/things", Handler::LoadUsers);
    assert_eq!(router.dispatch(Method::Put, "/things"), Handler::Root);
    assert_eq!(router.dispatch(Method::Get, "/things"), Handler::LoadUsers);
    assert_eq!(router.routes.len(), 2);
}

#[test]
fn plan_names_the_statement_for_the_user_routes() {
    let router = app();
    assert_eq!(plan(&router, Method::Get, "/users", "/users?all=1"), Plan::ListUsers);
    assert_eq!(plan(&router, Method::Post, "/users", "/users"), Plan::CreateUser);
}

#[test]
fn plan_answers_unknown_methods_with_404() {
    match plan(&app(), Method::Delete, "/users", "/users") {
        Plan::Answer(response) => {
            assert_eq!(response.status, 404);
            assert_eq!(response.body, "{\"message\":\"No route for /users\"}");
        }
        other => panic!("expected an answer, got {:?}", other),
    }
}
