use helix_social::proxy::{complete, dispatch, handle, Action, Reply};
use helix_social::route::{all_routes, route_for_path, Method, Route};

fn forwarded(action: Action) -> (&'static str, Vec<u8>) {
    match action {
        Action::Forward { query, input } => (query, input),
        Action::Respond(r) => panic!("expected a forwarded query, got status {}", r.status),
    }
}

fn replied(action: Action) -> Reply {
    match action {
        Action::Respond(r) => r,
        Action::Forward { query, .. } => panic!("expected a reply, got a call to {}", query),
    }
}

#[test]
fn paths_resolve_to_routes() {
    assert_eq!(route_for_path("createUser"), Some(Route::CreateUser));
    assert_eq!(route_for_path("searchPostEmbeddings"), Some(Route::SearchPostEmbeddings));
    assert_eq!(route_for_path("health"), Some(Route::Health));
    assert_eq!(route_for_path("getFollowing"), Some(Route::GetFollowing));
    assert_eq!(route_for_path("getFollowers"), Some(Route::GetFollowers));
    assert_eq!(route_for_path("createuser"), None);
    assert_eq!(route_for_path(""), None);
    for rt in all_routes() {
        assert_eq!(route_for_path(rt.path()), Some(rt));
    }
}

#[test]
fn body_routes_forward_body_unchanged() {
    let body = br#"{"name":"Alice","age":25,"email":"alice@example.com"}"#;
    for rt in all_routes() {
        if rt == Route::Health || !rt.reads_body() {
            continue;
        }
        let (query, input) = forwarded(handle(rt, Method::Post, body));
        assert_eq!(query, rt.path());
        assert_eq!(input, body.to_vec());
    }
}

#[test]
fn success_wrapped_in_one_element_array() {
    let reply = complete(Ok(br#"{"user":{"id":"u1"}}"#.to_vec()));
    assert_eq!(reply.status, 200);
    assert_eq!(reply.body, br#"[{"user":{"id":"u1"}}]"#.to_vec());
}

#[test]
fn failure_reported_with_status_200() {
    let reply = complete(Err("connection refused".to_string()));
    assert_eq!(reply.status, 200);
    assert_eq!(reply.body, br#"{"error":"connection refused"}"#.to_vec());
}

#[test]
fn failure_message_is_escaped() {
    let reply = complete(Err("bad \"input\"\n".to_string()));
    assert_eq!(reply.body, br#"{"error":"bad \"input\"\n"}"#.to_vec());
}

#[test]
fn health_answers_without_query() {
    let reply = replied(handle(Route::Health, Method::Get, b""));
    assert_eq!(reply.status, 200);
    assert_eq!(reply.body, br#"{"status":"healthy"}"#.to_vec());
    let reply = replied(dispatch("health", Method::Get, b"not json"));
    assert_eq!(reply.body, br#"{"status":"healthy"}"#.to_vec());
}

#[test]
fn parameterless_routes_send_empty_object() {
    for rt in [Route::GetUsers, Route::GetPosts] {
        for body in [&b""[..], &b"garbage"[..], &br#"{"x":1}"#[..]] {
            let (query, input) = forwarded(handle(rt, Method::Post, body));
            assert_eq!(query, rt.path());
            assert_eq!(input, b"{}".to_vec());
        }
    }
    let (query, input) = forwarded(dispatch("getUsers", Method::Post, b""));
    assert_eq!(query, "getUsers");
    assert_eq!(input, b"{}".to_vec());
}

#[test]
fn malformed_body_is_rejected() {
    for body in [&b""[..], &b"[1,2]"[..], &b"{\"a\":"[..], &b"42"[..]] {
        let reply = replied(handle(Route::CreatePost, Method::Post, body));
        assert_eq!(reply.status, 400);
    }
    let (_, input) = forwarded(handle(Route::GetFollowers, Method::Post, b"{}"));
    assert_eq!(input, b"{}".to_vec());
}

#[test]
fn wrong_method_and_unknown_path() {
    assert_eq!(replied(handle(Route::CreateUser, Method::Get, b"{}")).status, 405);
    assert_eq!(replied(handle(Route::Health, Method::Post, b"")).status, 405);
    assert_eq!(replied(dispatch("nowhere", Method::Post, b"{}")).status, 404);
    assert_eq!(Route::Health.method(), Method::Get);
    assert_eq!(Route::GetPosts.method(), Method::Post);
    assert_eq!(Route::Health.query(), None);
    assert_eq!(Route::CreatePostEmbedding.query(), Some("createPostEmbedding"));
}
