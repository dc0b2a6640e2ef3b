use codex_shim::http::{
    bad_gateway, cors_response, error_body, error_response, models_body, models_response, models_response_at,
    not_found_response, preflight_response, route, stream_response, HttpReply, Route,
};
use codex_shim::ids::{created_now, new_response_id};
use codex_shim::json::Json;
use codex_shim::value::read_bytes;

fn has_header(reply: &HttpReply, name: &str, value: &str) -> bool {
    reply.headers.iter().any(|(n, v)| n == name && v == value)
}

#[test]
fn paths_are_routed() {
    assert_eq!(route("GET", "/v1/models"), Route::ListModels);
    assert_eq!(route("GET", "/models"), Route::ListModels);
    assert_eq!(route("POST", "/v1/chat/completions"), Route::Chat);
    assert_eq!(route("POST", "/chat/completions"), Route::Chat);
    assert_eq!(route("OPTIONS", "/anything"), Route::Preflight);
    assert_eq!(route("POST", "/v1/models"), Route::NotFound);
    assert_eq!(route("GET", "/v1/chat/completions"), Route::NotFound);
    assert_eq!(route("GET", "/v1/models/"), Route::NotFound);
    assert_eq!(route("get", "/v1/models"), Route::NotFound);
}

#[test]
fn plain_replies() {
    let preflight = preflight_response();
    assert_eq!((preflight.status, preflight.body.as_str()), (200, ""));
    let missing = not_found_response();
    assert_eq!((missing.status, missing.body.as_str()), (404, "Not found"));
}

#[test]
fn replies_may_be_read_by_pages_of_any_origin() {
    let whole = cors_response(200, "x".to_string());
    assert_eq!(whole.body, "x");
    assert!(has_header(&whole, "Access-Control-Allow-Origin", "*"));
    assert!(has_header(&whole, "Access-Control-Allow-Headers", "content-type, authorization, x-jan-thread-id"));
    assert!(has_header(&whole, "Access-Control-Allow-Methods", "GET, POST, OPTIONS"));
    let streamed = stream_response();
    assert_eq!(streamed.status, 200);
    assert!(has_header(&streamed, "Content-Type", "text/event-stream"));
    assert!(has_header(&streamed, "Cache-Control", "no-cache"));
    assert!(has_header(&streamed, "Connection", "keep-alive"));
    assert!(has_header(&streamed, "Access-Control-Allow-Origin", "*"));
}

#[test]
fn errors_are_told_as_json() {
    let reply = bad_gateway("a \"b\"");
    assert_eq!(reply.status, 502);
    assert_eq!(reply.body, "{\"error\":{\"message\":\"a \\\"b\\\"\"}}");
    assert_eq!(error_response(400, "m").status, 400);
    assert_eq!(error_body("m").get("error").unwrap().get_str("message"), Some("m"));
}

#[test]
fn models_are_shown_with_their_time() {
    let list = read_bytes(b"{\"models\":[\"a\",{\"id\":\"b\"}]}");
    let reply = models_response_at(Ok(list), 17);
    assert_eq!(reply.status, 200);
    assert_eq!(
        reply.body,
        "{\"data\":[{\"created\":17,\"id\":\"a\",\"object\":\"model\",\"owned_by\":\"codex-app-server\"},\
         {\"created\":17,\"id\":\"b\",\"object\":\"model\",\"owned_by\":\"codex-app-server\"}],\"object\":\"list\"}"
    );
}

#[test]
fn without_models_the_shim_is_shown() {
    let reply = models_response_at(Ok(Json::object()), -3);
    assert_eq!(
        reply.body,
        "{\"data\":[{\"created\":-3,\"id\":\"codex-app-server\",\"object\":\"model\",\"owned_by\":\"codex-app-server\"}],\"object\":\"list\"}"
    );
    let body = models_body(vec![], 0);
    assert_eq!(body.get_str("object"), Some("list"));
}

#[test]
fn a_failed_list_of_models_is_told() {
    let reply = models_response(Err("down".to_string()));
    assert_eq!(reply.status, 502);
    assert_eq!(reply.body, "{\"error\":{\"message\":\"down\"}}");
}

#[test]
fn models_are_shown_with_the_current_time() {
    let before = created_now();
    let reply = models_response(Ok(Json::object()));
    let after = created_now();
    let shown = read_bytes(reply.body.as_bytes());
    let created = match shown.get("data") {
        Some(Json::Array(items)) => items[0].get("created").unwrap().as_u64().unwrap(),
        other => panic!("{:?}", other),
    };
    assert!(before <= created && created <= after);
    assert!(created > 1_600_000_000);
}

#[test]
fn response_ids_are_random_uuids() {
    let id = new_response_id();
    let uuid = id.strip_prefix("chatcmpl-").unwrap();
    assert_eq!(uuid.len(), 36);
    for (i, c) in uuid.chars().enumerate() {
        if [8, 13, 18, 23].contains(&i) {
            assert_eq!(c, '-');
        } else {
            assert!(c.is_ascii_digit() || ('a'..='f').contains(&c));
        }
    }
    assert_eq!(uuid.as_bytes()[14], b'4');
    assert!(b"89ab".contains(&uuid.as_bytes()[19]));
    assert_ne!(new_response_id(), id);
}
