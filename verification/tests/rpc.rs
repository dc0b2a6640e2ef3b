use codex_shim::json::Json;
use codex_shim::messages::{send_error, send_notification, send_request, send_response};
use codex_shim::rpc::{
    initialize_replied, initialized_line, read_line, request_outcome, route_message, CodexCall, CodexRpc, Incoming,
};
use codex_shim::value::read_bytes;

fn text(s: &str) -> String {
    s.to_string()
}

#[test]
fn requests_are_numbered_from_one_and_printed() {
    let mut rpc: CodexRpc<&str> = CodexRpc::new();
    let (first, line) = rpc.request(&CodexCall::ListModels, "models");
    assert_eq!(first, 1);
    assert_eq!(line, "{\"id\":1,\"method\":\"model/list\",\"params\":{}}\n");
    let (second, line) = rpc.request(&CodexCall::ResumeThread { thread_id: text("t") }, "resume");
    assert_eq!(second, 2);
    assert_eq!(line, "{\"id\":2,\"method\":\"thread/resume\",\"params\":{\"threadId\":\"t\"}}\n");
}

#[test]
fn replies_reach_their_waiters_once() {
    let mut rpc: CodexRpc<&str> = CodexRpc::new();
    let (first, _) = rpc.request(&CodexCall::ListModels, "first");
    let (second, _) = rpc.request(&CodexCall::ListModels, "second");
    assert_eq!(rpc.settle(second), Some("second"));
    assert_eq!(rpc.settle(second), None);
    assert_eq!(rpc.settle(first), Some("first"));
    assert_eq!(rpc.settle(77), None);
}

#[test]
fn the_connection_is_opened_in_the_name_of_jan() {
    let mut rpc: CodexRpc<()> = CodexRpc::new();
    let (_, line) = rpc.request(&CodexCall::Initialize { version: text("0.6") }, ());
    assert_eq!(
        line,
        "{\"id\":1,\"method\":\"initialize\",\"params\":{\"clientInfo\":{\"name\":\"jan\",\"title\":\"Jan Desktop\",\"version\":\"0.6\"}}}\n"
    );
    assert_eq!(initialized_line(), "{\"method\":\"initialized\"}\n");
}

#[test]
fn threads_are_opened_with_a_model_where_there_is_one() {
    let mut rpc: CodexRpc<()> = CodexRpc::new();
    let named = CodexCall::StartThread { model: Some(text("m")), approval_policy: text("never") };
    assert_eq!(
        rpc.request(&named, ()).1,
        "{\"id\":1,\"method\":\"thread/start\",\"params\":{\"approvalPolicy\":\"never\",\"model\":\"m\"}}\n"
    );
    let nameless = CodexCall::StartThread { model: None, approval_policy: text("on-request") };
    assert_eq!(
        rpc.request(&nameless, ()).1,
        "{\"id\":2,\"method\":\"thread/start\",\"params\":{\"approvalPolicy\":\"on-request\"}}\n"
    );
}

#[test]
fn turns_are_opened_with_the_input() {
    let call = CodexCall::StartTurn {
        thread_id: text("t"),
        input: text("say \"hi\""),
        approval_policy: text("on-request"),
        model: Some(text("m")),
    };
    assert_eq!(call.method(), "turn/start");
    let mut rpc: CodexRpc<()> = CodexRpc::new();
    assert_eq!(
        rpc.request(&call, ()).1,
        "{\"id\":1,\"method\":\"turn/start\",\"params\":{\"approvalPolicy\":\"on-request\",\"input\":[{\"text\":\"say \\\"hi\\\"\",\"type\":\"text\"}],\"model\":\"m\",\"threadId\":\"t\"}}\n"
    );
}

#[test]
fn lines_are_told_apart() {
    match read_line("{\"id\":\"3\",\"method\":\"x/requestApproval\",\"params\":1}") {
        Incoming::Request { id, method, message } => {
            assert_eq!(id, 3);
            assert_eq!(method, "x/requestApproval");
            assert_eq!(message.get("params").unwrap().as_u64(), Some(1));
        }
        other => panic!("{:?}", other),
    }
    match read_line("{\"method\":\"turn/completed\"}") {
        Incoming::Notification(message) => assert_eq!(message.get_str("method"), Some("turn/completed")),
        other => panic!("{:?}", other),
    }
    match read_line("{\"id\":5,\"result\":{\"threadId\":\"t\"}}") {
        Incoming::Reply { id: 5, reply: Ok(result) } => assert_eq!(result.get_str("threadId"), Some("t")),
        other => panic!("{:?}", other),
    }
    assert!(matches!(read_line("{\"id\":5}"), Incoming::Reply { id: 5, reply: Ok(Json::Null) }));
}

#[test]
fn errors_are_passed_on_as_their_text() {
    match read_line("{\"id\":5,\"error\":{\"message\":\"no\",\"code\":1},\"result\":2}") {
        Incoming::Reply { id: 5, reply: Err(error) } => assert_eq!(error, "{\"code\":1,\"message\":\"no\"}"),
        other => panic!("{:?}", other),
    }
    match read_line("{\"id\":5,\"error\":null}") {
        Incoming::Reply { id: 5, reply: Err(error) } => assert_eq!(error, "null"),
        other => panic!("{:?}", other),
    }
}

#[test]
fn lines_without_meaning_are_dropped() {
    for line in ["", "   \t", "no json", "{\"result\":1}", "[]", "{\"id\":-1,\"result\":1}"] {
        assert!(matches!(read_line(line), Incoming::Nothing), "{}", line);
    }
}

#[test]
fn a_message_with_a_method_is_no_reply() {
    let message = read_bytes(b"{\"id\":1,\"method\":\"m\",\"result\":2}");
    assert!(matches!(route_message(message, Some(text("e"))), Incoming::Request { id: 1, .. }));
    let reply = read_bytes(b"{\"id\":\"12\",\"result\":2}");
    assert!(matches!(route_message(reply, None), Incoming::Reply { id: 12, reply: Ok(_) }));
    let failed = read_bytes(b"{\"id\":12,\"result\":2}");
    match route_message(failed, Some(text("e"))) {
        Incoming::Reply { id: 12, reply: Err(error) } => assert_eq!(error, "e"),
        other => panic!("{:?}", other),
    }
}

#[test]
fn a_wait_that_is_called_off_is_an_error() {
    assert_eq!(request_outcome(None), Err(text("Codex app server request canceled")));
    assert_eq!(request_outcome(Some(Err(text("e")))), Err(text("e")));
    assert_eq!(request_outcome(Some(Ok(Json::unsigned(1)))), Ok(Json::unsigned(1)));
}

#[test]
fn messages_carry_what_they_are_given() {
    let request = send_request(1, "m", Json::string("p"));
    assert_eq!(request.get_str("method"), Some("m"));
    assert_eq!(request.get_str("params"), Some("p"));
    let bare = send_notification("n", None);
    assert_eq!(bare.get("params"), None);
    let full = send_notification("n", Some(Json::Bool(true)));
    assert_eq!(full.get("params"), Some(&Json::Bool(true)));
    assert_eq!(full.get("id"), None);
    assert_eq!(send_response(2, Json::Null).get("result"), Some(&Json::Null));
    let error = send_error(3, -5, "why");
    assert_eq!(error.get("error").unwrap().get("code"), Some(&Json::signed(-5)));
    assert_eq!(error.get("error").unwrap().get_str("message"), Some("why"));
}

#[test]
fn a_request_that_was_not_sent_uses_up_its_id() {
    let mut rpc: CodexRpc<&str> = CodexRpc::new();
    let (id, _) = rpc.request(&CodexCall::ListModels, "lost");
    assert_eq!(rpc.settle(id), Some("lost"));
    let (next, line) = rpc.request(&CodexCall::ListModels, "kept");
    assert_eq!(next, id + 1);
    assert!(line.starts_with("{\"id\":2,"));
    assert_eq!(rpc.settle(id), None);
    assert_eq!(rpc.settle(next), Some("kept"));
}

#[test]
fn the_connection_is_open_after_a_good_answer_only() {
    assert_eq!(initialize_replied(Ok(Json::Null)), Ok(initialized_line()));
    assert_eq!(initialize_replied(Err(text("no"))), Err(text("no")));
}
