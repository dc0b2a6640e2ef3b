use codex_shim::chat::{
    open_chat, read_chat_request, start_or_resume_thread, thread_awaited, thread_replied, thread_resumed,
    turn_replied, turn_replied_at, ChatRequest, OpenTurn, ThreadReply, ThreadStep, TurnPlan, THREAD_ID_HEADER,
    THREAD_STARTED_TIMEOUT_SECS,
};
use codex_shim::config::CodexShimConfig;
use codex_shim::ids::created_now;
use codex_shim::json::Json;
use codex_shim::rpc::CodexCall;
use codex_shim::state::CodexShimState;
use codex_shim::turn::Received;
use codex_shim::value::read_bytes;

const HELLO: &[u8] = b"{\"messages\":[{\"role\":\"user\",\"content\":\"hello\"}]}";

fn state(tool_mode: &str, model_id: Option<&str>) -> CodexShimState<u32> {
    let mut state: CodexShimState<u32> = CodexShimState::default();
    state.config = CodexShimConfig {
        host: "127.0.0.1".to_string(),
        port: 0,
        tool_mode: tool_mode.to_string(),
        model_id: model_id.map(|s| s.to_string()),
        codex_app_server_path: None,
    };
    state
}

fn request(jan: Option<&str>) -> ChatRequest {
    open_chat(HELLO, jan.map(|s| s.to_string())).unwrap()
}

fn plan_of(step: ThreadStep) -> TurnPlan {
    match step {
        ThreadStep::Start(plan) => plan,
        ThreadStep::Resume(turn) => panic!("{:?}", turn),
    }
}

fn opened(reply: ThreadReply) -> OpenTurn {
    match reply {
        ThreadReply::Opened(turn) => turn,
        other => panic!("{:?}", other),
    }
}

#[test]
fn requests_are_read_with_their_defaults() {
    let plain = request(Some("j"));
    assert_eq!(plain.jan_thread_id.as_deref(), Some("j"));
    assert!(plain.streaming);
    assert_eq!(plain.requested_model, None);
    assert_eq!(plain.user_message, "hello");
    let full = read_bytes(
        b"{\"stream\":false,\"model\":\"m\",\"messages\":[{\"role\":\"user\",\"content\":\"x\"}]}",
    );
    let read = read_chat_request(&full, None).unwrap();
    assert!(!read.streaming);
    assert_eq!(read.requested_model.as_deref(), Some("m"));
    let odd = read_bytes(b"{\"stream\":\"no\",\"model\":5,\"messages\":[{\"role\":\"user\",\"content\":\"x\"}]}");
    let read = read_chat_request(&odd, None).unwrap();
    assert!(read.streaming);
    assert_eq!(read.requested_model, None);
}

#[test]
fn requests_without_a_message_are_turned_down() {
    for body in [
        &b""[..],
        &b"not json"[..],
        &b"{}"[..],
        &b"{\"messages\":[]}"[..],
        &b"{\"messages\":[{\"role\":\"user\",\"content\":\" \\n\"}]}"[..],
        &b"{\"messages\":[{\"role\":\"assistant\",\"content\":\"x\"}]}"[..],
    ] {
        let reply = open_chat(body, None).unwrap_err();
        assert_eq!(reply.status, 400);
        assert_eq!(reply.body, "{\"error\":{\"message\":\"No user message provided.\"}}");
    }
}

#[test]
fn a_new_conversation_opens_a_thread() {
    let step = start_or_resume_thread(request(Some("j")), &state("jan", Some("c")));
    let plan = plan_of(step);
    assert_eq!(plan.input, "hello");
    assert!(plan.streaming);
    match plan.start_call() {
        CodexCall::StartThread { model, approval_policy } => {
            assert_eq!(model.as_deref(), Some("c"));
            assert_eq!(approval_policy, "on-request");
        }
        other => panic!("{:?}", other),
    }
}

#[test]
fn a_conversation_goes_on_in_its_thread() {
    let mut state = state("codex", None);
    let plan = plan_of(start_or_resume_thread(request(Some("j")), &state));
    let first = opened(thread_replied(plan, Ok(read_bytes(b"{\"thread\":{\"id\":\"t1\"}}")), &mut state));
    assert_eq!(first.thread_id, "t1");
    let turn = match start_or_resume_thread(request(Some("j")), &state) {
        ThreadStep::Resume(turn) => turn,
        ThreadStep::Start(plan) => panic!("{:?}", plan),
    };
    assert!(matches!(turn.resume_call(), CodexCall::ResumeThread { thread_id } if thread_id == "t1"));
    let turn = thread_resumed(turn, Err("gone".to_string()));
    match turn.turn_call() {
        CodexCall::StartTurn { thread_id, input, approval_policy, model } => {
            assert_eq!(thread_id, "t1");
            assert_eq!(input, "hello");
            assert_eq!(approval_policy, "never");
            assert_eq!(model, None);
        }
        other => panic!("{:?}", other),
    }
}

#[test]
fn conversations_do_not_share_threads() {
    let mut state = state("jan", None);
    let plan = plan_of(start_or_resume_thread(request(Some("j")), &state));
    opened(thread_replied(plan, Ok(read_bytes(b"{\"threadId\":\"t1\"}")), &mut state));
    assert!(matches!(start_or_resume_thread(request(Some("k")), &state), ThreadStep::Start(_)));
    assert!(matches!(start_or_resume_thread(request(None), &state), ThreadStep::Start(_)));
}

#[test]
fn nameless_conversations_are_not_remembered() {
    let mut state = state("jan", None);
    let plan = plan_of(start_or_resume_thread(request(None), &state));
    let turn = opened(thread_replied(plan, Ok(read_bytes(b"{\"threadId\":\"t1\"}")), &mut state));
    assert_eq!(turn.thread_id, "t1");
    assert!(matches!(start_or_resume_thread(request(None), &state), ThreadStep::Start(_)));
}

#[test]
fn a_thread_that_is_not_named_is_waited_for() {
    let mut state = state("jan", None);
    let plan = plan_of(start_or_resume_thread(request(Some("j")), &state));
    let plan = match thread_replied(plan, Ok(Json::object()), &mut state) {
        ThreadReply::Await(plan) => plan,
        other => panic!("{:?}", other),
    };
    assert_eq!(THREAD_STARTED_TIMEOUT_SECS, 2);
    assert_eq!(state.thread_map.get("j"), None);
    let turn = thread_awaited(plan, Some("t2".to_string()), &mut state).unwrap();
    assert_eq!(turn.thread_id, "t2");
    assert_eq!(state.thread_map.get("j").map(|s| s.as_str()), Some("t2"));
}

#[test]
fn a_thread_that_does_not_come_is_an_error() {
    let mut state = state("jan", None);
    let plan = plan_of(start_or_resume_thread(request(Some("j")), &state));
    let reply = thread_awaited(plan, None, &mut state).unwrap_err();
    assert_eq!(reply.status, 502);
    assert_eq!(reply.body, "{\"error\":{\"message\":\"Codex app server did not return threadId\"}}");
    assert_eq!(state.thread_map.get("j"), None);
}

#[test]
fn failed_calls_are_told() {
    let mut state = state("jan", None);
    let plan = plan_of(start_or_resume_thread(request(Some("j")), &state));
    match thread_replied(plan, Err("no".to_string()), &mut state) {
        ThreadReply::Failed(reply) => assert_eq!(reply.body, "{\"error\":{\"message\":\"no\"}}"),
        other => panic!("{:?}", other),
    }
    let plan = plan_of(start_or_resume_thread(request(Some("j")), &state));
    let turn = OpenTurn { plan, thread_id: "t".to_string() };
    let reply = turn_replied(turn, Err("bad".to_string())).unwrap_err();
    assert_eq!(reply.status, 502);
    assert_eq!(reply.body, "{\"error\":{\"message\":\"bad\"}}");
}

#[test]
fn a_gathered_answer_is_replied_whole() {
    let state = state("jan", None);
    let read = read_bytes(b"{\"stream\":false,\"messages\":[{\"role\":\"user\",\"content\":\"x\"}]}");
    let plan = plan_of(start_or_resume_thread(read_chat_request(&read, None).unwrap(), &state));
    let turn = OpenTurn { plan, thread_id: "t".to_string() };
    let running = turn_replied_at(turn, Ok(read_bytes(b"{\"turnId\":\"u\"}")), 12).unwrap();
    assert!(!running.streaming);
    assert_eq!(running.turn.turn_id.as_deref(), Some("u"));
    let (mut output, completion) = running.gather();
    let delta = read_bytes(
        b"{\"method\":\"item/agentMessage/delta\",\"params\":{\"threadId\":\"t\",\"turnId\":\"u\",\"delta\":\"yes\"}}",
    );
    assert!(!output.receive(&Received::Event(delta)));
    assert!(output.receive(&Received::Closed));
    let reply = completion.reply(output);
    let body = read_bytes(reply.body.as_bytes());
    assert_eq!(body.get_str("id"), Some("chatcmpl-12"));
    assert_eq!(body.get_str("model"), Some("codex-app-server"));
    match body.get("choices") {
        Some(Json::Array(choices)) => {
            assert_eq!(choices[0].get("message").unwrap().get_str("content"), Some("yes"));
        }
        other => panic!("{:?}", other),
    }
}

#[test]
fn a_streamed_answer_is_named_after_its_model() {
    let state = state("jan", Some("c"));
    let plan = plan_of(start_or_resume_thread(request(None), &state));
    let turn = OpenTurn { plan, thread_id: "t".to_string() };
    let running = turn_replied_at(turn, Ok(Json::Null), 3).unwrap();
    let frames = running.stream_as("chatcmpl-x".to_string()).finish();
    let chunk = read_bytes(frames[0].trim_start_matches("data: ").as_bytes());
    assert_eq!(chunk.get_str("id"), Some("chatcmpl-x"));
    assert_eq!(chunk.get_str("model"), Some("c"));
    assert_eq!(chunk.get("created").unwrap().as_u64(), Some(3));
}

#[test]
fn streams_get_ids_and_times_of_their_own() {
    let state = state("jan", None);
    let before = created_now();
    let plan = plan_of(start_or_resume_thread(request(None), &state));
    let turn = OpenTurn { plan, thread_id: "t".to_string() };
    let running = turn_replied(turn, Ok(Json::Null)).unwrap();
    assert!(running.created >= before);
    let frames = running.stream().finish();
    let chunk = read_bytes(frames[0].trim_start_matches("data: ").as_bytes());
    let id = chunk.get_str("id").unwrap();
    assert!(id.starts_with("chatcmpl-"));
    assert_eq!(id.len(), 9 + 36);
}

#[test]
fn the_thread_header_may_be_sent_by_pages() {
    assert_eq!(THREAD_ID_HEADER, "x-jan-thread-id");
    let reply = open_chat(b"", None).unwrap_err();
    let allowed = reply.headers.iter().find(|(name, _)| name == "Access-Control-Allow-Headers").unwrap();
    assert!(allowed.1.split(", ").any(|name| name == THREAD_ID_HEADER));
}

#[test]
fn an_answer_comes_from_the_thread_however_it_was_had() {
    let event = |thread: &str| {
        let params = Json::object().with("threadId", Json::string(thread)).with("delta", Json::string(thread));
        Received::Event(
            Json::object().with("method", Json::string("item/agentMessage/delta")).with("params", params),
        )
    };
    let answer = |turn: OpenTurn| {
        let thread_id = turn.thread_id.clone();
        assert!(matches!(turn.turn_call(), CodexCall::StartTurn { thread_id: named, .. } if named == thread_id));
        let (mut output, _) = turn_replied_at(turn, Ok(Json::Null), 1).unwrap().gather();
        for thread in ["t1", "t2", "t3"] {
            assert!(!output.receive(&event(thread)));
        }
        output.into_output()
    };

    let mut state = state("jan", None);
    let plan = plan_of(start_or_resume_thread(request(Some("a")), &state));
    let replied = opened(thread_replied(plan, Ok(read_bytes(b"{\"threadId\":\"t1\"}")), &mut state));
    assert_eq!(answer(replied), "t1");
    let plan = plan_of(start_or_resume_thread(request(Some("b")), &state));
    let waited = thread_awaited(plan, Some("t2".to_string()), &mut state).unwrap();
    assert_eq!(answer(waited), "t2");
    for (jan, thread) in [("a", "t1"), ("b", "t2")] {
        match start_or_resume_thread(request(Some(jan)), &state) {
            ThreadStep::Resume(turn) => assert_eq!(answer(thread_resumed(turn, Ok(Json::Null))), thread),
            ThreadStep::Start(plan) => panic!("{:?}", plan),
        }
    }
}
