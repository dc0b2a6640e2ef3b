use codex_shim::json::Json;
use codex_shim::turn::{
    await_thread_started, completion_body, completion_response, ChunkHead, Received, Turn, TurnOutput, TurnStep,
    TurnStream, WaitStep,
};
use codex_shim::value::read_bytes;

fn event(text: &str) -> Received {
    Received::Event(read_bytes(text.as_bytes()))
}

fn delta(text: &str) -> Received {
    Received::Event(
        Json::object()
            .with("method", Json::string("item/agentMessage/delta"))
            .with("params", Json::object().with("threadId", Json::string("t")).with("delta", Json::string(text))),
    )
}

fn turn() -> Turn {
    Turn { thread_id: "t".to_string(), turn_id: Some("u".to_string()) }
}

fn head() -> ChunkHead {
    ChunkHead { id: "chatcmpl-1".to_string(), created: 5, model: "m".to_string() }
}

fn messages() -> Vec<Received> {
    vec![
        delta("Hel"),
        event("{\"method\":\"item/agentMessage/delta\",\"params\":{\"threadId\":\"other\",\"delta\":\"X\"}}"),
        Received::Lagged,
        delta(""),
        event("{\"method\":\"item/agentMessage/delta\",\"params\":{\"turnId\":\"v\",\"delta\":\"Y\"}}"),
        event("{\"method\":\"turn/completed\",\"params\":{\"threadId\":\"other\"}}"),
        delta("lo"),
        event("{\"method\":\"turn/completed\",\"params\":{\"threadId\":\"t\",\"turn\":{\"id\":\"u\"}}}"),
        delta("!"),
    ]
}

fn gathered(received: &[Received]) -> String {
    let mut output = TurnOutput::new(turn());
    for message in received {
        if output.receive(message) {
            break;
        }
    }
    output.into_output()
}

fn streamed(received: &[Received]) -> Vec<String> {
    let mut stream = TurnStream::new(turn(), head());
    let mut frames = Vec::new();
    for message in received {
        let (more, over) = stream.receive(message);
        frames.extend(more);
        if over {
            break;
        }
    }
    frames.extend(stream.finish());
    frames
}

fn chunk(delta: &str, finish_reason: &str) -> String {
    format!(
        "data: {{\"choices\":[{{\"delta\":{},\"finish_reason\":{},\"index\":0}}],\"created\":5,\"id\":\"chatcmpl-1\",\"model\":\"m\",\"object\":\"chat.completion.chunk\"}}\n\n",
        delta, finish_reason
    )
}

#[test]
fn an_answer_is_gathered_from_its_own_turn() {
    assert_eq!(gathered(&messages()), "Hello");
    assert_eq!(gathered(&[delta("a"), Received::Closed, delta("b")]), "a");
    assert_eq!(gathered(&[]), "");
}

#[test]
fn an_answer_is_streamed_in_frames() {
    assert_eq!(
        streamed(&messages()),
        vec![
            chunk("{\"role\":\"assistant\"}", "null"),
            chunk("{\"content\":\"Hel\"}", "null"),
            chunk("{\"content\":\"lo\"}", "null"),
            chunk("{}", "\"stop\""),
            "data: [DONE]\n\n".to_string(),
        ]
    );
}

#[test]
fn an_empty_answer_still_says_who_speaks() {
    let expected = vec![
        chunk("{\"role\":\"assistant\"}", "null"),
        chunk("{}", "\"stop\""),
        "data: [DONE]\n\n".to_string(),
    ];
    assert_eq!(streamed(&[Received::Closed]), expected);
    assert_eq!(streamed(&[delta(""), Received::Closed]), expected);
}

#[test]
fn a_stream_knows_whether_it_sent_text() {
    let mut stream = TurnStream::new(turn(), head());
    assert!(!stream.sent_any_delta());
    stream.receive(&delta(""));
    assert!(!stream.sent_any_delta());
    stream.receive(&delta("x"));
    assert!(stream.sent_any_delta());
}

#[test]
fn frames_hold_no_line_break_inside() {
    for frame in streamed(&[delta("a\nb\r\n\u{2028}c"), Received::Closed]) {
        assert!(frame.starts_with("data: "));
        assert!(frame.ends_with("\n\n"));
        assert!(!frame[..frame.len() - 2].contains('\n'));
    }
}

#[test]
fn stream_and_gathered_answer_hold_the_same_text() {
    let mut together = String::new();
    for frame in streamed(&messages()) {
        let json = read_bytes(frame.trim_start_matches("data: ").as_bytes());
        if let Some(Json::Array(choices)) = json.get("choices") {
            if let Some(text) = choices[0].get("delta").and_then(|d| d.get_str("content")) {
                together.push_str(text);
            }
        }
    }
    assert_eq!(together, gathered(&messages()));
}

#[test]
fn a_completed_item_repeats_the_text_of_its_deltas() {
    let received = [
        delta("hi"),
        event("{\"method\":\"item/completed\",\"params\":{\"item\":{\"type\":\"agentMessage\",\"text\":\"hi\"}}}"),
        Received::Closed,
    ];
    assert_eq!(gathered(&received), "hihi");
}

#[test]
fn what_messages_mean_for_a_turn() {
    assert!(matches!(turn().step(&Received::Lagged), TurnStep::Pass));
    assert!(matches!(turn().step(&Received::Closed), TurnStep::Over));
    assert!(matches!(turn().step(&event("{\"method\":\"turn/ended\"}")), TurnStep::Over));
    match turn().step(&delta("d")) {
        TurnStep::Delta(text) => assert_eq!(text, "d"),
        other => panic!("{:?}", other),
    }
    let unknown = Turn { thread_id: "t".to_string(), turn_id: None };
    assert!(matches!(unknown.step(&event("{\"method\":\"turn/ended\",\"params\":{\"turnId\":\"z\"}}")), TurnStep::Over));
}

#[test]
fn completions_are_printed() {
    let reply = completion_response(1700000000, "m", "text");
    assert_eq!(reply.status, 200);
    assert_eq!(
        reply.body,
        "{\"choices\":[{\"finish_reason\":\"stop\",\"index\":0,\"message\":{\"content\":\"text\",\"role\":\"assistant\"}}],\
         \"created\":1700000000,\"id\":\"chatcmpl-1700000000\",\"model\":\"m\",\"object\":\"chat.completion\",\
         \"usage\":{\"completion_tokens\":0,\"prompt_tokens\":0,\"total_tokens\":0}}"
    );
    assert_eq!(completion_body(0, "m", "").get_str("id"), Some("chatcmpl-0"));
}

#[test]
fn a_thread_is_waited_for() {
    let started = event("{\"method\":\"thread/started\",\"params\":{\"thread\":{\"id\":\"t1\"}}}");
    match await_thread_started(Some(&started)) {
        WaitStep::Over(Some(id)) => assert_eq!(id, "t1"),
        other => panic!("{:?}", other),
    }
    assert!(matches!(await_thread_started(Some(&delta("x"))), WaitStep::Wait));
    assert!(matches!(await_thread_started(Some(&Received::Lagged)), WaitStep::Wait));
    assert!(matches!(await_thread_started(Some(&Received::Closed)), WaitStep::Over(None)));
    assert!(matches!(await_thread_started(None), WaitStep::Over(None)));
}

fn keys(json: &Json) -> Vec<&str> {
    match json {
        Json::Object(entries) => entries.iter().map(|(key, _)| key.as_str()).collect(),
        other => panic!("{:?}", other),
    }
}

fn only_choice(json: &Json) -> &Json {
    match json.get("choices") {
        Some(Json::Array(choices)) => {
            assert_eq!(choices.len(), 1);
            &choices[0]
        }
        other => panic!("{:?}", other),
    }
}

#[test]
fn no_chunk_calls_a_tool() {
    let role = head().role_chunk();
    assert_eq!(keys(only_choice(&role).get("delta").unwrap()), vec!["role"]);
    assert_eq!(only_choice(&role).get("finish_reason"), Some(&Json::Null));
    let content = head().content_chunk("x");
    assert_eq!(keys(only_choice(&content).get("delta").unwrap()), vec!["content"]);
    assert_eq!(only_choice(&content).get("finish_reason"), Some(&Json::Null));
    let finish = head().finish_chunk();
    assert!(keys(only_choice(&finish).get("delta").unwrap()).is_empty());
    assert_eq!(only_choice(&finish).get_str("finish_reason"), Some("stop"));
    for chunk in [role, content, finish] {
        assert_eq!(keys(only_choice(&chunk)), vec!["index", "delta", "finish_reason"]);
    }
}

#[test]
fn no_stream_calls_a_tool() {
    let received = [
        delta("a"),
        event("{\"method\":\"item/added\",\"params\":{\"item\":{\"type\":\"toolCall\",\"tool_calls\":[1]}}}"),
        delta("b"),
        Received::Closed,
    ];
    for frame in streamed(&received) {
        assert!(!frame.contains("tool_calls"));
    }
}

#[test]
fn no_completion_calls_a_tool() {
    let body = completion_body(1, "m", "x");
    let choice = only_choice(&body);
    assert_eq!(keys(choice.get("message").unwrap()), vec!["role", "content"]);
    assert_eq!(choice.get_str("finish_reason"), Some("stop"));
    assert_eq!(keys(choice), vec!["index", "message", "finish_reason"]);
}
