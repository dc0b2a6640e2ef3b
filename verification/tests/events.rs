use codex_shim::events::{
    event_matches_turn, extract_agent_delta, extract_item_role, extract_item_text, extract_started_thread,
    extract_thread_id, extract_turn_id, extract_user_message, is_assistant_item, is_assistant_role,
    is_turn_completed, normalize_models, parse_id,
};
use codex_shim::json::Json;
use codex_shim::value::read_bytes;

fn json(text: &str) -> Json {
    read_bytes(text.as_bytes())
}

#[test]
fn ids_are_numbers_or_texts_that_write_them() {
    assert_eq!(parse_id(Some(&json("7"))), Some(7));
    assert_eq!(parse_id(Some(&json("\"7\""))), Some(7));
    assert_eq!(parse_id(Some(&json("\"+7\""))), Some(7));
    assert_eq!(parse_id(Some(&json("-7"))), None);
    assert_eq!(parse_id(Some(&json("7.0"))), None);
    assert_eq!(parse_id(Some(&json("\"seven\""))), None);
    assert_eq!(parse_id(Some(&json("null"))), None);
    assert_eq!(parse_id(None), None);
    assert_eq!(parse_id(Some(&json("\"18446744073709551615\""))), Some(u64::MAX));
}

#[test]
fn thread_ids_are_found_in_three_places_in_order() {
    assert_eq!(extract_thread_id(&json("{\"threadId\":\"a\",\"thread_id\":\"b\"}")).as_deref(), Some("a"));
    assert_eq!(extract_thread_id(&json("{\"thread_id\":\"b\",\"thread\":{\"id\":\"c\"}}")).as_deref(), Some("b"));
    assert_eq!(extract_thread_id(&json("{\"threadId\":1,\"thread\":{\"id\":\"c\"}}")).as_deref(), Some("c"));
    assert_eq!(extract_thread_id(&json("{\"thread\":\"c\"}")), None);
    assert_eq!(extract_thread_id(&json("null")), None);
}

#[test]
fn turn_ids_are_found_in_three_places_in_order() {
    assert_eq!(extract_turn_id(&json("{\"turnId\":\"a\",\"turn_id\":\"b\"}")).as_deref(), Some("a"));
    assert_eq!(extract_turn_id(&json("{\"turn_id\":\"b\",\"turn\":{\"id\":\"c\"}}")).as_deref(), Some("b"));
    assert_eq!(extract_turn_id(&json("{\"turn\":{\"id\":\"c\"}}")).as_deref(), Some("c"));
    assert_eq!(extract_turn_id(&json("{\"threadId\":\"a\"}")), None);
}

#[test]
fn events_match_unless_they_name_another_turn() {
    let plain = json("{\"method\":\"x\"}");
    assert!(event_matches_turn(&plain, "t", Some("u")));
    let same = json("{\"params\":{\"threadId\":\"t\",\"turnId\":\"u\"}}");
    assert!(event_matches_turn(&same, "t", Some("u")));
    assert!(event_matches_turn(&same, "t", None));
    assert!(!event_matches_turn(&same, "other", Some("u")));
    assert!(!event_matches_turn(&same, "t", Some("other")));
    let nested = json("{\"params\":{\"thread\":{\"id\":\"t\"},\"turn\":{\"id\":\"v\"}}}");
    assert!(!event_matches_turn(&nested, "t", Some("u")));
    assert!(event_matches_turn(&nested, "t", Some("v")));
    let no_turn = json("{\"params\":{\"thread_id\":\"t\"}}");
    assert!(event_matches_turn(&no_turn, "t", Some("u")));
}

#[test]
fn four_methods_end_a_turn() {
    for method in ["turn/completed", "turn/complete", "turn/ended", "turn/finished"] {
        assert!(is_turn_completed(&Json::object().with("method", Json::string(method))));
    }
    assert!(!is_turn_completed(&json("{\"method\":\"turn/started\"}")));
    assert!(!is_turn_completed(&json("{}")));
}

#[test]
fn a_started_thread_is_announced_with_its_id() {
    let event = json("{\"method\":\"thread/started\",\"params\":{\"thread\":{\"id\":\"t9\"}}}");
    assert_eq!(extract_started_thread(&event).as_deref(), Some("t9"));
    assert_eq!(extract_started_thread(&json("{\"method\":\"thread/started\",\"params\":{\"threadId\":\"t\"}}")), None);
    assert_eq!(
        extract_started_thread(&json("{\"method\":\"thread/ended\",\"params\":{\"thread\":{\"id\":\"t\"}}}")),
        None
    );
}

#[test]
fn the_last_message_of_the_user_counts() {
    let request = json(
        "{\"messages\":[{\"role\":\"user\",\"content\":\"first\"},{\"role\":\"user\",\"content\":\"second\"},\
         {\"role\":\"assistant\",\"content\":\"reply\"}]}",
    );
    assert_eq!(extract_user_message(&request), "second");
}

#[test]
fn text_parts_of_a_message_are_joined() {
    let request = json(
        "{\"messages\":[{\"role\":\"user\",\"content\":[{\"type\":\"text\",\"text\":\"a\"},\
         {\"type\":\"image_url\",\"text\":\"no\"},{\"type\":\"text\"},{\"type\":\"text\",\"text\":\"b\"}]}]}",
    );
    assert_eq!(extract_user_message(&request), "ab");
}

#[test]
fn a_message_without_readable_content_is_passed_over() {
    let request = json(
        "{\"messages\":[{\"role\":\"user\",\"content\":\"old\"},{\"role\":\"user\",\"content\":5},{\"role\":\"user\"}]}",
    );
    assert_eq!(extract_user_message(&request), "old");
    let empty = json("{\"messages\":[{\"role\":\"user\",\"content\":\"old\"},{\"role\":\"user\",\"content\":[]}]}");
    assert_eq!(extract_user_message(&empty), "");
    assert_eq!(extract_user_message(&json("{\"messages\":\"hi\"}")), "");
    assert_eq!(extract_user_message(&json("null")), "");
}

#[test]
fn assistant_roles_in_any_case() {
    for role in ["assistant", "Assistant_Message", "assistantMessage", "AGENT", "agent_message", "agentMessage", "model"] {
        assert!(is_assistant_role(role), "{}", role);
    }
    for role in ["user", "tool", "assistants", ""] {
        assert!(!is_assistant_role(role), "{}", role);
    }
}

#[test]
fn roles_of_items_in_order() {
    let item = json("{\"role\":\"r\",\"kind\":\"k\",\"type\":\"t\"}");
    assert_eq!(extract_item_role(&item), Some("r"));
    assert_eq!(extract_item_role(&json("{\"role\":1,\"kind\":\"k\",\"type\":\"t\"}")), Some("k"));
    assert_eq!(extract_item_role(&json("{\"type\":\"t\",\"author\":{\"role\":\"a\"}}")), Some("t"));
    assert_eq!(extract_item_role(&json("{\"author\":{\"role\":\"a\",\"kind\":\"b\"}}")), Some("a"));
    assert_eq!(extract_item_role(&json("{\"author\":{\"kind\":\"b\",\"type\":\"c\"}}")), Some("b"));
    assert_eq!(extract_item_role(&json("{\"author\":{\"type\":\"c\"},\"sender\":\"s\"}")), Some("c"));
    assert_eq!(extract_item_role(&json("{\"author\":{},\"sender\":\"s\"}")), Some("s"));
    assert_eq!(extract_item_role(&json("{}")), None);
    assert!(is_assistant_item(&json("{\"author\":{\"role\":\"Agent\"}}")));
    assert!(!is_assistant_item(&json("{\"sender\":\"user\"}")));
    assert!(!is_assistant_item(&json("{}")));
}

#[test]
fn texts_of_items() {
    assert_eq!(extract_item_text(&json("{\"text\":\"a\",\"content\":\"b\"}")).as_deref(), Some("a"));
    assert_eq!(extract_item_text(&json("{\"content\":\"b\"}")).as_deref(), Some("b"));
    assert_eq!(extract_item_text(&json("{\"content\":\"\"}")).as_deref(), Some(""));
    assert_eq!(
        extract_item_text(&json("{\"content\":[{\"type\":\"text\",\"text\":\"x\"},{\"type\":\"text\",\"text\":\"y\"}]}"))
            .as_deref(),
        Some("xy")
    );
    assert_eq!(extract_item_text(&json("{\"content\":[{\"type\":\"image\"}]}")), None);
    assert_eq!(extract_item_text(&json("{}")), None);
}

#[test]
fn deltas_of_events() {
    let delta = json("{\"method\":\"item/agentMessage/delta\",\"params\":{\"delta\":\"a\",\"item\":{\"delta\":\"b\"}}}");
    assert_eq!(extract_agent_delta(&delta).as_deref(), Some("a"));
    let nested = json("{\"method\":\"item/assistantMessage/delta\",\"params\":{\"item\":{\"delta\":\"b\"}}}");
    assert_eq!(extract_agent_delta(&nested).as_deref(), Some("b"));
    let added = json("{\"method\":\"item/agentMessage/added\",\"params\":{\"item\":{\"text\":\"c\"}}}");
    assert_eq!(extract_agent_delta(&added).as_deref(), Some("c"));
    let message = json("{\"method\":\"item/assistantMessage/added\",\"params\":{\"message\":{\"content\":\"d\"}}}");
    assert_eq!(extract_agent_delta(&message).as_deref(), Some("d"));
    let completed =
        json("{\"method\":\"item/completed\",\"params\":{\"item\":{\"type\":\"agentMessage\",\"text\":\"e\"}}}");
    assert_eq!(extract_agent_delta(&completed).as_deref(), Some("e"));
    let user = json("{\"method\":\"item/added\",\"params\":{\"item\":{\"type\":\"userMessage\",\"text\":\"f\"}}}");
    assert_eq!(extract_agent_delta(&user), None);
    let textless = json("{\"method\":\"item/added\",\"params\":{\"item\":{\"role\":\"assistant\"}}}");
    assert_eq!(extract_agent_delta(&textless), None);
    assert_eq!(extract_agent_delta(&json("{\"method\":\"item/agentMessage/delta\"}")), None);
    assert_eq!(extract_agent_delta(&json("{\"method\":\"turn/started\",\"params\":{\"delta\":\"x\"}}")), None);
    assert_eq!(extract_agent_delta(&json("{\"params\":{\"delta\":\"x\"}}")), None);
}

#[test]
fn models_are_listed_from_three_places() {
    assert_eq!(normalize_models(&json("{\"models\":[\"a\"],\"data\":[\"b\"]}")), vec!["a"]);
    assert_eq!(normalize_models(&json("{\"data\":[\"b\"]}")), vec!["b"]);
    assert_eq!(normalize_models(&json("[\"c\"]")), vec!["c"]);
    assert_eq!(normalize_models(&json("{\"models\":\"a\",\"data\":[\"b\"]}")), Vec::<String>::new());
    assert_eq!(
        normalize_models(&json(
            "{\"data\":[{\"id\":\"i\",\"model\":\"m\"},{\"model\":\"m\",\"name\":\"n\"},{\"name\":\"n\"},{},5,\"s\"]}"
        )),
        vec!["i", "m", "n", "s"]
    );
}
