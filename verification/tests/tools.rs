use codex_shim::config::CodexShimConfig;
use codex_shim::json::Json;
use codex_shim::rpc::server_request_reply;
use codex_shim::tools::{approval_policy, choose_user_input_option, handle_server_request, tool_decision};
use codex_shim::value::read_bytes;

fn options(text: &str) -> Json {
    read_bytes(text.as_bytes())
}

#[test]
fn the_tool_mode_decides() {
    assert_eq!(tool_decision("codex"), "accept");
    assert_eq!(tool_decision("jan"), "decline");
    assert_eq!(tool_decision("Codex"), "decline");
    assert_eq!(tool_decision(""), "decline");
}

#[test]
fn the_policy_goes_with_the_decision() {
    for mode in ["codex", "jan", "", "CODEX"] {
        assert_eq!(approval_policy(mode) == "never", tool_decision(mode) == "accept");
        assert_eq!(approval_policy(mode) == "on-request", tool_decision(mode) == "decline");
    }
}

#[test]
fn the_option_with_the_wanted_label_is_chosen() {
    let params = options(
        "{\"options\":[{\"label\":\"Decline\",\"value\":\"no\"},{\"label\":\"ACCEPT\",\"value\":\"yes\"},\
         {\"label\":\"accept\",\"value\":\"later\"}]}",
    );
    assert_eq!(choose_user_input_option(Some(&params), "codex"), "yes");
    assert_eq!(choose_user_input_option(Some(&params), "jan"), "no");
}

#[test]
fn a_chosen_option_without_a_value_answers_with_its_label() {
    let params = options("{\"options\":[{\"value\":\"v\"},{\"label\":\"Accept\",\"value\":3}]}");
    assert_eq!(choose_user_input_option(Some(&params), "codex"), "Accept");
}

#[test]
fn the_first_option_stands_in() {
    let params = options("{\"options\":[{\"label\":\"Maybe\"},{\"label\":\"Never\",\"value\":\"n\"}]}");
    assert_eq!(choose_user_input_option(Some(&params), "codex"), "Maybe");
    let valued = options("{\"options\":[{\"label\":\"Maybe\",\"value\":\"m\"}]}");
    assert_eq!(choose_user_input_option(Some(&valued), "jan"), "m");
}

#[test]
fn without_options_the_decision_is_the_answer() {
    assert_eq!(choose_user_input_option(None, "codex"), "accept");
    assert_eq!(choose_user_input_option(Some(&options("{}")), "jan"), "decline");
    assert_eq!(choose_user_input_option(Some(&options("{\"options\":[]}")), "codex"), "accept");
    assert_eq!(choose_user_input_option(Some(&options("{\"options\":[{}]}")), "jan"), "decline");
    assert_eq!(choose_user_input_option(Some(&options("{\"options\":5}")), "jan"), "decline");
}

#[test]
fn approvals_are_replied_to() {
    let message = Json::object();
    let accepted = handle_server_request(4, "execCommand/requestApproval", &message, "codex");
    assert_eq!(accepted.get("id").unwrap().as_u64(), Some(4));
    assert_eq!(accepted.get("result").unwrap().get_str("decision"), Some("accept"));
    let declined = handle_server_request(5, "/requestApproval", &message, "jan");
    assert_eq!(declined.get("result").unwrap().get_str("decision"), Some("decline"));
}

#[test]
fn replies_are_printed_as_lines() {
    let message = options("{\"params\":{\"options\":[{\"label\":\"accept\",\"value\":\"a\\nb\"}]}}");
    assert_eq!(
        server_request_reply(9, "tool/requestUserInput", &message, "codex"),
        "{\"id\":9,\"result\":{\"choice\":\"a\\nb\"}}\n"
    );
    assert_eq!(
        server_request_reply(1, "item/requestApproval", &message, "jan"),
        "{\"id\":1,\"result\":{\"decision\":\"decline\"}}\n"
    );
}

#[test]
fn unknown_requests_are_refused() {
    for mode in ["codex", "jan"] {
        assert_eq!(
            server_request_reply(2, "tool/other", &Json::Null, mode),
            "{\"error\":{\"code\":-32601,\"message\":\"Codex request not supported by Jan\"},\"id\":2}\n"
        );
    }
}

#[test]
fn tools_are_jans_by_default() {
    let unset = CodexShimConfig::default();
    assert_eq!(tool_decision(&unset.tool_mode), "decline");
    assert_eq!(approval_policy(&unset.tool_mode), "on-request");
}

#[test]
fn an_acceptance_does_not_stand_in_where_tools_are_jans() {
    for text in [
        "{\"options\":[{\"label\":\"Accept\",\"value\":\"accept\"}]}",
        "{\"options\":[{\"label\":\"ACCEPT\",\"value\":\"yes\"}]}",
        "{\"options\":[{\"label\":\"Go on\",\"value\":\"Accept\"},{\"label\":\"Stop\",\"value\":\"s\"}]}",
        "{\"options\":[{\"label\":\"accept\"}]}",
        "{\"options\":[{\"value\":\"accept\"}]}",
    ] {
        assert_eq!(choose_user_input_option(Some(&options(text)), "jan"), "decline", "{}", text);
        assert_eq!(choose_user_input_option(Some(&options(text)), ""), "decline", "{}", text);
    }
    let only = options("{\"options\":[{\"label\":\"Accept\",\"value\":\"accept\"}]}");
    assert_eq!(choose_user_input_option(Some(&only), "codex"), "accept");
    let valued = options("{\"options\":[{\"label\":\"Go on\",\"value\":\"Accept\"}]}");
    assert_eq!(choose_user_input_option(Some(&valued), "codex"), "Accept");
}

#[test]
fn a_refused_acceptance_is_printed_as_a_refusal() {
    let message = options("{\"params\":{\"options\":[{\"label\":\"Accept\",\"value\":\"accept\"}]}}");
    assert_eq!(
        server_request_reply(6, "tool/requestUserInput", &message, "jan"),
        "{\"id\":6,\"result\":{\"choice\":\"decline\"}}\n"
    );
}
