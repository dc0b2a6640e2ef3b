//! The tool mode: who runs tools, and how the app server's questions about them
//! are answered.

use vstd::prelude::*;

use crate::config::ConfigView;
use crate::events::{or_else, same_ignoring_case};
use crate::json::{Json, JsonView, items_view, lemma_items_view, printable};
use crate::messages::{error_message, response_message, send_error, send_response};
use crate::text::{ascii_lowercase, ends_with, eq_ignore_ascii_case, has_suffix, same_text};

verus! {

/// Whether a tool mode leaves the tools to Codex. Every other mode leaves them
/// to Jan.
pub open spec fn codex_mode(tool_mode: Seq<char>) -> bool {
    tool_mode == "codex"@
}

fn is_codex_mode(tool_mode: &str) -> (r: bool)
    ensures
        r == codex_mode(tool_mode@),
{
    same_text(tool_mode, "codex")
}

/// How a request to run a tool is decided.
pub open spec fn decision(tool_mode: Seq<char>) -> Seq<char> {
    if codex_mode(tool_mode) {
        "accept"@
    } else {
        "decline"@
    }
}

/// How a request to run a tool is decided: accepted where the tools are Codex's,
/// declined where they are Jan's.
pub fn tool_decision(tool_mode: &str) -> (r: &'static str)
    ensures
        r@ == decision(tool_mode@),
{
    if is_codex_mode(tool_mode) {
        "accept"
    } else {
        "decline"
    }
}

/// The approval policy that threads and turns are started with.
pub open spec fn policy(tool_mode: Seq<char>) -> Seq<char> {
    if codex_mode(tool_mode) {
        "never"@
    } else {
        "on-request"@
    }
}

/// The approval policy that threads and turns are started with: Codex never
/// asks where the tools are its own, and asks where they are Jan's.
pub fn approval_policy(tool_mode: &str) -> (r: &'static str)
    ensures
        r@ == policy(tool_mode@),
{
    if is_codex_mode(tool_mode) {
        "never"
    } else {
        "on-request"
    }
}

/// Tools are run on one side only: the policy under which Codex runs its tools
/// unasked goes with the mode in which a request to run one is accepted, and in
/// every other mode Codex has to ask, and its request to run one is declined.
pub proof fn lemma_tools_run_on_one_side(tool_mode: Seq<char>)
    ensures
        policy(tool_mode) == "never"@ <==> decision(tool_mode) == "accept"@,
        policy(tool_mode) == "on-request"@ <==> decision(tool_mode) == "decline"@,
        policy(tool_mode) == "never"@ <==> policy(tool_mode) != "on-request"@,
        decision(tool_mode) == "accept"@ <==> decision(tool_mode) != "decline"@,
{
    reveal_strlit("never");
    reveal_strlit("on-request");
    reveal_strlit("accept");
    reveal_strlit("decline");
    assert("never"@.len() != "on-request"@.len());
    assert("accept"@.len() != "decline"@.len());
}

/// The answer that picks an option: its value, or else its label.
pub open spec fn option_answer(option: JsonView) -> Option<Seq<char>> {
    or_else(option.get_str("value"@), option.get_str("label"@))
}

/// Whether an option carries a label, in any case.
pub open spec fn labelled(option: JsonView, label: Seq<char>) -> bool {
    match option.get_str("label"@) {
        Some(own) => same_ignoring_case(own, label),
        None => false,
    }
}

/// The first option that carries a label, counted from `from`.
pub open spec fn first_labelled(options: Seq<JsonView>, label: Seq<char>, from: int) -> Option<JsonView>
    decreases options.len() - from,
{
    if from < 0 || from >= options.len() {
        None
    } else if labelled(options[from], label) {
        Some(options[from])
    } else {
        first_labelled(options, label, from + 1)
    }
}

/// Whether to pick an option is to accept: its label or its answer says so, in
/// any case.
pub open spec fn accepts(option: JsonView) -> bool {
    ||| labelled(option, "accept"@)
    ||| option_answer(option) is Some && same_ignoring_case(option_answer(option)->0, "accept"@)
}

/// The option that stands in where none carries the wanted label: the first,
/// unless to pick it is to accept what is not to be accepted.
pub open spec fn stand_in(options: Seq<JsonView>, wanted: Seq<char>) -> Option<JsonView> {
    if options.len() > 0 && (wanted == "accept"@ || !accepts(options[0])) {
        Some(options[0])
    } else {
        None
    }
}

/// The options that a question offers.
pub open spec fn offered(params: Option<JsonView>) -> Seq<JsonView> {
    match params {
        Some(p) => match p.get("options"@) {
            Some(JsonView::Array(options)) => options,
            _ => Seq::empty(),
        },
        None => Seq::empty(),
    }
}

/// The answer to a question with options: the first option labelled with the
/// wanted decision, or else the option that stands in, or else the decision as
/// it is.
pub open spec fn chosen_option(params: Option<JsonView>, wanted: Seq<char>) -> Seq<char> {
    let options = offered(params);
    match or_else(first_labelled(options, wanted, 0), stand_in(options, wanted)) {
        Some(option) => option_answer(option).unwrap_or(wanted),
        None => wanted,
    }
}

fn get_option_answer<'a>(option: &'a Json) -> (r: Option<&'a str>)
    ensures
        match r {
            Some(answer) => option_answer(option@) == Some(answer@),
            None => option_answer(option@) is None,
        },
{
    match option.get_str("value") {
        Some(value) => Some(value),
        None => option.get_str("label"),
    }
}

fn is_accepting(option: &Json) -> (r: bool)
    ensures
        r == accepts(option@),
{
    if let Some(label) = option.get_str("label") {
        if eq_ignore_ascii_case(label, "accept") {
            return true;
        }
    }
    match get_option_answer(option) {
        Some(answer) => eq_ignore_ascii_case(answer, "accept"),
        None => false,
    }
}

/// The answer to a question that the app server puts to the user. Where the
/// tools are Jan's, an option that accepts does not stand in for one that
/// declines.
pub fn choose_user_input_option(params: Option<&Json>, tool_mode: &str) -> (r: String)
    ensures
        r@ == chosen_option(
            match params {
                Some(p) => Some(p@),
                None => None,
            },
            decision(tool_mode@),
        ),
{
    let target: &'static str = tool_decision(tool_mode);
    if let Some(p) = params {
        if let Some(Json::Array(options)) = p.get("options") {
            let ghost views = items_view(options@);
            proof {
                lemma_items_view(options@);
            }
            let mut i: usize = 0;
            while i < options.len()
                invariant
                    i <= options@.len(),
                    params == Some(p),
                    p@.get("options"@) == Some(JsonView::Array(views)),
                    views.len() == options@.len(),
                    forall|k: int| 0 <= k < options@.len() ==> #[trigger] views[k] == options@[k]@,
                    target@ == decision(tool_mode@),
                    first_labelled(views, target@, 0) == first_labelled(views, target@, i as int),
                decreases options@.len() - i,
            {
                let option: &Json = &options[i];
                assert(views[i as int] == option@);
                if let Some(label) = option.get_str("label") {
                    if eq_ignore_ascii_case(label, target) {
                        if let Some(value) = option.get_str("value") {
                            return value.to_string();
                        }
                        return label.to_string();
                    }
                }
                i = i + 1;
            }
            if options.len() > 0 && (same_text(target, "accept") || !is_accepting(&options[0])) {
                if let Some(answer) = get_option_answer(&options[0]) {
                    return answer.to_string();
                }
            }
        }
    }
    target.to_string()
}

/// Where no option carries a label, none is the first to carry it.
proof fn lemma_none_labelled(options: Seq<JsonView>, label: Seq<char>, from: int)
    requires
        forall|i: int| 0 <= i < options.len() ==> !labelled(#[trigger] options[i], label),
    ensures
        first_labelled(options, label, from) is None,
    decreases options.len() - from,
{
    if 0 <= from < options.len() {
        assert(!labelled(options[from], label));
        lemma_none_labelled(options, label, from + 1);
    }
}

/// Where the tools are Jan's, a question that offers no option to decline is
/// not answered with an acceptance, whatever it offers instead.
pub proof fn lemma_questions_do_not_let_tools_run(params: Option<JsonView>, tool_mode: Seq<char>)
    requires
        !codex_mode(tool_mode),
        forall|i: int| 0 <= i < offered(params).len() ==> !labelled(#[trigger] offered(params)[i], "decline"@),
    ensures
        !same_ignoring_case(chosen_option(params, decision(tool_mode)), "accept"@),
{
    reveal_strlit("accept");
    reveal_strlit("decline");
    assert("accept"@.len() != "decline"@.len());
    assert(ascii_lowercase("accept"@).len() != ascii_lowercase("decline"@).len());
    lemma_none_labelled(offered(params), "decline"@, 0);
}

/// The reply to a request of the app server. A request for approval gets the
/// decision of the tool mode, a question to the user gets the option that goes
/// with that decision, and any other request is refused as an unknown method.
pub open spec fn server_reply(id: u64, method: Seq<char>, message: JsonView, tool_mode: Seq<char>) -> JsonView {
    if has_suffix(method, "/requestApproval"@) {
        response_message(
            id,
            JsonView::object().with("decision"@, JsonView::String(decision(tool_mode))),
        )
    } else if method == "tool/requestUserInput"@ {
        response_message(
            id,
            JsonView::object().with(
                "choice"@,
                JsonView::String(chosen_option(message.get("params"@), decision(tool_mode))),
            ),
        )
    } else {
        error_message(id, -32601, "Codex request not supported by Jan"@)
    }
}

/// The reply to a request of the app server.
pub fn handle_server_request(id: u64, method: &str, message: &Json, tool_mode: &str) -> (r: Json)
    ensures
        r@ == server_reply(id, method@, message@, tool_mode@),
        printable(r),
{
    if ends_with(method, "/requestApproval") {
        let result: Json = Json::object().with("decision", Json::string(tool_decision(tool_mode)));
        return send_response(id, result);
    }
    if same_text(method, "tool/requestUserInput") {
        let choice: String = choose_user_input_option(message.get("params"), tool_mode);
        return send_response(id, Json::object().with("choice", Json::String(choice)));
    }
    send_error(id, -32601, "Codex request not supported by Jan")
}

/// A request for approval is answered by the tool mode alone: accepted where
/// the tools are Codex's, and declined where they are Jan's, whatever is to be
/// approved.
pub proof fn lemma_approval_follows_the_mode(id: u64, method: Seq<char>, message: JsonView, tool_mode: Seq<char>)
    requires
        has_suffix(method, "/requestApproval"@),
    ensures
        ({
            let answer = if codex_mode(tool_mode) {
                "accept"@
            } else {
                "decline"@
            };
            server_reply(id, method, message, tool_mode) == response_message(
                id,
                JsonView::object().with("decision"@, JsonView::String(answer)),
            )
        }),
{
}

/// A request that the shim does not know is refused in every tool mode.
pub proof fn lemma_unknown_request_is_refused(id: u64, method: Seq<char>, message: JsonView, tool_mode: Seq<char>)
    requires
        !has_suffix(method, "/requestApproval"@),
        method != "tool/requestUserInput"@,
    ensures
        server_reply(id, method, message, tool_mode) == error_message(
            id,
            -32601,
            "Codex request not supported by Jan"@,
        ),
{
}

/// Before any settings are made the tools are Jan's: Codex has to ask and is
/// declined.
pub proof fn lemma_tools_are_jans_by_default()
    ensures
        !codex_mode(ConfigView::unset().tool_mode),
        policy(ConfigView::unset().tool_mode) == "on-request"@,
        decision(ConfigView::unset().tool_mode) == "decline"@,
{
    reveal_strlit("codex");
    assert("codex"@.len() == 5);
}

/// Requests are accepted, and Codex asks nobody, in the mode `codex` and in no
/// other.
pub proof fn lemma_only_one_mode_accepts(tool_mode: Seq<char>)
    ensures
        tool_mode == "codex"@ ==> decision(tool_mode) == "accept"@ && policy(tool_mode) == "never"@,
        tool_mode != "codex"@ ==> decision(tool_mode) == "decline"@ && policy(tool_mode) == "on-request"@,
{
}

proof fn lemma_first_labelled_is_first(options: Seq<JsonView>, label: Seq<char>, from: int, i: int)
    requires
        0 <= from <= i < options.len(),
        labelled(options[i], label),
        forall|j: int| from <= j < i ==> !labelled(#[trigger] options[j], label),
    ensures
        first_labelled(options, label, from) == Some(options[i]),
    decreases i - from,
{
    if from < i {
        assert(!labelled(options[from], label));
        lemma_first_labelled_is_first(options, label, from + 1, i);
    }
}

proof fn lemma_labels_in_lower_case()
    ensures
        ascii_lowercase("accept"@) == "accept"@,
        ascii_lowercase("decline"@) == "decline"@,
        "accept"@ != "decline"@,
{
    reveal_strlit("accept");
    reveal_strlit("decline");
    assert(ascii_lowercase("accept"@) =~= "accept"@);
    assert(ascii_lowercase("decline"@) =~= "decline"@);
    assert("accept"@.len() != "decline"@.len());
}

/// A question that offers the wanted decision is answered with it: with the
/// value of the first option that is labelled so, in any case, or with its label
/// where it has no value, whatever the other options are. Wanted is `accept` in
/// the mode `codex` and `decline` in every other.
pub proof fn lemma_offered_decision_is_taken(
    params: JsonView,
    options: Seq<JsonView>,
    i: int,
    label: Seq<char>,
    value: Seq<char>,
    wanted: Seq<char>,
    tool_mode: Seq<char>,
)
    requires
        params.get("options"@) == Some(JsonView::Array(options)),
        wanted == (if tool_mode == "codex"@ {
            "accept"@
        } else {
            "decline"@
        }),
        0 <= i < options.len(),
        options[i].get("label"@) == Some(JsonView::String(label)),
        ascii_lowercase(label) == wanted,
        forall|j: int|
            0 <= j < i ==> !((#[trigger] options[j]).get_str("label"@) matches Some(other) && ascii_lowercase(other)
                == wanted),
    ensures
        options[i].get("value"@) == Some(JsonView::String(value)) ==> chosen_option(
            Some(params),
            decision(tool_mode),
        ) == value,
        options[i].get_str("value"@) is None ==> chosen_option(Some(params), decision(tool_mode)) == label,
{
    lemma_labels_in_lower_case();
    lemma_only_one_mode_accepts(tool_mode);
    assert(labelled(options[i], wanted));
    assert forall|j: int| 0 <= j < i implies !labelled(#[trigger] options[j], wanted) by {}
    lemma_first_labelled_is_first(options, wanted, 0, i);
}

/// A question that does not offer the wanted decision is answered with its first
/// option in the mode `codex`: with its value, or else with its label; and in
/// every other mode so too, unless the first option is labelled `accept` or would
/// be answered with that, in any case: it is declined then. A question without
/// options, or whose first option says nothing, is answered with the wanted
/// decision.
pub proof fn lemma_first_option_stands_in(
    params: JsonView,
    options: Seq<JsonView>,
    answer: Seq<char>,
    wanted: Seq<char>,
    tool_mode: Seq<char>,
)
    requires
        params.get("options"@) == Some(JsonView::Array(options)),
        wanted == (if tool_mode == "codex"@ {
            "accept"@
        } else {
            "decline"@
        }),
        forall|j: int|
            0 <= j < options.len() ==> !((#[trigger] options[j]).get_str("label"@) matches Some(other) && ascii_lowercase(other)
                == wanted),
    ensures
        ({
            let chosen = chosen_option(Some(params), decision(tool_mode));
            &&& options.len() == 0 ==> chosen == wanted
            &&& options.len() > 0 ==> {
                let first = options[0];
                let says = first.get("value"@) == Some(JsonView::String(answer)) || first.get_str("value"@) is None
                    && first.get("label"@) == Some(JsonView::String(answer));
                let label_accepts = first.get_str("label"@) is Some && ascii_lowercase(
                    first.get_str("label"@)->0,
                ) == "accept"@;
                &&& says && tool_mode == "codex"@ ==> chosen == answer
                &&& says && tool_mode != "codex"@ && !label_accepts && ascii_lowercase(answer) != "accept"@ ==> chosen
                    == answer
                &&& says && tool_mode != "codex"@ && (label_accepts || ascii_lowercase(answer) == "accept"@)
                    ==> chosen == "decline"@
                &&& first.get_str("value"@) is None && first.get_str("label"@) is None ==> chosen == wanted
            }
        }),
{
    lemma_labels_in_lower_case();
    lemma_only_one_mode_accepts(tool_mode);
    assert forall|j: int| 0 <= j < options.len() implies !labelled(#[trigger] options[j], wanted) by {}
    lemma_none_labelled(options, wanted, 0);
}

/// What is no question with a list of options is answered with the wanted
/// decision.
pub proof fn lemma_without_options_the_decision_answers(params: JsonView, tool_mode: Seq<char>)
    ensures
        chosen_option(None, decision(tool_mode)) == decision(tool_mode),
        !(params.get("options"@) is Some && params.get("options"@)->0 is Array) ==> chosen_option(
            Some(params),
            decision(tool_mode),
        ) == decision(tool_mode),
{
}

/// A question to the user is answered under the id that it came with, with the
/// option that is chosen.
pub proof fn lemma_questions_are_answered(id: u64, message: JsonView, tool_mode: Seq<char>)
    ensures
        server_reply(id, "tool/requestUserInput"@, message, tool_mode) == response_message(
            id,
            JsonView::object().with(
                "choice"@,
                JsonView::String(chosen_option(message.get("params"@), decision(tool_mode))),
            ),
        ),
{
    reveal_strlit("tool/requestUserInput");
    reveal_strlit("/requestApproval");
    let method = "tool/requestUserInput"@;
    assert(method[method.len() - 1] == 't' && "/requestApproval"@[15] == 'l');
    if has_suffix(method, "/requestApproval"@) {
        assert(method.skip(method.len() - 16)[15] == method[method.len() - 1]);
    }
}

} // verus!
