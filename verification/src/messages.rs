//! The messages of the Codex app server's protocol: one JSON object to a line.

use vstd::prelude::*;

use crate::json::{Json, JsonView, NumberView, printable};
use crate::value::{print, printed};

verus! {

/// A request, to which the receiver replies under the same id.
pub open spec fn request_message(id: u64, method: Seq<char>, params: JsonView) -> JsonView {
    JsonView::object().with("id"@, JsonView::integer(id as int)).with("method"@, JsonView::String(method)).with(
        "params"@,
        params,
    )
}

/// A notification, to which there is no reply.
pub open spec fn notification_message(method: Seq<char>, params: Option<JsonView>) -> JsonView {
    let bare = JsonView::object().with("method"@, JsonView::String(method));
    match params {
        Some(p) => bare.with("params"@, p),
        None => bare,
    }
}

/// The reply that carries the result of a request.
pub open spec fn response_message(id: u64, result: JsonView) -> JsonView {
    JsonView::object().with("id"@, JsonView::integer(id as int)).with("result"@, result)
}

/// The reply that carries the error of a request.
pub open spec fn error_message(id: u64, code: int, message: Seq<char>) -> JsonView {
    JsonView::object().with("id"@, JsonView::integer(id as int)).with(
        "error"@,
        JsonView::object().with("code"@, JsonView::integer(code)).with("message"@, JsonView::String(message)),
    )
}

/// The line that carries a message.
pub open spec fn line_of(message: JsonView) -> Seq<char> {
    printed(message) + "\n"@
}

/// Whether a text is one line: it ends in a line break and holds no other.
pub open spec fn single_line(text: Seq<char>) -> bool {
    &&& text.len() > 0
    &&& text.last() == '\n'
    &&& forall|i: int| 0 <= i < text.len() - 1 ==> #[trigger] text[i] != '\n'
}

/// A request.
pub fn send_request(id: u64, method: &str, params: Json) -> (r: Json)
    ensures
        r@ == request_message(id, method@, params@),
        printable(params) ==> printable(r),
{
    Json::object().with("id", Json::unsigned(id)).with("method", Json::string(method)).with("params", params)
}

/// A notification.
pub fn send_notification(method: &str, params: Option<Json>) -> (r: Json)
    ensures
        r@ == notification_message(
            method@,
            match params {
                Some(p) => Some(p@),
                None => None,
            },
        ),
        (params matches Some(p) ==> printable(p)) ==> printable(r),
{
    let payload: Json = Json::object().with("method", Json::string(method));
    match params {
        Some(p) => payload.with("params", p),
        None => payload,
    }
}

/// The reply that carries the result of a request.
pub fn send_response(id: u64, result: Json) -> (r: Json)
    ensures
        r@ == response_message(id, result@),
        printable(result) ==> printable(r),
{
    Json::object().with("id", Json::unsigned(id)).with("result", result)
}

/// The reply that carries the error of a request.
pub fn send_error(id: u64, code: i64, message: &str) -> (r: Json)
    ensures
        r@ == error_message(id, code as int, message@),
        printable(r),
{
    let error: Json = Json::object().with("code", Json::signed(code)).with("message", Json::string(message));
    Json::object().with("id", Json::unsigned(id)).with("error", error)
}

/// The line that carries a message: its JSON text, which holds no line break,
/// and a line break at the end.
pub(crate) fn send_message(payload: &Json) -> (line: String)
    requires
        printable(*payload),
    ensures
        line@ == line_of(payload@),
        single_line(line@),
{
    let text: String = print(payload);
    proof {
        reveal_strlit("\n");
        assert forall|i: int| 0 <= i < text@.len() implies #[trigger] (text@ + "\n"@)[i] != '\n' by {
            assert(text@.contains(text@[i]));
        }
    }
    text.concat("\n")
}

proof fn lemma_names_of_members_differ()
    ensures
        "id"@.len() == 2,
        "method"@.len() == 6 && "method"@[0] == 'm',
        "params"@.len() == 6 && "params"@[0] == 'p',
        "result"@.len() == 6 && "result"@[0] == 'r',
        "error"@.len() == 5,
        "code"@.len() == 4,
        "message"@.len() == 7,
{
    reveal_strlit("id");
    reveal_strlit("method");
    reveal_strlit("params");
    reveal_strlit("result");
    reveal_strlit("error");
    reveal_strlit("code");
    reveal_strlit("message");
}

/// A request carries its id, its method and its parameters as they are, and
/// nothing else.
pub proof fn lemma_what_a_request_carries(id: u64, method: Seq<char>, params: JsonView, key: Seq<char>)
    ensures
        ({
            let message = request_message(id, method, params);
            &&& message.get("id"@) == Some(JsonView::Number(NumberView::Unsigned(id)))
            &&& message.get("method"@) == Some(JsonView::String(method))
            &&& message.get("params"@) == Some(params)
            &&& key != "id"@ && key != "method"@ && key != "params"@ ==> message.get(key) is None
        }),
{
    lemma_names_of_members_differ();
}

/// A notification carries its method, and its parameters where it has any, and
/// no id.
pub proof fn lemma_what_a_notification_carries(method: Seq<char>, params: Option<JsonView>, key: Seq<char>)
    ensures
        ({
            let message = notification_message(method, params);
            &&& message.get("method"@) == Some(JsonView::String(method))
            &&& message.get("params"@) == params
            &&& key != "method"@ && key != "params"@ ==> message.get(key) is None
        }),
{
    lemma_names_of_members_differ();
}

/// A reply carries the id of its request and the result, or the code and the
/// text of the error, as they are, and nothing else.
pub proof fn lemma_what_a_reply_carries(id: u64, result: JsonView, code: int, text: Seq<char>, key: Seq<char>)
    ensures
        ({
            let success = response_message(id, result);
            &&& success.get("id"@) == Some(JsonView::Number(NumberView::Unsigned(id)))
            &&& success.get("result"@) == Some(result)
            &&& key != "id"@ && key != "result"@ ==> success.get(key) is None
        }),
        ({
            let failure = error_message(id, code, text);
            &&& failure.get("id"@) == Some(JsonView::Number(NumberView::Unsigned(id)))
            &&& failure.get("error"@) matches Some(error) && {
                &&& error.get("code"@) == Some(JsonView::integer(code))
                &&& error.get("message"@) == Some(JsonView::String(text))
                &&& key != "code"@ && key != "message"@ ==> error.get(key) is None
            }
            &&& key != "id"@ && key != "error"@ ==> failure.get(key) is None
        }),
{
    lemma_names_of_members_differ();
}

/// A line is the printed message and one line break behind it.
pub proof fn lemma_line_holds_the_message(message: JsonView)
    ensures
        line_of(message).len() == printed(message).len() + 1,
        line_of(message).last() == '\n',
        line_of(message).drop_last() == printed(message),
{
    reveal_strlit("\n");
    assert("\n"@.len() == 1 && "\n"@[0] == '\n');
    assert(line_of(message).drop_last() == printed(message));
}

} // verus!
