//! What the shim reads out of the messages of the Codex app server.

use vstd::prelude::*;

use crate::json::{Json, JsonView, items_view, lemma_items_view};
use crate::text::{
    ascii_lowercase, decimal, eq_ignore_ascii_case, lemma_decimal_is_read_back, parse_u64, same_text, unsigned_number,
};

verus! {

/// The first of two, where there is one, else the second.
pub open spec fn or_else<T>(first: Option<T>, second: Option<T>) -> Option<T> {
    if first is Some {
        first
    } else {
        second
    }
}

/// The text of the member `inner` of the member `outer`.
pub open spec fn nested_str(json: JsonView, outer: Seq<char>, inner: Seq<char>) -> Option<Seq<char>> {
    match json.get(outer) {
        Some(member) => member.get_str(inner),
        None => None,
    }
}

fn get_nested_str<'a>(json: &'a Json, outer: &str, inner: &str) -> (r: Option<&'a str>)
    ensures
        match r {
            Some(text) => nested_str(json@, outer@, inner@) == Some(text@),
            None => nested_str(json@, outer@, inner@) is None,
        },
{
    match json.get(outer) {
        Some(member) => member.get_str(inner),
        None => None,
    }
}

/// The owned copy of a text that may be absent.
fn owned(text: Option<&str>) -> (r: Option<String>)
    ensures
        match text {
            Some(t) => r.deep_view() == Some(t@),
            None => r is None,
        },
{
    match text {
        Some(t) => Some(t.to_string()),
        None => None,
    }
}

/// The id that the member `id` of a message writes: an unsigned integer, or a
/// string that writes one in decimal.
pub open spec fn message_id(value: Option<JsonView>) -> Option<u64> {
    match value {
        Some(JsonView::Number(_)) => value->0.as_u64(),
        Some(JsonView::String(text)) => unsigned_number(text),
        _ => None,
    }
}

/// Reads the id of a message.
pub fn parse_id(value: Option<&Json>) -> (r: Option<u64>)
    ensures
        r == message_id(
            match value {
                Some(v) => Some(v@),
                None => None,
            },
        ),
{
    match value {
        Some(Json::Number(_)) => value.unwrap().as_u64(),
        Some(Json::String(text)) => parse_u64(text.as_str()),
        _ => None,
    }
}

/// The id of a request is understood in a reply whether it comes back as the
/// number that was sent or as a text that writes it.
pub proof fn lemma_id_comes_back_as_number_or_text(id: u64)
    ensures
        message_id(Some(JsonView::integer(id as int))) == Some(id),
        message_id(Some(JsonView::String(decimal(id as nat)))) == Some(id),
{
    lemma_decimal_is_read_back(id);
}

/// The id that an object gives under a name in camel case, under the same name
/// in snake case, or as the id of a nested object; in this order.
pub open spec fn reference_id(
    json: JsonView,
    camel: Seq<char>,
    snake: Seq<char>,
    object: Seq<char>,
) -> Option<Seq<char>> {
    or_else(json.get_str(camel), or_else(json.get_str(snake), nested_str(json, object, "id"@)))
}

fn get_reference_id<'a>(json: &'a Json, camel: &str, snake: &str, object: &str) -> (r: Option<&'a str>)
    ensures
        match r {
            Some(id) => reference_id(json@, camel@, snake@, object@) == Some(id@),
            None => reference_id(json@, camel@, snake@, object@) is None,
        },
{
    if let Some(id) = json.get_str(camel) {
        return Some(id);
    }
    if let Some(id) = json.get_str(snake) {
        return Some(id);
    }
    get_nested_str(json, object, "id")
}

/// The id of the thread that a result or an event names.
pub open spec fn thread_id_of(json: JsonView) -> Option<Seq<char>> {
    reference_id(json, "threadId"@, "thread_id"@, "thread"@)
}

/// The id of the turn that a result or an event names.
pub open spec fn turn_id_of(json: JsonView) -> Option<Seq<char>> {
    reference_id(json, "turnId"@, "turn_id"@, "turn"@)
}

/// The id of the thread that a result names.
pub fn extract_thread_id(result: &Json) -> (r: Option<String>)
    ensures
        r.deep_view() == thread_id_of(result@),
{
    owned(get_reference_id(result, "threadId", "thread_id", "thread"))
}

/// The id of the turn that a result names.
pub fn extract_turn_id(result: &Json) -> (r: Option<String>)
    ensures
        r.deep_view() == turn_id_of(result@),
{
    owned(get_reference_id(result, "turnId", "turn_id", "turn"))
}

/// Whether an event may belong to a turn of a thread: it names no other thread
/// and, where the turn is known, no other turn.
pub open spec fn matches_turn(event: JsonView, thread_id: Seq<char>, turn_id: Option<Seq<char>>) -> bool {
    match event.get("params"@) {
        None => true,
        Some(params) => {
            &&& thread_id_of(params) is Some ==> thread_id_of(params) == Some(thread_id)
            &&& turn_id is Some && turn_id_of(params) is Some ==> turn_id_of(params) == turn_id
        },
    }
}

/// Whether an event may belong to a turn of a thread.
pub fn event_matches_turn(event: &Json, thread_id: &str, turn_id: Option<&str>) -> (r: bool)
    ensures
        r == matches_turn(
            event@,
            thread_id@,
            match turn_id {
                Some(id) => Some(id@),
                None => None,
            },
        ),
{
    let params: &Json = match event.get("params") {
        Some(params) => params,
        None => {
            return true;
        },
    };
    if let Some(event_thread_id) = get_reference_id(params, "threadId", "thread_id", "thread") {
        if !same_text(event_thread_id, thread_id) {
            return false;
        }
    }
    if let Some(turn_id) = turn_id {
        if let Some(event_turn_id) = get_reference_id(params, "turnId", "turn_id", "turn") {
            return same_text(event_turn_id, turn_id);
        }
    }
    true
}

/// Whether an event says that its turn is over.
pub open spec fn turn_completed(event: JsonView) -> bool {
    let method = event.get_str("method"@);
    ||| method == Some("turn/completed"@)
    ||| method == Some("turn/complete"@)
    ||| method == Some("turn/ended"@)
    ||| method == Some("turn/finished"@)
}

/// Whether an event says that its turn is over.
pub fn is_turn_completed(event: &Json) -> (r: bool)
    ensures
        r == turn_completed(event@),
{
    match event.get_str("method") {
        Some(method) => same_text(method, "turn/completed") || same_text(method, "turn/complete")
            || same_text(method, "turn/ended") || same_text(method, "turn/finished"),
        None => false,
    }
}

/// The id of the thread that an event announces as started.
pub open spec fn started_thread(event: JsonView) -> Option<Seq<char>> {
    if event.get_str("method"@) == Some("thread/started"@) {
        match event.get("params"@) {
            Some(params) => nested_str(params, "thread"@, "id"@),
            None => None,
        }
    } else {
        None
    }
}

/// The id of the thread that an event announces as started.
pub fn extract_started_thread(event: &Json) -> (r: Option<String>)
    ensures
        r.deep_view() == started_thread(event@),
{
    match event.get_str("method") {
        Some(method) => {
            if !same_text(method, "thread/started") {
                return None;
            }
        },
        None => {
            return None;
        },
    }
    match event.get("params") {
        Some(params) => owned(get_nested_str(params, "thread", "id")),
        None => None,
    }
}

/// The texts of the parts of type `text`, one after the other.
pub open spec fn parts_text(parts: Seq<JsonView>) -> Seq<char>
    decreases parts.len(),
{
    if parts.len() == 0 {
        Seq::empty()
    } else {
        parts_text(parts.drop_last()) + part_text(parts.last())
    }
}

/// The text of a part of type `text`; nothing of any other part.
pub open spec fn part_text(part: JsonView) -> Seq<char> {
    if part.get_str("type"@) == Some("text"@) {
        part.get_str("text"@).unwrap_or(Seq::empty())
    } else {
        Seq::empty()
    }
}

fn join_text_parts(parts: &Vec<Json>) -> (r: String)
    ensures
        r@ == parts_text(items_view(parts@)),
{
    let mut combined: String = String::new();
    let ghost views = items_view(parts@);
    proof {
        lemma_items_view(parts@);
    }
    let mut i: usize = 0;
    while i < parts.len()
        invariant
            i <= parts@.len(),
            views == items_view(parts@),
            views.len() == parts@.len(),
            forall|k: int| 0 <= k < parts@.len() ==> #[trigger] views[k] == parts@[k]@,
            combined@ == parts_text(views.take(i as int)),
        decreases parts@.len() - i,
    {
        let part: &Json = &parts[i];
        proof {
            assert(views.take(i + 1).drop_last() == views.take(i as int));
            assert(views.take(i + 1).last() == part@);
        }
        if let Some(kind) = part.get_str("type") {
            if same_text(kind, "text") {
                if let Some(text) = part.get_str("text") {
                    combined.append(text);
                }
            }
        }
        i = i + 1;
    }
    proof {
        assert(views.take(i as int) == views);
    }
    combined
}

/// The text of a chat message of the user, where it has one.
pub open spec fn user_message_text(message: JsonView) -> Option<Seq<char>> {
    if message.get_str("role"@) == Some("user"@) {
        match message.get("content"@) {
            Some(JsonView::String(text)) => Some(text),
            Some(JsonView::Array(parts)) => Some(parts_text(parts)),
            _ => None,
        }
    } else {
        None
    }
}

/// The text of the last message of the user that has one.
pub open spec fn last_user_text(messages: Seq<JsonView>) -> Seq<char>
    decreases messages.len(),
{
    if messages.len() == 0 {
        Seq::empty()
    } else {
        match user_message_text(messages.last()) {
            Some(text) => text,
            None => last_user_text(messages.drop_last()),
        }
    }
}

/// What the user says in a chat request.
pub open spec fn user_message(request: JsonView) -> Seq<char> {
    match request.get("messages"@) {
        Some(JsonView::Array(messages)) => last_user_text(messages),
        _ => Seq::empty(),
    }
}

fn get_user_message_text(message: &Json) -> (r: Option<String>)
    ensures
        r.deep_view() == user_message_text(message@),
{
    match message.get_str("role") {
        Some(role) => {
            if !same_text(role, "user") {
                return None;
            }
        },
        None => {
            return None;
        },
    }
    match message.get("content") {
        Some(Json::String(text)) => Some(text.clone()),
        Some(Json::Array(parts)) => Some(join_text_parts(parts)),
        _ => None,
    }
}

/// What the user says in a chat request: the text of the last message with the
/// role `user` whose content is a text or a list of parts.
pub fn extract_user_message(request_json: &Json) -> (r: String)
    ensures
        r@ == user_message(request_json@),
{
    if let Some(Json::Array(messages)) = request_json.get("messages") {
        let ghost views = items_view(messages@);
        proof {
            lemma_items_view(messages@);
            assert(views.take(views.len() as int) == views);
        }
        let mut i: usize = messages.len();
        while i > 0
            invariant
                i <= messages@.len(),
                views.len() == messages@.len(),
                forall|k: int| 0 <= k < messages@.len() ==> #[trigger] views[k] == messages@[k]@,
                user_message(request_json@) == last_user_text(views.take(i as int)),
            decreases i,
        {
            i = i - 1;
            proof {
                assert(views.take(i + 1).drop_last() == views.take(i as int));
                assert(views.take(i + 1).last() == messages@[i as int]@);
            }
            if let Some(text) = get_user_message_text(&messages[i]) {
                return text;
            }
        }
    }
    String::new()
}

/// Who an item is from: its role, its kind or its type, the role, kind or type
/// of its author, or its sender; the first of these that it gives.
pub open spec fn item_role(item: JsonView) -> Option<Seq<char>> {
    or_else(
        item.get_str("role"@),
        or_else(
            item.get_str("kind"@),
            or_else(
                item.get_str("type"@),
                or_else(
                    nested_str(item, "author"@, "role"@),
                    or_else(
                        nested_str(item, "author"@, "kind"@),
                        or_else(nested_str(item, "author"@, "type"@), item.get_str("sender"@)),
                    ),
                ),
            ),
        ),
    )
}

/// Who an item is from.
pub fn extract_item_role<'a>(item: &'a Json) -> (r: Option<&'a str>)
    ensures
        match r {
            Some(role) => item_role(item@) == Some(role@),
            None => item_role(item@) is None,
        },
{
    if let Some(role) = item.get_str("role") {
        return Some(role);
    }
    if let Some(kind) = item.get_str("kind") {
        return Some(kind);
    }
    if let Some(item_type) = item.get_str("type") {
        return Some(item_type);
    }
    if let Some(author) = item.get("author") {
        if let Some(role) = author.get_str("role") {
            return Some(role);
        }
        if let Some(kind) = author.get_str("kind") {
            return Some(kind);
        }
        if let Some(author_type) = author.get_str("type") {
            return Some(author_type);
        }
    }
    item.get_str("sender")
}

/// Whether two texts are the same when the case of ASCII letters is ignored.
pub open spec fn same_ignoring_case(a: Seq<char>, b: Seq<char>) -> bool {
    ascii_lowercase(a) == ascii_lowercase(b)
}

/// Whether a role is one under which the assistant speaks.
pub open spec fn assistant_role(role: Seq<char>) -> bool {
    ||| same_ignoring_case(role, "assistant"@)
    ||| same_ignoring_case(role, "assistant_message"@)
    ||| same_ignoring_case(role, "assistantmessage"@)
    ||| same_ignoring_case(role, "agent"@)
    ||| same_ignoring_case(role, "agent_message"@)
    ||| same_ignoring_case(role, "agentmessage"@)
    ||| same_ignoring_case(role, "model"@)
}

/// Whether a role is one under which the assistant speaks, in any case.
pub fn is_assistant_role(role: &str) -> (r: bool)
    ensures
        r == assistant_role(role@),
{
    eq_ignore_ascii_case(role, "assistant") || eq_ignore_ascii_case(role, "assistant_message")
        || eq_ignore_ascii_case(role, "assistantmessage") || eq_ignore_ascii_case(role, "agent")
        || eq_ignore_ascii_case(role, "agent_message") || eq_ignore_ascii_case(role, "agentmessage")
        || eq_ignore_ascii_case(role, "model")
}

/// Whether an item is from the assistant.
pub open spec fn assistant_item(item: JsonView) -> bool {
    match item_role(item) {
        Some(role) => assistant_role(role),
        None => false,
    }
}

/// Whether an item is from the assistant.
pub fn is_assistant_item(item: &Json) -> (r: bool)
    ensures
        r == assistant_item(item@),
{
    match extract_item_role(item) {
        Some(role) => is_assistant_role(role),
        None => false,
    }
}

/// The text of an item: its member `text`, or else its content, as a text or as
/// parts with some text among them.
pub open spec fn item_text(item: JsonView) -> Option<Seq<char>> {
    match item.get_str("text"@) {
        Some(text) => Some(text),
        None => match item.get("content"@) {
            Some(JsonView::String(text)) => Some(text),
            Some(JsonView::Array(parts)) => if parts_text(parts).len() > 0 {
                Some(parts_text(parts))
            } else {
                None
            },
            _ => None,
        },
    }
}

/// The text of an item.
pub fn extract_item_text(item: &Json) -> (r: Option<String>)
    ensures
        r.deep_view() == item_text(item@),
{
    if let Some(text) = item.get_str("text") {
        return Some(text.to_string());
    }
    match item.get("content") {
        Some(Json::String(text)) => Some(text.clone()),
        Some(Json::Array(parts)) => {
            let combined: String = join_text_parts(parts);
            if combined.as_str().is_empty() {
                None
            } else {
                Some(combined)
            }
        },
        _ => None,
    }
}

/// The item that the parameters of an event carry, or the message in its place.
pub open spec fn event_item(params: Option<JsonView>) -> Option<JsonView> {
    match params {
        Some(p) => or_else(p.get("item"@), p.get("message"@)),
        None => None,
    }
}

/// What an event adds to the answer of the assistant.
///
/// A delta event adds its delta. An event that adds a message of the agent adds
/// the text of the message. An event that adds or completes an item of any kind
/// adds the text of the item, where the item is from the assistant. No other
/// event adds anything.
pub open spec fn agent_delta(event: JsonView) -> Option<Seq<char>> {
    let method = event.get_str("method"@);
    let params = event.get("params"@);
    if method == Some("item/agentMessage/delta"@) || method == Some("item/assistantMessage/delta"@) {
        match params {
            Some(p) => or_else(p.get_str("delta"@), nested_str(p, "item"@, "delta"@)),
            None => None,
        }
    } else if method == Some("item/agentMessage/added"@) || method == Some("item/assistantMessage/added"@) {
        match event_item(params) {
            Some(item) => item_text(item),
            None => None,
        }
    } else if method == Some("item/added"@) || method == Some("item/completed"@) {
        match event_item(params) {
            Some(item) => if assistant_item(item) {
                item_text(item)
            } else {
                None
            },
            None => None,
        }
    } else {
        None
    }
}

fn get_event_item(params: Option<&Json>) -> (r: Option<&Json>)
    ensures
        event_item(
            match params {
                Some(p) => Some(p@),
                None => None,
            },
        ) == match r {
            Some(item) => Some(item@),
            None => None,
        },
{
    match params {
        Some(p) => match p.get("item") {
            Some(item) => Some(item),
            None => p.get("message"),
        },
        None => None,
    }
}

/// The method names that are told apart are different.
proof fn lemma_methods_differ()
    ensures
        "item/agentMessage/delta"@.len() == 23,
        "item/assistantMessage/delta"@.len() == 27,
        "item/agentMessage/delta"@ != "item/agentMessage/added"@,
        "item/assistantMessage/delta"@ != "item/assistantMessage/added"@,
        "item/agentMessage/added"@.len() == 23,
        "item/assistantMessage/added"@.len() == 27,
        "item/added"@.len() == 10,
        "item/completed"@.len() == 14,
{
    reveal_strlit("item/agentMessage/delta");
    reveal_strlit("item/assistantMessage/delta");
    reveal_strlit("item/agentMessage/added");
    reveal_strlit("item/assistantMessage/added");
    reveal_strlit("item/added");
    reveal_strlit("item/completed");
    assert("item/agentMessage/delta"@[18] != "item/agentMessage/added"@[18]);
    assert("item/assistantMessage/delta"@[22] != "item/assistantMessage/added"@[22]);
}

/// What an event adds to the answer of the assistant.
pub fn extract_agent_delta(event: &Json) -> (r: Option<String>)
    ensures
        r.deep_view() == agent_delta(event@),
{
    let method: &str = match event.get_str("method") {
        Some(method) => method,
        None => {
            return None;
        },
    };
    let params: Option<&Json> = event.get("params");
    proof {
        lemma_methods_differ();
    }
    if same_text(method, "item/agentMessage/delta") || same_text(method, "item/assistantMessage/delta") {
        if let Some(p) = params {
            if let Some(delta) = p.get_str("delta") {
                return Some(delta.to_string());
            }
            return owned(get_nested_str(p, "item", "delta"));
        }
    }
    if same_text(method, "item/agentMessage/added") || same_text(method, "item/assistantMessage/added") {
        if let Some(item) = get_event_item(params) {
            return extract_item_text(item);
        }
    }
    if same_text(method, "item/added") || same_text(method, "item/completed") {
        if let Some(item) = get_event_item(params) {
            if !is_assistant_item(item) {
                return None;
            }
            return extract_item_text(item);
        }
    }
    None
}

/// The id of the model that an entry of a model list names: the entry itself,
/// where it is a text, or else its id, its model or its name.
pub open spec fn model_entry(entry: JsonView) -> Option<Seq<char>> {
    or_else(
        entry.as_str(),
        or_else(entry.get_str("id"@), or_else(entry.get_str("model"@), entry.get_str("name"@))),
    )
}

/// The ids of the models that a list names, in its order; entries that name
/// none are left out.
pub open spec fn model_ids(list: Seq<JsonView>) -> Seq<Seq<char>>
    decreases list.len(),
{
    if list.len() == 0 {
        Seq::empty()
    } else {
        let front = model_ids(list.drop_last());
        match model_entry(list.last()) {
            Some(id) => front.push(id),
            None => front,
        }
    }
}

/// The list of models that a result carries: under `models`, under `data`, or
/// as the result itself.
pub open spec fn listed_models(result: JsonView) -> Seq<Seq<char>> {
    match or_else(result.get("models"@), or_else(result.get("data"@), Some(result))) {
        Some(JsonView::Array(list)) => model_ids(list),
        _ => Seq::empty(),
    }
}

fn get_model_entry(entry: &Json) -> (r: Option<String>)
    ensures
        r.deep_view() == model_entry(entry@),
{
    if let Some(id) = entry.as_str() {
        return Some(id.to_string());
    }
    if let Some(id) = entry.get_str("id") {
        return Some(id.to_string());
    }
    if let Some(id) = entry.get_str("model") {
        return Some(id.to_string());
    }
    owned(entry.get_str("name"))
}

/// The ids of the models that the result of `model/list` names.
pub fn normalize_models(result: &Json) -> (r: Vec<String>)
    ensures
        r.deep_view() == listed_models(result@),
{
    let candidate: &Json = match result.get("models") {
        Some(models) => models,
        None => match result.get("data") {
            Some(data) => data,
            None => result,
        },
    };
    let mut models: Vec<String> = Vec::new();
    if let Json::Array(list) = candidate {
        let ghost views = items_view(list@);
        proof {
            lemma_items_view(list@);
            assert(models.deep_view() == model_ids(views.take(0)));
        }
        let mut i: usize = 0;
        while i < list.len()
            invariant
                i <= list@.len(),
                views.len() == list@.len(),
                forall|k: int| 0 <= k < list@.len() ==> #[trigger] views[k] == list@[k]@,
                models.deep_view() == model_ids(views.take(i as int)),
            decreases list@.len() - i,
        {
            let ghost before = models.deep_view();
            proof {
                assert(views.take(i + 1).drop_last() == views.take(i as int));
                assert(views.take(i + 1).last() == list@[i as int]@);
            }
            if let Some(id) = get_model_entry(&list[i]) {
                let ghost name = id@;
                models.push(id);
                proof {
                    assert(models.deep_view() == before.push(name));
                }
            }
            i = i + 1;
        }
        proof {
            assert(views.take(i as int) == views);
            assert(candidate@ == JsonView::Array(views));
        }
    } else {
        proof {
            assert(models.deep_view() == Seq::<Seq<char>>::empty());
        }
    }
    models
}

/// Only a number that is an unsigned integer, or a text that writes one, is an
/// id.
pub proof fn lemma_id_is_an_unsigned_integer(value: JsonView, text: Seq<char>, n: u64)
    ensures
        message_id(None) is None,
        value matches JsonView::Number(number) ==> (message_id(Some(value)) == Some(n) <==> number
            == crate::json::NumberView::Unsigned(n)),
        message_id(Some(JsonView::String(text))) == unsigned_number(text),
        !(value is Number) && !(value is String) ==> message_id(Some(value)) is None,
{
}

/// A thread is named under `threadId`, else under `thread_id`, else by the id of
/// `thread`; each only where the ones before it hold no text.
pub proof fn lemma_where_a_thread_is_named(json: JsonView, thread: JsonView, id: Seq<char>)
    ensures
        json.get("threadId"@) == Some(JsonView::String(id)) ==> thread_id_of(json) == Some(id),
        json.get_str("threadId"@) is None && json.get("thread_id"@) == Some(JsonView::String(id)) ==> thread_id_of(json)
            == Some(id),
        json.get_str("threadId"@) is None && json.get_str("thread_id"@) is None && json.get("thread"@) == Some(thread)
            ==> thread_id_of(json) == thread.get_str("id"@),
        json.get_str("threadId"@) is None && json.get_str("thread_id"@) is None && json.get("thread"@) is None
            ==> thread_id_of(json) is None,
{
}

/// A turn is named under `turnId`, else under `turn_id`, else by the id of
/// `turn`; each only where the ones before it hold no text.
pub proof fn lemma_where_a_turn_is_named(json: JsonView, turn: JsonView, id: Seq<char>)
    ensures
        json.get("turnId"@) == Some(JsonView::String(id)) ==> turn_id_of(json) == Some(id),
        json.get_str("turnId"@) is None && json.get("turn_id"@) == Some(JsonView::String(id)) ==> turn_id_of(json)
            == Some(id),
        json.get_str("turnId"@) is None && json.get_str("turn_id"@) is None && json.get("turn"@) == Some(turn)
            ==> turn_id_of(json) == turn.get_str("id"@),
        json.get_str("turnId"@) is None && json.get_str("turn_id"@) is None && json.get("turn"@) is None
            ==> turn_id_of(json) is None,
{
}

/// An event that names another thread does not match, whatever turn it names;
/// and where the turn is known, an event that names another turn does not match,
/// whatever thread it names. An event that names neither matches.
pub proof fn lemma_events_of_others_do_not_match(
    event: JsonView,
    params: JsonView,
    thread_id: Seq<char>,
    turn_id: Option<Seq<char>>,
    named: Seq<char>,
)
    requires
        event.get("params"@) == Some(params),
    ensures
        params.get("threadId"@) == Some(JsonView::String(named)) && named != thread_id ==> !matches_turn(
            event,
            thread_id,
            turn_id,
        ),
        thread_id_of(params) == Some(named) && named != thread_id ==> !matches_turn(event, thread_id, turn_id),
        params.get("turnId"@) == Some(JsonView::String(named)) && turn_id is Some && turn_id != Some(named)
            ==> !matches_turn(event, thread_id, turn_id),
        turn_id_of(params) == Some(named) && turn_id is Some && turn_id != Some(named) ==> !matches_turn(
            event,
            thread_id,
            turn_id,
        ),
        (thread_id_of(params) is None || thread_id_of(params) == Some(thread_id)) && (turn_id is None || turn_id_of(
            params,
        ) is None || turn_id_of(params) == turn_id) ==> matches_turn(event, thread_id, turn_id),
{
}

/// An event without parameters names nobody, and matches every turn.
pub proof fn lemma_event_without_parameters_matches(
    event: JsonView,
    thread_id: Seq<char>,
    turn_id: Option<Seq<char>>,
)
    requires
        event.get("params"@) is None,
    ensures
        matches_turn(event, thread_id, turn_id),
{
}

/// An event that names a thread matches turns of one thread only, and one that
/// names a turn matches one turn only of those that are known.
pub proof fn lemma_named_events_have_one_owner(
    event: JsonView,
    params: JsonView,
    thread_a: Seq<char>,
    turn_a: Option<Seq<char>>,
    thread_b: Seq<char>,
    turn_b: Option<Seq<char>>,
)
    requires
        event.get("params"@) == Some(params),
        matches_turn(event, thread_a, turn_a),
        matches_turn(event, thread_b, turn_b),
    ensures
        thread_id_of(params) is Some ==> thread_a == thread_b,
        turn_id_of(params) is Some && turn_a is Some && turn_b is Some ==> turn_a == turn_b,
{
}

/// A turn is over exactly with one of four methods, whatever else the event
/// says.
pub proof fn lemma_how_a_turn_ends(event: JsonView, method: Seq<char>)
    ensures
        event.get("method"@) == Some(JsonView::String(method)) ==> (turn_completed(event) <==> {
            ||| method == "turn/completed"@
            ||| method == "turn/complete"@
            ||| method == "turn/ended"@
            ||| method == "turn/finished"@
        }),
        event.get_str("method"@) is None ==> !turn_completed(event),
{
}

/// A thread is started by an event of that method that carries the thread with
/// its id, and by no other.
pub proof fn lemma_how_a_thread_starts(event: JsonView, params: JsonView, thread: JsonView)
    ensures
        event.get("method"@) == Some(JsonView::String("thread/started"@)) && event.get("params"@) == Some(params)
            && params.get("thread"@) == Some(thread) ==> started_thread(event) == thread.get_str("id"@),
        event.get("params"@) == Some(params) && params.get("thread"@) is None ==> started_thread(event) is None,
        event.get("params"@) is None ==> started_thread(event) is None,
        event.get("method"@) != Some(JsonView::String("thread/started"@)) ==> started_thread(event) is None,
{
}

/// The texts of parts are put together as the parts are.
pub proof fn lemma_parts_text_joins(a: Seq<JsonView>, b: Seq<JsonView>)
    ensures
        parts_text(a + b) == parts_text(a) + parts_text(b),
    decreases b.len(),
{
    if b.len() == 0 {
        assert(a + b == a);
        assert(parts_text(a) + parts_text(b) == parts_text(a));
    } else {
        lemma_parts_text_joins(a, b.drop_last());
        assert((a + b).drop_last() == a + b.drop_last());
        assert((a + b).last() == b.last());
        assert(parts_text(a) + (parts_text(b.drop_last()) + part_text(b.last())) == parts_text(a) + parts_text(
            b.drop_last(),
        ) + part_text(b.last()));
    }
}

/// A part of type `text` gives its text, and any other part gives nothing.
pub proof fn lemma_text_of_one_part(part: JsonView, text: Seq<char>)
    ensures
        part.get("type"@) == Some(JsonView::String("text"@)) && part.get("text"@) == Some(JsonView::String(text))
            ==> parts_text(seq![part]) == text,
        part.get("type"@) != Some(JsonView::String("text"@)) || part.get_str("text"@) is None ==> parts_text(seq![part])
            == Seq::<char>::empty(),
        parts_text(Seq::empty()) == Seq::<char>::empty(),
{
    reveal_with_fuel(parts_text, 2);
    assert(seq![part].drop_last() == Seq::<JsonView>::empty());
    assert(seq![part].last() == part);
    assert(Seq::<char>::empty() + part_text(part) == part_text(part));
}

/// Whether a message is one of the user that says something: its content is a
/// text or a list of parts.
pub open spec fn user_speaks(message: JsonView) -> bool {
    &&& message.get("role"@) == Some(JsonView::String("user"@))
    &&& message.get("content"@) is Some
    &&& message.get("content"@)->0 is String || message.get("content"@)->0 is Array
}

proof fn lemma_last_user_text(messages: Seq<JsonView>, i: int)
    requires
        0 <= i < messages.len(),
        user_speaks(messages[i]),
        forall|j: int| i < j < messages.len() ==> !user_speaks(#[trigger] messages[j]),
    ensures
        last_user_text(messages) == match messages[i].get("content"@)->0 {
            JsonView::String(text) => text,
            JsonView::Array(parts) => parts_text(parts),
            _ => Seq::empty(),
        },
    decreases messages.len(),
{
    if i < messages.len() - 1 {
        assert(!user_speaks(messages[messages.len() - 1]));
        let front = messages.drop_last();
        assert forall|j: int| i < j < front.len() implies !user_speaks(#[trigger] front[j]) by {
            assert(front[j] == messages[j]);
        }
        lemma_last_user_text(front, i);
    }
}

/// What the user says is the text of the last message of the user that says
/// something, whatever stands before it, and whatever stands behind it that is
/// not such a message.
pub proof fn lemma_last_user_message_counts(request: JsonView, messages: Seq<JsonView>, i: int, content: JsonView)
    requires
        request.get("messages"@) == Some(JsonView::Array(messages)),
        0 <= i < messages.len(),
        messages[i].get("role"@) == Some(JsonView::String("user"@)),
        messages[i].get("content"@) == Some(content),
        content is String || content is Array,
        forall|j: int| i < j < messages.len() ==> !user_speaks(#[trigger] messages[j]),
    ensures
        content matches JsonView::String(text) ==> user_message(request) == text,
        content matches JsonView::Array(parts) ==> user_message(request) == parts_text(parts),
{
    lemma_last_user_text(messages, i);
}

proof fn lemma_no_user_text(messages: Seq<JsonView>)
    requires
        forall|j: int| 0 <= j < messages.len() ==> !user_speaks(#[trigger] messages[j]),
    ensures
        last_user_text(messages) == Seq::<char>::empty(),
    decreases messages.len(),
{
    if messages.len() > 0 {
        assert(!user_speaks(messages[messages.len() - 1]));
        let front = messages.drop_last();
        assert forall|j: int| 0 <= j < front.len() implies !user_speaks(#[trigger] front[j]) by {
            assert(front[j] == messages[j]);
        }
        lemma_no_user_text(front);
    }
}

/// Where no message is one of the user that says something, or there is no list
/// of messages, nothing is said.
pub proof fn lemma_without_a_user_message_nothing_is_said(request: JsonView, messages: Seq<JsonView>)
    requires
        request.get("messages"@) is None || !(request.get("messages"@)->0 is Array) || request.get("messages"@) == Some(
            JsonView::Array(messages),
        ),
        forall|j: int| 0 <= j < messages.len() ==> !user_speaks(#[trigger] messages[j]),
    ensures
        user_message(request) == Seq::<char>::empty(),
{
    if request.get("messages"@) == Some(JsonView::Array(messages)) {
        lemma_no_user_text(messages);
    }
}

/// An item is from whom its role names, else its kind, else its type, else its
/// author's role, kind or type, else its sender; each only where the ones before
/// it hold no text.
pub proof fn lemma_whom_an_item_is_from(item: JsonView, who: Seq<char>)
    ensures
        item.get("role"@) == Some(JsonView::String(who)) ==> item_role(item) == Some(who),
        item.get_str("role"@) is None && item.get("kind"@) == Some(JsonView::String(who)) ==> item_role(item) == Some(
            who,
        ),
        item.get_str("role"@) is None && item.get_str("kind"@) is None && item.get("type"@) == Some(
            JsonView::String(who),
        ) ==> item_role(item) == Some(who),
        item.get_str("role"@) is None && item.get_str("kind"@) is None && item.get_str("type"@) is None ==> {
            &&& item.get("author"@) matches Some(author) ==> {
                &&& author.get("role"@) == Some(JsonView::String(who)) ==> item_role(item) == Some(who)
                &&& author.get_str("role"@) is None && author.get("kind"@) == Some(JsonView::String(who))
                    ==> item_role(item) == Some(who)
                &&& author.get_str("role"@) is None && author.get_str("kind"@) is None && author.get("type"@) == Some(
                    JsonView::String(who),
                ) ==> item_role(item) == Some(who)
                &&& author.get_str("role"@) is None && author.get_str("kind"@) is None && author.get_str("type"@) is None
                    ==> item_role(item) == item.get_str("sender"@)
            }
            &&& item.get("author"@) is None ==> item_role(item) == item.get_str("sender"@)
        },
{
}

/// The assistant speaks under seven roles, in any case, and under no other.
pub proof fn lemma_roles_of_the_assistant(role: Seq<char>)
    ensures
        assistant_role(role) <==> {
            ||| ascii_lowercase(role) == "assistant"@
            ||| ascii_lowercase(role) == "assistant_message"@
            ||| ascii_lowercase(role) == "assistantmessage"@
            ||| ascii_lowercase(role) == "agent"@
            ||| ascii_lowercase(role) == "agent_message"@
            ||| ascii_lowercase(role) == "agentmessage"@
            ||| ascii_lowercase(role) == "model"@
        },
{
    reveal_strlit("assistant");
    reveal_strlit("assistant_message");
    reveal_strlit("assistantmessage");
    reveal_strlit("agent");
    reveal_strlit("agent_message");
    reveal_strlit("agentmessage");
    reveal_strlit("model");
    assert(ascii_lowercase("assistant"@) =~= "assistant"@);
    assert(ascii_lowercase("assistant_message"@) =~= "assistant_message"@);
    assert(ascii_lowercase("assistantmessage"@) =~= "assistantmessage"@);
    assert(ascii_lowercase("agent"@) =~= "agent"@);
    assert(ascii_lowercase("agent_message"@) =~= "agent_message"@);
    assert(ascii_lowercase("agentmessage"@) =~= "agentmessage"@);
    assert(ascii_lowercase("model"@) =~= "model"@);
}

/// An item is from the assistant exactly where it says whom it is from and that
/// is a role of the assistant.
pub proof fn lemma_items_of_the_assistant(item: JsonView, role: Seq<char>)
    ensures
        item_role(item) == Some(role) ==> (assistant_item(item) <==> assistant_role(role)),
        item_role(item) is None ==> !assistant_item(item),
{
}

/// The text of an item is its `text`, or else its content as a text, or else the
/// texts of the parts of its content, where these are not empty.
pub proof fn lemma_what_an_item_says(item: JsonView, content: JsonView, text: Seq<char>)
    ensures
        item.get("text"@) == Some(JsonView::String(text)) ==> item_text(item) == Some(text),
        item.get_str("text"@) is None && item.get("content"@) == Some(content) ==> {
            &&& content matches JsonView::String(whole) ==> item_text(item) == Some(whole)
            &&& content matches JsonView::Array(parts) ==> (parts_text(parts).len() > 0 ==> item_text(item) == Some(
                parts_text(parts),
            )) && (parts_text(parts).len() == 0 ==> item_text(item) is None)
            &&& !(content is String) && !(content is Array) ==> item_text(item) is None
        },
        item.get_str("text"@) is None && item.get("content"@) is None ==> item_text(item) is None,
{
}

/// An event of a delta adds its delta as it is: the one of its parameters, or
/// else the one of the item that they carry.
pub proof fn lemma_what_a_delta_adds(event: JsonView, method: Seq<char>, params: JsonView, item: JsonView, text: Seq<
    char,
>)
    requires
        event.get("method"@) == Some(JsonView::String(method)),
        method == "item/agentMessage/delta"@ || method == "item/assistantMessage/delta"@,
    ensures
        event.get("params"@) == Some(params) ==> {
            &&& params.get("delta"@) == Some(JsonView::String(text)) ==> agent_delta(event) == Some(text)
            &&& params.get_str("delta"@) is None && params.get("item"@) == Some(item) ==> agent_delta(event)
                == item.get_str("delta"@)
            &&& params.get_str("delta"@) is None && params.get("item"@) is None ==> agent_delta(event) is None
        },
        event.get("params"@) is None ==> agent_delta(event) is None,
{
}

/// An event that adds a message of the agent adds the text of its item, or of
/// its message where it carries no item.
pub proof fn lemma_what_an_added_message_adds(event: JsonView, method: Seq<char>, params: JsonView, item: JsonView)
    requires
        event.get("method"@) == Some(JsonView::String(method)),
        method == "item/agentMessage/added"@ || method == "item/assistantMessage/added"@,
    ensures
        event.get("params"@) == Some(params) ==> {
            &&& params.get("item"@) == Some(item) ==> agent_delta(event) == item_text(item)
            &&& params.get("item"@) is None && params.get("message"@) == Some(item) ==> agent_delta(event) == item_text(
                item,
            )
            &&& params.get("item"@) is None && params.get("message"@) is None ==> agent_delta(event) is None
        },
        event.get("params"@) is None ==> agent_delta(event) is None,
{
    lemma_methods_differ();
}

/// An event that adds or completes an item adds the text of the item where the
/// item is from the assistant, and nothing where it is not.
pub proof fn lemma_what_an_item_adds(event: JsonView, method: Seq<char>, params: JsonView, item: JsonView)
    requires
        event.get("method"@) == Some(JsonView::String(method)),
        method == "item/added"@ || method == "item/completed"@,
    ensures
        event.get("params"@) == Some(params) && (params.get("item"@) == Some(item) || params.get("item"@) is None
            && params.get("message"@) == Some(item)) ==> {
            &&& assistant_item(item) ==> agent_delta(event) == item_text(item)
            &&& !assistant_item(item) ==> agent_delta(event) is None
        },
        event.get("params"@) == Some(params) && params.get("item"@) is None && params.get("message"@) is None
            ==> agent_delta(event) is None,
        event.get("params"@) is None ==> agent_delta(event) is None,
{
    lemma_methods_differ();
}

/// No event of another method adds anything.
pub proof fn lemma_other_methods_add_nothing(event: JsonView)
    requires
        event.get("method"@) != Some(JsonView::String("item/agentMessage/delta"@)),
        event.get("method"@) != Some(JsonView::String("item/assistantMessage/delta"@)),
        event.get("method"@) != Some(JsonView::String("item/agentMessage/added"@)),
        event.get("method"@) != Some(JsonView::String("item/assistantMessage/added"@)),
        event.get("method"@) != Some(JsonView::String("item/added"@)),
        event.get("method"@) != Some(JsonView::String("item/completed"@)),
    ensures
        agent_delta(event) is None,
{
}

/// The models of a list are put together as the list is.
pub proof fn lemma_models_join(a: Seq<JsonView>, b: Seq<JsonView>)
    ensures
        model_ids(a + b) == model_ids(a) + model_ids(b),
    decreases b.len(),
{
    if b.len() == 0 {
        assert(a + b == a);
        assert(model_ids(a) + model_ids(b) == model_ids(a));
    } else {
        lemma_models_join(a, b.drop_last());
        assert((a + b).drop_last() == a + b.drop_last());
        assert((a + b).last() == b.last());
        assert(model_ids(a + b) =~= model_ids(a) + model_ids(b));
    }
}

/// An entry of a list names a model as a text, or else by its id, its model or
/// its name, in this order; an entry that does none of these names none.
pub proof fn lemma_model_of_one_entry(entry: JsonView, id: Seq<char>)
    ensures
        entry == JsonView::String(id) ==> model_ids(seq![entry]) == seq![id],
        entry.get("id"@) == Some(JsonView::String(id)) ==> model_ids(seq![entry]) == seq![id],
        entry.get_str("id"@) is None && entry.get("model"@) == Some(JsonView::String(id)) ==> model_ids(seq![entry])
            == seq![id],
        entry.get_str("id"@) is None && entry.get_str("model"@) is None && entry.get("name"@) == Some(
            JsonView::String(id),
        ) ==> model_ids(seq![entry]) == seq![id],
        !(entry is String) && entry.get_str("id"@) is None && entry.get_str("model"@) is None && entry.get_str("name"@)
            is None ==> model_ids(seq![entry]) == Seq::<Seq<char>>::empty(),
        model_ids(Seq::empty()) == Seq::<Seq<char>>::empty(),
{
    reveal_with_fuel(model_ids, 2);
    assert(seq![entry].drop_last() == Seq::<JsonView>::empty());
    assert(seq![entry].last() == entry);
    assert(Seq::<Seq<char>>::empty().push(id) == seq![id]);
}

/// The models are listed under `models`, or else under `data`, or else by the
/// result itself; where that is no list there are none.
pub proof fn lemma_where_models_are_listed(result: JsonView, list: JsonView)
    requires
        result.get("models"@) == Some(list) || result.get("models"@) is None && result.get("data"@) == Some(list)
            || result.get("models"@) is None && result.get("data"@) is None && list == result,
    ensures
        list matches JsonView::Array(entries) ==> listed_models(result) == model_ids(entries),
        !(list is Array) ==> listed_models(result) == Seq::<Seq<char>>::empty(),
{
}

} // verus!
