//! The HTTP side: what is asked for and what is replied.

use vstd::prelude::*;

use crate::events::{listed_models, normalize_models};
use crate::ids::created_now;
use crate::json::{Json, JsonView, items_view, printable};
use crate::text::same_text;
use crate::value::{print, printed};

verus! {

/// A whole HTTP reply.
#[derive(Debug)]
pub struct HttpReply {
    pub status: u16,
    pub headers: Vec<(String, String)>,
    pub body: String,
}

/// An HTTP reply, by its texts.
#[verifier::ext_equal]
pub struct ReplyView {
    pub status: u16,
    pub headers: Seq<(Seq<char>, Seq<char>)>,
    pub body: Seq<char>,
}

impl View for HttpReply {
    type V = ReplyView;

    open spec fn view(&self) -> ReplyView {
        ReplyView { status: self.status, headers: self.headers.deep_view(), body: self.body@ }
    }
}

/// The headers that let pages of any origin use the shim.
pub open spec fn cors_headers() -> Seq<(Seq<char>, Seq<char>)> {
    seq![
        ("Access-Control-Allow-Origin"@, "*"@),
        ("Access-Control-Allow-Headers"@, "content-type, authorization, x-jan-thread-id"@),
        ("Access-Control-Allow-Methods"@, "GET, POST, OPTIONS"@),
    ]
}

/// A reply with a status and a body that pages of any origin may read.
pub open spec fn cors_reply(status: u16, body: Seq<char>) -> ReplyView {
    ReplyView { status, headers: cors_headers(), body }
}

fn header(name: &str, value: &str) -> (r: (String, String))
    ensures
        r.deep_view() == (name@, value@),
{
    (name.to_string(), value.to_string())
}

/// A reply with a status and a body that pages of any origin may read.
pub fn cors_response(status: u16, body: String) -> (r: HttpReply)
    ensures
        r@ == cors_reply(status, body@),
{
    let mut headers: Vec<(String, String)> = Vec::new();
    headers.push(header("Access-Control-Allow-Origin", "*"));
    headers.push(header("Access-Control-Allow-Headers", "content-type, authorization, x-jan-thread-id"));
    headers.push(header("Access-Control-Allow-Methods", "GET, POST, OPTIONS"));
    proof {
        assert(headers.deep_view() == cors_headers());
    }
    HttpReply { status, headers, body }
}

/// The head of a reply that is streamed as server-sent events.
pub open spec fn stream_head() -> ReplyView {
    ReplyView {
        status: 200,
        headers: seq![
            ("Content-Type"@, "text/event-stream"@),
            ("Cache-Control"@, "no-cache"@),
            ("Connection"@, "keep-alive"@),
            ("Access-Control-Allow-Origin"@, "*"@),
        ],
        body: Seq::empty(),
    }
}

/// The head of a reply that is streamed as server-sent events.
pub fn stream_response() -> (r: HttpReply)
    ensures
        r@ == stream_head(),
{
    let mut headers: Vec<(String, String)> = Vec::new();
    headers.push(header("Content-Type", "text/event-stream"));
    headers.push(header("Cache-Control", "no-cache"));
    headers.push(header("Connection", "keep-alive"));
    headers.push(header("Access-Control-Allow-Origin", "*"));
    proof {
        assert(headers.deep_view() == stream_head().headers);
    }
    HttpReply { status: 200, headers, body: String::new() }
}

/// Whether pages of any origin may read a reply.
pub open spec fn allows_any_origin(reply: ReplyView) -> bool {
    exists|i: int|
        0 <= i < reply.headers.len() && #[trigger] reply.headers[i] == ("Access-Control-Allow-Origin"@, "*"@)
}

/// Pages of any origin may read every reply, whole or streamed, of success or
/// of failure.
pub proof fn lemma_every_reply_allows_any_origin(status: u16, body: Seq<char>)
    ensures
        allows_any_origin(cors_reply(status, body)),
        allows_any_origin(stream_head()),
{
    assert(cors_reply(status, body).headers[0] == ("Access-Control-Allow-Origin"@, "*"@));
    assert(stream_head().headers[3] == ("Access-Control-Allow-Origin"@, "*"@));
}

/// The document that tells of an error.
pub open spec fn error_document(message: Seq<char>) -> JsonView {
    JsonView::object().with("error"@, JsonView::object().with("message"@, JsonView::String(message)))
}

/// The reply that tells of an error.
pub open spec fn error_reply(status: u16, message: Seq<char>) -> ReplyView {
    cors_reply(status, printed(error_document(message)))
}

/// The document that tells of an error.
pub fn error_body(message: &str) -> (r: Json)
    ensures
        r@ == error_document(message@),
        printable(r),
{
    Json::object().with("error", Json::object().with("message", Json::string(message)))
}

/// The reply that tells of an error.
pub fn error_response(status: u16, message: &str) -> (r: HttpReply)
    ensures
        r@ == error_reply(status, message@),
{
    let body: Json = error_body(message);
    cors_response(status, print(&body))
}

/// The reply where the app server failed.
pub fn bad_gateway(message: &str) -> (r: HttpReply)
    ensures
        r@ == error_reply(502, message@),
{
    error_response(502, message)
}

/// What a request asks for.
#[derive(Debug, Clone, Copy, PartialEq, Eq, Structural)]
pub enum Route {
    /// What pages of other origins may do.
    Preflight,
    /// The models.
    ListModels,
    /// A chat completion.
    Chat,
    /// Nothing that there is.
    NotFound,
}

/// What a request asks for, by its method and its path.
pub open spec fn route_of(method: Seq<char>, path: Seq<char>) -> Route {
    if method == "OPTIONS"@ {
        Route::Preflight
    } else if method == "GET"@ && (path == "/v1/models"@ || path == "/models"@) {
        Route::ListModels
    } else if method == "POST"@ && (path == "/v1/chat/completions"@ || path == "/chat/completions"@) {
        Route::Chat
    } else {
        Route::NotFound
    }
}

/// What a request asks for, by its method and its path.
pub fn route(method: &str, path: &str) -> (r: Route)
    ensures
        r == route_of(method@, path@),
{
    if same_text(method, "OPTIONS") {
        return Route::Preflight;
    }
    if same_text(method, "GET") && (same_text(path, "/v1/models") || same_text(path, "/models")) {
        return Route::ListModels;
    }
    if same_text(method, "POST") && (same_text(path, "/v1/chat/completions") || same_text(
        path,
        "/chat/completions",
    )) {
        return Route::Chat;
    }
    Route::NotFound
}

/// The reply to a preflight request.
pub fn preflight_response() -> (r: HttpReply)
    ensures
        r@ == cors_reply(200, Seq::empty()),
{
    cors_response(200, String::new())
}

/// The reply to a request for what there is not.
pub fn not_found_response() -> (r: HttpReply)
    ensures
        r@ == cors_reply(404, "Not found"@),
{
    cors_response(404, "Not found".to_string())
}

/// A model as the list of models shows it.
pub open spec fn model_document(id: Seq<char>, created: int) -> JsonView {
    JsonView::object().with("id"@, JsonView::String(id)).with("object"@, JsonView::String("model"@)).with(
        "created"@,
        JsonView::integer(created),
    ).with("owned_by"@, JsonView::String("codex-app-server"@))
}

/// The models that are shown: those that there are, or, where there are none,
/// one that stands for the shim.
pub open spec fn shown_models(models: Seq<Seq<char>>) -> Seq<Seq<char>> {
    if models.len() == 0 {
        seq!["codex-app-server"@]
    } else {
        models
    }
}

/// The list of models.
pub open spec fn models_document(models: Seq<Seq<char>>, created: int) -> JsonView {
    JsonView::object().with("object"@, JsonView::String("list"@)).with(
        "data"@,
        JsonView::Array(
            Seq::new(shown_models(models).len(), |i: int| model_document(shown_models(models)[i], created)),
        ),
    )
}

/// The list of models names every model that there is, in order, and is never
/// empty.
pub proof fn lemma_model_list_is_complete(models: Seq<Seq<char>>, created: int)
    ensures
        ({
            let data = models_document(models, created).get("data"@).unwrap().as_array().unwrap();
            &&& data.len() > 0
            &&& models.len() > 0 ==> data.len() == models.len()
            &&& forall|i: int|
                0 <= i < models.len() ==> (#[trigger] data[i]).get_str("id"@) == Some(models[i])
        }),
{
    reveal_strlit("id");
    reveal_strlit("object");
    reveal_strlit("created");
    reveal_strlit("owned_by");
    assert("id"@.len() == 2 && "object"@.len() == 6 && "created"@.len() == 7 && "owned_by"@.len() == 8);
    let shown = shown_models(models);
    assert forall|i: int| 0 <= i < models.len() implies #[trigger] model_document(models[i], created).get_str(
        "id"@,
    ) == Some(models[i]) by {}
    let data = models_document(models, created).get("data"@).unwrap().as_array().unwrap();
    assert(data =~= Seq::new(shown.len(), |i: int| model_document(shown[i], created)));
    assert forall|i: int| 0 <= i < models.len() implies (#[trigger] data[i]).get_str("id"@) == Some(models[i]) by {
        assert(data[i] == model_document(models[i], created));
    }
}

fn model_entry_body(id: &str, created: i64) -> (r: Json)
    ensures
        r@ == model_document(id@, created as int),
        printable(r),
{
    Json::object().with("id", Json::string(id)).with("object", Json::string("model")).with(
        "created",
        Json::signed(created),
    ).with("owned_by", Json::string("codex-app-server"))
}

/// The list of models.
pub fn models_body(models: Vec<String>, created: i64) -> (r: Json)
    ensures
        r@ == models_document(models.deep_view(), created as int),
        printable(r),
{
    let ghost names = models.deep_view();
    let mut shown: Vec<String> = models;
    if shown.is_empty() {
        shown.push("codex-app-server".to_string());
    }
    proof {
        assert(shown.deep_view() == shown_models(names));
    }
    let ghost documents = Seq::new(
        shown_models(names).len(),
        |i: int| model_document(shown_models(names)[i], created as int),
    );
    let mut data: Vec<Json> = Vec::new();
    let mut i: usize = 0;
    while i < shown.len()
        invariant
            i <= shown@.len(),
            data@.len() == i,
            shown.deep_view() == shown_models(names),
            documents == Seq::new(
                shown_models(names).len(),
                |i: int| model_document(shown_models(names)[i], created as int),
            ),
            items_view(data@) == documents.take(i as int),
            forall|k: int| 0 <= k < data@.len() ==> printable(#[trigger] data@[k]),
        decreases shown@.len() - i,
    {
        let ghost before = data@;
        proof {
            assert(shown.deep_view()[i as int] == shown@[i as int]@);
        }
        data.push(model_entry_body(shown[i].as_str(), created));
        i = i + 1;
        proof {
            assert(data@.drop_last() == before);
            assert(documents.take(i as int) == documents.take(i - 1).push(documents[i - 1]));
        }
    }
    proof {
        assert(documents.take(i as int) == documents);
    }
    Json::object().with("object", Json::string("list")).with("data", Json::Array(data))
}

/// The reply to a request for the models, given what the app server says to
/// `model/list` and the time.
pub open spec fn models_reply(result: Result<JsonView, Seq<char>>, created: int) -> ReplyView {
    match result {
        Ok(list) => cors_reply(200, printed(models_document(listed_models(list), created))),
        Err(error) => error_reply(502, error),
    }
}

/// The reply to a request for the models, at a given time.
pub fn models_response_at(result: Result<Json, String>, created: i64) -> (r: HttpReply)
    ensures
        r@ == models_reply(crate::rpc::reply_view(result), created as int),
{
    match result {
        Ok(list) => {
            let body: Json = models_body(normalize_models(&list), created);
            cors_response(200, print(&body))
        },
        Err(error) => bad_gateway(error.as_str()),
    }
}

/// The reply to a request for the models, now.
pub fn models_response(result: Result<Json, String>) -> (r: HttpReply)
    ensures
        exists|created: int| 0 <= created <= i64::MAX && r@ == #[trigger] models_reply(
            crate::rpc::reply_view(result),
            created,
        ),
{
    let created: i64 = if result.is_ok() {
        created_now() as i64
    } else {
        0
    };
    models_response_at(result, created)
}

/// The frame of a server-sent event that carries a document.
pub open spec fn sse_frame(json: JsonView) -> Seq<char> {
    "data: "@ + printed(json) + "\n\n"@
}

/// Whether a text is one frame: it ends in a blank line and holds no line break
/// before that.
pub open spec fn single_frame(text: Seq<char>) -> bool {
    &&& text.len() >= 2
    &&& text[text.len() - 1] == '\n'
    &&& text[text.len() - 2] == '\n'
    &&& forall|i: int| 0 <= i < text.len() - 2 ==> #[trigger] text[i] != '\n'
}

/// The frame of a server-sent event that carries a document.
pub(crate) fn sse_data(value: &Json) -> (r: String)
    requires
        printable(*value),
    ensures
        r@ == sse_frame(value@),
        single_frame(r@),
{
    let text: String = print(value);
    proof {
        reveal_strlit("data: ");
        reveal_strlit("\n\n");
        let frame = sse_frame(value@);
        assert forall|i: int| 0 <= i < frame.len() - 2 implies #[trigger] frame[i] != '\n' by {
            if i < 6 {
                assert(frame[i] == "data: "@[i]);
            } else {
                assert(frame[i] == text@[i - 6]);
                assert(text@.contains(text@[i - 6]));
            }
        }
        assert(frame[frame.len() - 1] == "\n\n"@[1]);
        assert(frame[frame.len() - 2] == "\n\n"@[0]);
    }
    "data: ".to_string().concat(text.as_str()).concat("\n\n")
}

/// What is asked for is found by the method and the whole path: the models and
/// the chat under two paths each, and nothing under any other.
pub proof fn lemma_what_is_asked_for(method: Seq<char>, path: Seq<char>)
    ensures
        route_of("OPTIONS"@, path) == Route::Preflight,
        method != "OPTIONS"@ ==> route_of(method, path) != Route::Preflight,
        route_of(method, path) == Route::ListModels <==> method == "GET"@ && (path == "/v1/models"@ || path
            == "/models"@),
        route_of(method, path) == Route::Chat <==> method == "POST"@ && (path == "/v1/chat/completions"@ || path
            == "/chat/completions"@),
{
    reveal_strlit("OPTIONS");
    reveal_strlit("GET");
    reveal_strlit("POST");
    assert("OPTIONS"@.len() == 7 && "GET"@.len() == 3 && "POST"@.len() == 4);
}

/// A reply has the status and the body that it is made with, and headers that
/// name any origin, the headers and the methods that pages may use.
pub proof fn lemma_what_a_reply_holds(status: u16, body: Seq<char>)
    ensures
        ({
            let reply = cors_reply(status, body);
            &&& reply.status == status
            &&& reply.body == body
            &&& reply.headers.len() == 3
            &&& reply.headers[0] == ("Access-Control-Allow-Origin"@, "*"@)
            &&& reply.headers[1] == (
                "Access-Control-Allow-Headers"@,
                "content-type, authorization, x-jan-thread-id"@,
            )
            &&& reply.headers[2] == ("Access-Control-Allow-Methods"@, "GET, POST, OPTIONS"@)
        }),
        ({
            let head = stream_head();
            &&& head.status == 200
            &&& head.headers.len() == 4
            &&& head.headers[0] == ("Content-Type"@, "text/event-stream"@)
            &&& head.headers[1] == ("Cache-Control"@, "no-cache"@)
            &&& head.headers[2] == ("Connection"@, "keep-alive"@)
            &&& head.headers[3] == ("Access-Control-Allow-Origin"@, "*"@)
        }),
{
}

/// An error is told as its message, and nothing else is told.
pub proof fn lemma_what_an_error_tells(status: u16, message: Seq<char>, key: Seq<char>)
    ensures
        error_document(message).get("error"@) matches Some(error) && error.get("message"@) == Some(
            JsonView::String(message),
        ) && (key != "message"@ ==> error.get(key) is None),
        key != "error"@ ==> error_document(message).get(key) is None,
        error_reply(status, message).status == status,
        error_reply(status, message).body == printed(error_document(message)),
        error_reply(status, message).headers == cors_headers(),
{
}

/// A model is shown under its own id, with the time that is given.
pub proof fn lemma_how_a_model_is_shown(id: Seq<char>, created: int, key: Seq<char>)
    ensures
        ({
            let shown = model_document(id, created);
            &&& shown.get("id"@) == Some(JsonView::String(id))
            &&& shown.get("object"@) == Some(JsonView::String("model"@))
            &&& shown.get("created"@) == Some(JsonView::integer(created))
            &&& shown.get("owned_by"@) == Some(JsonView::String("codex-app-server"@))
            &&& key != "id"@ && key != "object"@ && key != "created"@ && key != "owned_by"@ ==> shown.get(key) is None
        }),
{
    reveal_strlit("id");
    reveal_strlit("object");
    reveal_strlit("created");
    reveal_strlit("owned_by");
    assert("id"@.len() == 2 && "object"@.len() == 6 && "created"@.len() == 7 && "owned_by"@.len() == 8);
}

/// The list of models shows each model that there is, as it is shown alone, and
/// no other; where there is none it shows the shim.
pub proof fn lemma_which_models_are_shown(models: Seq<Seq<char>>, created: int)
    ensures
        models_document(models, created).get("object"@) == Some(JsonView::String("list"@)),
        models_document(models, created).get("data"@) matches Some(JsonView::Array(data)) && {
            &&& models.len() > 0 ==> data.len() == models.len()
            &&& forall|i: int| 0 <= i < models.len() ==> #[trigger] data[i] == model_document(models[i], created)
            &&& models.len() == 0 ==> data == seq![model_document("codex-app-server"@, created)]
        },
{
    reveal_strlit("object");
    reveal_strlit("data");
    assert("object"@.len() == 6 && "data"@.len() == 4);
    let data = models_document(models, created).get("data"@)->0->Array_0;
    if models.len() == 0 {
        assert(data =~= seq![model_document("codex-app-server"@, created)]);
    }
}

/// The models are replied with as they are listed, and a failure to list them is
/// told as it is.
pub proof fn lemma_how_models_are_replied(list: JsonView, error: Seq<char>, created: int)
    ensures
        models_reply(Ok(list), created).status == 200,
        models_reply(Ok(list), created).body == printed(models_document(listed_models(list), created)),
        models_reply(Ok(list), created).headers == cors_headers(),
        models_reply(Err(error), created).status == 502,
        models_reply(Err(error), created).body == printed(error_document(error)),
        models_reply(Err(error), created).headers == cors_headers(),
{
}

/// A frame holds the printed document, whole, between the name of its field and
/// a blank line.
pub proof fn lemma_frame_holds_the_document(json: JsonView)
    ensures
        ({
            let frame = sse_frame(json);
            let start = "data: "@.len() as int;
            &&& frame.len() == start + printed(json).len() + 2
            &&& frame.take(start) == "data: "@
            &&& frame.subrange(start, frame.len() - 2) == printed(json)
            &&& frame[frame.len() - 2] == '\n' && frame[frame.len() - 1] == '\n'
        }),
{
    reveal_strlit("data: ");
    reveal_strlit("\n\n");
    let frame = sse_frame(json);
    let start = "data: "@.len() as int;
    assert(frame.take(start) =~= "data: "@);
    assert(frame.subrange(start, frame.len() - 2) =~= printed(json));
    assert(frame[frame.len() - 2] == "\n\n"@[0] && frame[frame.len() - 1] == "\n\n"@[1]);
}

/// A reply is seen with its status, its headers and its body.
pub proof fn lemma_reply_is_seen_whole(reply: HttpReply)
    ensures
        reply@.status == reply.status,
        reply@.headers == reply.headers.deep_view(),
        reply@.body == reply.body@,
{
}

} // verus!
