//! The client side of the connection to the Codex app server.

use std::collections::HashMap;

use vstd::prelude::*;

use crate::events::{lemma_text_of_one_part, message_id, parse_id, parts_text};
use crate::json::{Json, JsonView, NumberView, printable};
use crate::messages::{
    error_message, line_of, notification_message, request_message, response_message, send_message,
    send_notification, send_request, single_line,
};
use crate::text::{blank, is_blank};
use crate::tools::{handle_server_request, server_reply};
use crate::value::{parsed_text, printed, read_text_with_member};

verus! {

broadcast use vstd::std_specs::hash::group_hash_axioms;

/// A call of the app server.
#[derive(Debug)]
pub enum CodexCall {
    /// Opens the connection, in the name of Jan of a version.
    Initialize { version: String },
    /// Asks for the models.
    ListModels,
    /// Takes up a thread again.
    ResumeThread { thread_id: String },
    /// Opens a thread.
    StartThread { model: Option<String>, approval_policy: String },
    /// Opens a turn of a thread with what the user says.
    StartTurn { thread_id: String, input: String, approval_policy: String, model: Option<String> },
}

/// A call of the app server, by its texts.
pub enum CallView {
    Initialize { version: Seq<char> },
    ListModels,
    ResumeThread { thread_id: Seq<char> },
    StartThread { model: Option<Seq<char>>, approval_policy: Seq<char> },
    StartTurn { thread_id: Seq<char>, input: Seq<char>, approval_policy: Seq<char>, model: Option<Seq<char>> },
}

impl CallView {
    /// The name of the method that is called.
    pub open spec fn method(self) -> Seq<char> {
        match self {
            CallView::Initialize { .. } => "initialize"@,
            CallView::ListModels => "model/list"@,
            CallView::ResumeThread { .. } => "thread/resume"@,
            CallView::StartThread { .. } => "thread/start"@,
            CallView::StartTurn { .. } => "turn/start"@,
        }
    }

    /// The parameters of the call.
    pub open spec fn params(self) -> JsonView {
        match self {
            CallView::Initialize { version } => JsonView::object().with(
                "clientInfo"@,
                JsonView::object().with("name"@, JsonView::String("jan"@)).with(
                    "title"@,
                    JsonView::String("Jan Desktop"@),
                ).with("version"@, JsonView::String(version)),
            ),
            CallView::ListModels => JsonView::object(),
            CallView::ResumeThread { thread_id } => JsonView::object().with(
                "threadId"@,
                JsonView::String(thread_id),
            ),
            CallView::StartThread { model, approval_policy } => with_model(JsonView::object(), model).with(
                "approvalPolicy"@,
                JsonView::String(approval_policy),
            ),
            CallView::StartTurn { thread_id, input, approval_policy, model } => with_model(
                JsonView::object().with("threadId"@, JsonView::String(thread_id)).with(
                    "input"@,
                    JsonView::Array(
                        seq![
                            JsonView::object().with("type"@, JsonView::String("text"@)).with(
                                "text"@,
                                JsonView::String(input),
                            ),
                        ],
                    ),
                ).with("approvalPolicy"@, JsonView::String(approval_policy)),
                model,
            ),
        }
    }
}

/// Parameters with a model named in them, where there is one to name.
pub open spec fn with_model(params: JsonView, model: Option<Seq<char>>) -> JsonView {
    match model {
        Some(id) => params.with("model"@, JsonView::String(id)),
        None => params,
    }
}

fn name_model(params: Json, model: &Option<String>) -> (r: Json)
    ensures
        r@ == with_model(params@, model.deep_view()),
        printable(params) ==> printable(r),
{
    match model {
        Some(id) => params.with("model", Json::string(id.as_str())),
        None => params,
    }
}

impl View for CodexCall {
    type V = CallView;

    open spec fn view(&self) -> CallView {
        match *self {
            CodexCall::Initialize { version } => CallView::Initialize { version: version@ },
            CodexCall::ListModels => CallView::ListModels,
            CodexCall::ResumeThread { thread_id } => CallView::ResumeThread { thread_id: thread_id@ },
            CodexCall::StartThread { model, approval_policy } => CallView::StartThread {
                model: model.deep_view(),
                approval_policy: approval_policy@,
            },
            CodexCall::StartTurn { thread_id, input, approval_policy, model } => CallView::StartTurn {
                thread_id: thread_id@,
                input: input@,
                approval_policy: approval_policy@,
                model: model.deep_view(),
            },
        }
    }
}

impl CodexCall {
    /// The name of the method that is called.
    pub fn method(&self) -> (r: &'static str)
        ensures
            r@ == self@.method(),
    {
        match self {
            CodexCall::Initialize { .. } => "initialize",
            CodexCall::ListModels => "model/list",
            CodexCall::ResumeThread { .. } => "thread/resume",
            CodexCall::StartThread { .. } => "thread/start",
            CodexCall::StartTurn { .. } => "turn/start",
        }
    }

    /// The parameters of the call.
    pub fn params(&self) -> (r: Json)
        ensures
            r@ == self@.params(),
            printable(r),
    {
        match self {
            CodexCall::Initialize { version } => {
                let client_info: Json = Json::object().with("name", Json::string("jan")).with(
                    "title",
                    Json::string("Jan Desktop"),
                ).with("version", Json::string(version.as_str()));
                Json::object().with("clientInfo", client_info)
            },
            CodexCall::ListModels => Json::object(),
            CodexCall::ResumeThread { thread_id } => {
                Json::object().with("threadId", Json::string(thread_id.as_str()))
            },
            CodexCall::StartThread { model, approval_policy } => {
                name_model(Json::object(), model).with("approvalPolicy", Json::string(approval_policy.as_str()))
            },
            CodexCall::StartTurn { thread_id, input, approval_policy, model } => {
                let part: Json = Json::object().with("type", Json::string("text")).with(
                    "text",
                    Json::string(input.as_str()),
                );
                let params: Json = Json::object().with("threadId", Json::string(thread_id.as_str())).with(
                    "input",
                    Json::singleton(part),
                ).with("approvalPolicy", Json::string(approval_policy.as_str()));
                name_model(params, model)
            },
        }
    }
}

/// The requests that wait for a reply, each with the waiter that the reply goes
/// to, and the id that the next request gets.
pub struct CodexRpc<W> {
    next_id: u64,
    pending: HashMap<u64, W>,
}

/// What a connection remembers.
pub struct RpcView<W> {
    pub next_id: u64,
    pub pending: Map<u64, W>,
}

impl<W> RpcView<W> {
    /// The connection once the next request is under way with its waiter.
    pub open spec fn requested(self, waiter: W) -> RpcView<W> {
        RpcView {
            next_id: if self.next_id == u64::MAX {
                0
            } else {
                (self.next_id + 1) as u64
            },
            pending: self.pending.insert(self.next_id, waiter),
        }
    }

    /// The connection once a request waits no longer.
    pub open spec fn settled(self, id: u64) -> RpcView<W> {
        RpcView { next_id: self.next_id, pending: self.pending.remove(id) }
    }

    /// The waiter of a request, where it waits.
    pub open spec fn waiter(self, id: u64) -> Option<W> {
        if self.pending.dom().contains(id) {
            Some(self.pending[id])
        } else {
            None
        }
    }
}

impl<W> View for CodexRpc<W> {
    type V = RpcView<W>;

    closed spec fn view(&self) -> RpcView<W> {
        RpcView { next_id: self.next_id, pending: self.pending@ }
    }
}

impl<W> CodexRpc<W> {
    /// A connection on which no request was made. The first request gets the
    /// id one.
    pub fn new() -> (r: CodexRpc<W>)
        ensures
            r@ == (RpcView::<W> { next_id: 1, pending: Map::empty() }),
    {
        CodexRpc { next_id: 1, pending: HashMap::new() }
    }

    /// Makes a request: gives its id, under which the waiter is kept, and the
    /// line to send. Ids count up and start over at zero after the last.
    pub fn request(&mut self, call: &CodexCall, waiter: W) -> (r: (u64, String))
        ensures
            r.0 == old(self)@.next_id,
            r.1@ == line_of(request_message(r.0, call@.method(), call@.params())),
            single_line(r.1@),
            final(self)@ == old(self)@.requested(waiter),
    {
        let id: u64 = self.next_id;
        self.next_id = if id == u64::MAX {
            0
        } else {
            id + 1
        };
        self.pending.insert(id, waiter);
        let payload: Json = send_request(id, call.method(), call.params());
        (id, send_message(&payload))
    }

    /// Ends the wait for the reply to a request, because the reply came or
    /// because the request could not be sent, and hands out the waiter.
    pub fn settle(&mut self, id: u64) -> (r: Option<W>)
        ensures
            r == old(self)@.waiter(id),
            final(self)@ == old(self)@.settled(id),
    {
        let waiter: Option<W> = self.pending.remove(&id);
        proof {
            if waiter is None {
                assert(old(self)@.pending.remove(id) == old(self)@.pending);
            }
        }
        waiter
    }
}

/// A request is answered once: its own id finds the waiter that it was made
/// with, and after that finds none.
pub proof fn lemma_reply_reaches_its_waiter_once<W>(rpc: RpcView<W>, waiter: W)
    ensures
        rpc.requested(waiter).waiter(rpc.next_id) == Some(waiter),
        rpc.requested(waiter).settled(rpc.next_id).waiter(rpc.next_id) is None,
{
}

/// A request that could not be sent leaves nothing behind but its id, which is
/// used up.
pub proof fn lemma_unsent_request_leaves_no_waiter<W>(rpc: RpcView<W>, waiter: W)
    requires
        rpc.waiter(rpc.next_id) is None,
    ensures
        rpc.requested(waiter).settled(rpc.next_id).pending == rpc.pending,
{
    assert(rpc.pending.insert(rpc.next_id, waiter).remove(rpc.next_id) == rpc.pending);
}

/// A request leaves the waiters of all other requests where they are, when it
/// is made and when it is settled.
pub proof fn lemma_requests_do_not_mix<W>(rpc: RpcView<W>, waiter: W, other: u64)
    requires
        other != rpc.next_id,
    ensures
        rpc.requested(waiter).waiter(other) == rpc.waiter(other),
        rpc.settled(rpc.next_id).waiter(other) == rpc.waiter(other),
{
}

/// The ids of the requests that wait are all below the next one, as long as the
/// ids have not started over; so no request takes the place of another.
pub open spec fn ids_in_order<W>(rpc: RpcView<W>) -> bool {
    forall|id: u64| #[trigger] rpc.pending.dom().contains(id) ==> id < rpc.next_id
}

/// Until the ids start over, every request gets an id that no other request
/// waits under: it is so on a new connection, and stays so whatever requests are
/// made or settled.
pub proof fn lemma_ids_are_fresh<W>(rpc: RpcView<W>, waiter: W, settled: u64)
    requires
        ids_in_order(rpc),
    ensures
        ids_in_order(RpcView::<W> { next_id: 1, pending: Map::empty() }),
        rpc.waiter(rpc.next_id) is None,
        rpc.next_id < u64::MAX ==> ids_in_order(rpc.requested(waiter)),
        ids_in_order(rpc.settled(settled)),
{
}

/// The line that tells the app server that the connection is open.
pub fn initialized_line() -> (line: String)
    ensures
        line@ == line_of(notification_message("initialized"@, None)),
        single_line(line@),
{
    let payload: Json = send_notification("initialized", None);
    send_message(&payload)
}

/// Takes the reply to the call that opens the connection: gives the line that
/// tells the app server that the connection is open, or the error of the call.
pub fn initialize_replied(result: Result<Json, String>) -> (r: Result<String, String>)
    ensures
        match (result, r) {
            (Ok(_), Ok(line)) => {
                &&& line@ == line_of(notification_message("initialized"@, None))
                &&& single_line(line@)
            },
            (Err(error), Err(told)) => told@ == error@,
            _ => false,
        },
{
    match result {
        Ok(_) => Ok(initialized_line()),
        Err(error) => Err(error),
    }
}

/// What comes of the wait for a reply: the reply, or an error where the wait
/// was called off.
pub open spec fn outcome(received: Option<Result<JsonView, Seq<char>>>) -> Result<JsonView, Seq<char>> {
    match received {
        Some(reply) => reply,
        None => Err("Codex app server request canceled"@),
    }
}

/// A reply, by its contents.
pub open spec fn reply_view(reply: Result<Json, String>) -> Result<JsonView, Seq<char>> {
    match reply {
        Ok(result) => Ok(result@),
        Err(error) => Err(error@),
    }
}

/// What comes of the wait for a reply.
pub fn request_outcome(received: Option<Result<Json, String>>) -> (r: Result<Json, String>)
    ensures
        reply_view(r) == outcome(
            match received {
                Some(reply) => Some(reply_view(reply)),
                None => None,
            },
        ),
{
    match received {
        Some(reply) => reply,
        None => Err("Codex app server request canceled".to_string()),
    }
}

/// What a line of the app server is.
#[derive(Debug)]
pub enum Incoming {
    /// Nothing that is acted on.
    Nothing,
    /// A request, to be replied to.
    Request { id: u64, method: String, message: Json },
    /// A notification, for whoever listens.
    Notification(Json),
    /// The reply to a request of the shim.
    Reply { id: u64, reply: Result<Json, String> },
}

/// What a line of the app server is, by its contents.
pub enum IncomingView {
    Nothing,
    Request { id: u64, method: Seq<char>, message: JsonView },
    Notification(JsonView),
    Reply { id: u64, reply: Result<JsonView, Seq<char>> },
}

impl View for Incoming {
    type V = IncomingView;

    open spec fn view(&self) -> IncomingView {
        match *self {
            Incoming::Nothing => IncomingView::Nothing,
            Incoming::Request { id, method, message } => IncomingView::Request {
                id,
                method: method@,
                message: message@,
            },
            Incoming::Notification(message) => IncomingView::Notification(message@),
            Incoming::Reply { id, reply } => IncomingView::Reply { id, reply: reply_view(reply) },
        }
    }
}

/// What a message is. A message with a method is a request where it has an id
/// and a notification where it has none. A message without a method is a reply
/// where it has an id: an error where there is one, by its text, and else the
/// result, which is null where it is left out.
pub open spec fn routed(message: JsonView, error_text: Option<Seq<char>>) -> IncomingView {
    let id = message_id(message.get("id"@));
    match message.get_str("method"@) {
        Some(method) => match id {
            Some(id) => IncomingView::Request { id, method, message },
            None => IncomingView::Notification(message),
        },
        None => match id {
            Some(id) => IncomingView::Reply {
                id,
                reply: match error_text {
                    Some(text) => Err(text),
                    None => Ok(message.get("result"@).unwrap_or(JsonView::Null)),
                },
            },
            None => IncomingView::Nothing,
        },
    }
}

/// A message of the app server that names a method is never taken for a reply,
/// so no request of the shim is settled by it; and a message without a method
/// is never replied to.
pub proof fn lemma_requests_are_no_replies(message: JsonView, error_text: Option<Seq<char>>)
    ensures
        routed(message, error_text) is Reply ==> message.get_str("method"@) is None,
        routed(message, error_text) is Request ==> message.get_str("method"@) is Some,
        routed(message, error_text) is Reply <==> message.get_str("method"@) is None && message_id(
            message.get("id"@),
        ) is Some,
{
}

/// The result or the error that the app server gives to a request is a reply
/// under the id of the request, an error by its text; and that id finds the waiter that the request was made with,
/// whatever is asked and settled under other ids meanwhile.
pub proof fn lemma_reply_comes_home<W>(
    rpc: RpcView<W>,
    waiter: W,
    result: JsonView,
    code: int,
    message: Seq<char>,
    text: Seq<char>,
    other: u64,
    late: W,
)
    requires
        other != rpc.next_id,
        rpc.next_id < u64::MAX,
    ensures
        routed(response_message(rpc.next_id, result), None) == (IncomingView::Reply {
            id: rpc.next_id,
            reply: Ok(result),
        }),
        routed(error_message(rpc.next_id, code, message), Some(text)) == (IncomingView::Reply {
            id: rpc.next_id,
            reply: Err(text),
        }),
        rpc.requested(waiter).requested(late).settled(other).waiter(rpc.next_id) == Some(waiter),
{
    reveal_strlit("id");
    reveal_strlit("result");
    reveal_strlit("method");
    assert("id"@.len() == 2 && "result"@.len() == 6);
    reveal_strlit("error");
    assert("error"@.len() == 5);
    assert("method"@[0] == 'm' && "result"@[0] == 'r');
}

/// What a message is, given the text of its error, where it has one.
pub fn route_message(message: Json, error_text: Option<String>) -> (r: Incoming)
    ensures
        r@ == routed(message@, error_text.deep_view()),
{
    let id: Option<u64> = parse_id(message.get("id"));
    let method: Option<String> = match message.get_str("method") {
        Some(method) => Some(method.to_string()),
        None => None,
    };
    if let Some(method) = method {
        return match id {
            Some(id) => Incoming::Request { id, method, message },
            None => Incoming::Notification(message),
        };
    }
    match id {
        Some(id) => {
            let reply: Result<Json, String> = match error_text {
                Some(text) => Err(text),
                None => match message.into_member("result") {
                    Some(result) => Ok(result),
                    None => Ok(Json::Null),
                },
            };
            Incoming::Reply { id, reply }
        },
        None => Incoming::Nothing,
    }
}

/// What a line is: nothing where it is blank or no JSON, and else what its
/// message is.
pub open spec fn line_meaning(line: Seq<char>) -> IncomingView {
    if blank(line) {
        IncomingView::Nothing
    } else {
        match parsed_text(line) {
            Some(message) => routed(
                message,
                match message.get("error"@) {
                    Some(error) => Some(printed(error)),
                    None => None,
                },
            ),
            None => IncomingView::Nothing,
        }
    }
}

/// Reads a line of the app server.
pub fn read_line(line: &str) -> (r: Incoming)
    ensures
        r@ == line_meaning(line@),
{
    if is_blank(line) {
        return Incoming::Nothing;
    }
    match read_text_with_member(line, "error") {
        Some((message, error_text)) => route_message(message, error_text),
        None => Incoming::Nothing,
    }
}

/// The line that replies to a request of the app server.
pub fn server_request_reply(id: u64, method: &str, message: &Json, tool_mode: &str) -> (line: String)
    ensures
        line@ == line_of(server_reply(id, method@, message@, tool_mode@)),
        single_line(line@),
{
    let payload: Json = handle_server_request(id, method, message, tool_mode);
    send_message(&payload)
}

/// A request waits under the id that was next, and the ids go up by one; what is
/// settled waits no longer. Nothing else changes.
pub proof fn lemma_what_a_connection_remembers<W>(rpc: RpcView<W>, waiter: W, id: u64)
    ensures
        rpc.next_id < u64::MAX ==> rpc.requested(waiter).next_id == rpc.next_id + 1,
        rpc.next_id == u64::MAX ==> rpc.requested(waiter).next_id == 0,
        rpc.requested(waiter).pending == rpc.pending.insert(rpc.next_id, waiter),
        rpc.settled(id).next_id == rpc.next_id,
        rpc.settled(id).pending == rpc.pending.remove(id),
        rpc.pending.dom().contains(id) ==> rpc.waiter(id) == Some(rpc.pending[id]),
        !rpc.pending.dom().contains(id) ==> rpc.waiter(id) is None,
{
}

/// What comes of a wait is the reply as it came, and an error where none came.
pub proof fn lemma_outcome_is_the_reply(reply: Result<JsonView, Seq<char>>)
    ensures
        outcome(Some(reply)) == reply,
        outcome(None) == Err::<JsonView, Seq<char>>("Codex app server request canceled"@),
{
}

/// The calls go to different methods.
pub proof fn lemma_methods_that_are_called(version: Seq<char>, id: Seq<char>, text: Seq<char>, model: Option<Seq<char>>)
    ensures
        (CallView::Initialize { version }).method() == "initialize"@,
        CallView::ListModels.method() == "model/list"@,
        (CallView::ResumeThread { thread_id: id }).method() == "thread/resume"@,
        (CallView::StartThread { model, approval_policy: text }).method() == "thread/start"@,
        (CallView::StartTurn { thread_id: id, input: text, approval_policy: text, model }).method()
            == "turn/start"@,
{
}

/// The connection is opened in the name of Jan, with its version; models are
/// asked for without parameters; and a thread is taken up by its id alone.
pub proof fn lemma_what_simple_calls_carry(version: Seq<char>, thread_id: Seq<char>, key: Seq<char>)
    ensures
        (CallView::Initialize { version }).params().get("clientInfo"@) matches Some(info) && {
            &&& info.get("name"@) == Some(JsonView::String("jan"@))
            &&& info.get("title"@) == Some(JsonView::String("Jan Desktop"@))
            &&& info.get("version"@) == Some(JsonView::String(version))
        },
        key != "clientInfo"@ ==> (CallView::Initialize { version }).params().get(key) is None,
        CallView::ListModels.params() == JsonView::object(),
        (CallView::ResumeThread { thread_id }).params().get("threadId"@) == Some(JsonView::String(thread_id)),
        key != "threadId"@ ==> (CallView::ResumeThread { thread_id }).params().get(key) is None,
{
    reveal_strlit("name");
    reveal_strlit("title");
    reveal_strlit("version");
    assert("name"@.len() == 4 && "title"@.len() == 5 && "version"@.len() == 7);
}

proof fn lemma_names_of_parameters_differ()
    ensures
        "threadId"@.len() == 8,
        "input"@.len() == 5 && "input"@[0] == 'i',
        "approvalPolicy"@.len() == 14,
        "model"@.len() == 5 && "model"@[0] == 'm',
        "type"@ != "text"@,
{
    reveal_strlit("threadId");
    reveal_strlit("input");
    reveal_strlit("approvalPolicy");
    reveal_strlit("model");
    reveal_strlit("type");
    reveal_strlit("text");
    assert("type"@[1] == 'y' && "text"@[1] == 'e');
}

/// A thread is opened under the approval policy, with the model where there is
/// one, and with nothing else.
pub proof fn lemma_what_opens_a_thread(model: Option<Seq<char>>, approval_policy: Seq<char>, key: Seq<char>)
    ensures
        ({
            let params = (CallView::StartThread { model, approval_policy }).params();
            &&& params.get("approvalPolicy"@) == Some(JsonView::String(approval_policy))
            &&& model matches Some(id) ==> params.get("model"@) == Some(JsonView::String(id))
            &&& model is None ==> params.get("model"@) is None
            &&& key != "approvalPolicy"@ && key != "model"@ ==> params.get(key) is None
        }),
{
    lemma_names_of_parameters_differ();
}

/// A turn is opened in its thread with the one text that the user says, as it
/// was said, under the approval policy, with the model where there is one, and
/// with nothing else.
pub proof fn lemma_what_opens_a_turn(
    thread_id: Seq<char>,
    input: Seq<char>,
    approval_policy: Seq<char>,
    model: Option<Seq<char>>,
    key: Seq<char>,
)
    ensures
        ({
            let params = (CallView::StartTurn { thread_id, input, approval_policy, model }).params();
            &&& params.get("threadId"@) == Some(JsonView::String(thread_id))
            &&& params.get("approvalPolicy"@) == Some(JsonView::String(approval_policy))
            &&& params.get("input"@) matches Some(JsonView::Array(parts)) && {
                &&& parts.len() == 1
                &&& parts[0].get("type"@) == Some(JsonView::String("text"@))
                &&& parts[0].get("text"@) == Some(JsonView::String(input))
                &&& parts_text(parts) == input
            }
            &&& model matches Some(id) ==> params.get("model"@) == Some(JsonView::String(id))
            &&& model is None ==> params.get("model"@) is None
            &&& key != "threadId"@ && key != "input"@ && key != "approvalPolicy"@ && key != "model"@ ==> params.get(
                key,
            ) is None
        }),
{
    lemma_names_of_parameters_differ();
    let part = JsonView::object().with("type"@, JsonView::String("text"@)).with("text"@, JsonView::String(input));
    lemma_text_of_one_part(part, input);
    assert(part.get("type"@) == Some(JsonView::String("text"@)));
}

/// A message that names a method is a request where its id can be read, under
/// that id, and a notification where it cannot, with the message as it is,
/// whatever else the message holds.
pub proof fn lemma_messages_with_a_method(
    message: JsonView,
    method: Seq<char>,
    error_text: Option<Seq<char>>,
    id: u64,
)
    requires
        message.get("method"@) == Some(JsonView::String(method)),
    ensures
        message_id(message.get("id"@)) == Some(id) ==> routed(message, error_text) == (IncomingView::Request {
            id,
            method,
            message,
        }),
        message_id(message.get("id"@)) is None ==> routed(message, error_text) == IncomingView::Notification(message),
        message.get("id"@) is None ==> routed(message, error_text) == IncomingView::Notification(message),
        message.get("id"@) == Some(JsonView::Number(NumberView::Unsigned(id))) ==> routed(message, error_text) == (
        IncomingView::Request { id, method, message }),
{
}

/// A message that names no method is a reply where its id can be read, under
/// that id: an error where there is one, by its text, and else the result as it
/// is, or null where it has none. Where its id cannot be read it is nothing.
pub proof fn lemma_messages_without_a_method(
    message: JsonView,
    error_text: Option<Seq<char>>,
    id: u64,
    result: JsonView,
)
    requires
        message.get_str("method"@) is None,
    ensures
        message_id(message.get("id"@)) == Some(id) ==> {
            &&& error_text matches Some(text) ==> routed(message, error_text) == (IncomingView::Reply {
                id,
                reply: Err(text),
            })
            &&& error_text is None && message.get("result"@) == Some(result) ==> routed(message, error_text) == (
            IncomingView::Reply { id, reply: Ok(result) })
            &&& error_text is None && message.get("result"@) is None ==> routed(message, error_text) == (
            IncomingView::Reply { id, reply: Ok(JsonView::Null) })
        },
        message_id(message.get("id"@)) is None ==> routed(message, error_text) is Nothing,
{
}

/// A line with a message on it is what the message is, with the error of the
/// message, if it has one, printed; a blank line, and one that is no JSON, is
/// nothing.
pub proof fn lemma_lines_carry_messages(line: Seq<char>, message: JsonView, error: JsonView)
    ensures
        !blank(line) && parsed_text(line) == Some(message) ==> {
            &&& message.get("error"@) == Some(error) ==> line_meaning(line) == routed(message, Some(printed(error)))
            &&& message.get("error"@) is None ==> line_meaning(line) == routed(message, None)
        },
        blank(line) ==> line_meaning(line) is Nothing,
        parsed_text(line) is None ==> line_meaning(line) is Nothing,
{
}

/// Calls and replies are seen with every text that they hold.
pub proof fn lemma_calls_and_replies_are_seen_whole(call: CodexCall, reply: Result<Json, String>)
    ensures
        call matches CodexCall::Initialize { version } ==> call@ == (CallView::Initialize { version: version@ }),
        call is ListModels ==> call@ is ListModels,
        call matches CodexCall::ResumeThread { thread_id } ==> call@ == (CallView::ResumeThread {
            thread_id: thread_id@,
        }),
        call matches CodexCall::StartThread { model, approval_policy } ==> call@ == (CallView::StartThread {
            model: model.deep_view(),
            approval_policy: approval_policy@,
        }),
        call matches CodexCall::StartTurn { thread_id, input, approval_policy, model } ==> call@ == (
        CallView::StartTurn {
            thread_id: thread_id@,
            input: input@,
            approval_policy: approval_policy@,
            model: model.deep_view(),
        }),
        reply matches Ok(result) ==> reply_view(reply) == Ok::<JsonView, Seq<char>>(result@),
        reply matches Err(error) ==> reply_view(reply) == Err::<JsonView, Seq<char>>(error@),
{
}

/// What a line is, is seen with all that it holds.
pub proof fn lemma_incoming_is_seen_whole(incoming: Incoming)
    ensures
        incoming is Nothing ==> incoming@ is Nothing,
        incoming matches Incoming::Request { id, method, message } ==> incoming@ == (IncomingView::Request {
            id,
            method: method@,
            message: message@,
        }),
        incoming matches Incoming::Notification(message) ==> incoming@ == IncomingView::Notification(message@),
        incoming matches Incoming::Reply { id, reply } ==> incoming@ == (IncomingView::Reply {
            id,
            reply: reply_view(reply),
        }),
{
}

} // verus!
