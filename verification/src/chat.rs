//! A chat request, from its bytes to the turn that answers it.

use vstd::prelude::*;

use crate::config::{ConfigView, pick_model_id, picked_model};
use crate::events::{
    extract_thread_id, extract_turn_id, extract_user_message, lemma_last_user_message_counts, or_else, thread_id_of,
    turn_id_of, user_message, user_speaks,
};
use crate::http::{
    HttpReply, ReplyView, bad_gateway, cors_reply, error_reply, error_response, models_reply, sse_frame,
};
use crate::ids::{created_now, new_response_id, stream_id};
use crate::json::{Json, JsonView};
use crate::rpc::{CallView, CodexCall, reply_view};
use crate::state::{CodexShimState, StateView};
use crate::text::{blank, is_blank};
use crate::tools::{approval_policy, policy};
use crate::turn::{
    ChunkHead, HeadView, OutputView, ReceivedView, StreamView, Turn, TurnOutput, TurnStream, TurnView,
    completion_document, completion_response, joined, lemma_output_is_the_deltas, lemma_stream_carries_the_output,
    non_empty,
};
use crate::value::{parsed_bytes, printed, read_bytes};

verus! {

/// The header that names the Jan thread of a chat request.
pub const THREAD_ID_HEADER: &'static str = "x-jan-thread-id";

/// A chat request.
#[derive(Debug)]
pub struct ChatRequest {
    /// The Jan thread that the request belongs to, where it names one.
    pub jan_thread_id: Option<String>,
    /// Whether the answer is to be streamed.
    pub streaming: bool,
    /// The model that the request names.
    pub requested_model: Option<String>,
    /// What the user says.
    pub user_message: String,
}

/// A chat request, by its texts.
pub struct RequestView {
    pub jan_thread_id: Option<Seq<char>>,
    pub streaming: bool,
    pub requested_model: Option<Seq<char>>,
    pub user_message: Seq<char>,
}

impl View for ChatRequest {
    type V = RequestView;

    open spec fn view(&self) -> RequestView {
        RequestView {
            jan_thread_id: self.jan_thread_id.deep_view(),
            streaming: self.streaming,
            requested_model: self.requested_model.deep_view(),
            user_message: self.user_message@,
        }
    }
}

/// What a document asks for as a chat request. An answer is streamed unless the
/// request says that it is not to be.
pub open spec fn request_of(json: JsonView, jan_thread_id: Option<Seq<char>>) -> RequestView {
    RequestView {
        jan_thread_id,
        streaming: match json.get("stream"@) {
            Some(stream) => stream.as_bool().unwrap_or(true),
            None => true,
        },
        requested_model: json.get_str("model"@),
        user_message: user_message(json),
    }
}

/// What comes of a document that asks for a chat: the request, or a reply that
/// turns it down because the user says nothing.
pub open spec fn opened(json: JsonView, jan_thread_id: Option<Seq<char>>) -> Result<RequestView, ReplyView> {
    let request = request_of(json, jan_thread_id);
    if blank(request.user_message) {
        Err(error_reply(400, "No user message provided."@))
    } else {
        Ok(request)
    }
}

/// A result by the contents of what it holds.
pub open spec fn opened_view(r: Result<ChatRequest, HttpReply>) -> Result<RequestView, ReplyView> {
    match r {
        Ok(request) => Ok(request@),
        Err(reply) => Err(reply@),
    }
}

/// Reads a chat request out of a document.
pub fn read_chat_request(request_json: &Json, jan_thread_id: Option<String>) -> (r: Result<ChatRequest, HttpReply>)
    ensures
        opened_view(r) == opened(request_json@, jan_thread_id.deep_view()),
{
    let streaming: bool = match request_json.get("stream") {
        Some(stream) => match stream.as_bool() {
            Some(b) => b,
            None => true,
        },
        None => true,
    };
    let requested_model: Option<String> = match request_json.get_str("model") {
        Some(model) => Some(model.to_string()),
        None => None,
    };
    let user_message: String = extract_user_message(request_json);
    if is_blank(user_message.as_str()) {
        return Err(error_response(400, "No user message provided."));
    }
    Ok(ChatRequest { jan_thread_id, streaming, requested_model, user_message })
}

/// Reads a chat request out of the body of an HTTP request. A body that is no
/// JSON is read as null.
pub fn open_chat(body: &[u8], jan_thread_id: Option<String>) -> (r: Result<ChatRequest, HttpReply>)
    ensures
        opened_view(r) == opened(parsed_bytes(body@).unwrap_or(JsonView::Null), jan_thread_id.deep_view()),
{
    let request_json: Json = read_bytes(body);
    read_chat_request(&request_json, jan_thread_id)
}

/// A request whose body is no JSON is turned down, for nobody says anything in
/// it.
pub proof fn lemma_unreadable_request_is_turned_down(jan_thread_id: Option<Seq<char>>)
    ensures
        opened(JsonView::Null, jan_thread_id) == Err::<RequestView, ReplyView>(
            error_reply(400, "No user message provided."@),
        ),
{
}

/// What a turn is opened with, whatever its thread.
#[derive(Debug)]
pub struct TurnPlan {
    pub jan_thread_id: Option<String>,
    pub streaming: bool,
    pub input: String,
    pub model_id: Option<String>,
    pub approval_policy: String,
}

/// What a turn is opened with, by its texts.
pub struct PlanView {
    pub jan_thread_id: Option<Seq<char>>,
    pub streaming: bool,
    pub input: Seq<char>,
    pub model_id: Option<Seq<char>>,
    pub approval_policy: Seq<char>,
}

impl View for TurnPlan {
    type V = PlanView;

    open spec fn view(&self) -> PlanView {
        PlanView {
            jan_thread_id: self.jan_thread_id.deep_view(),
            streaming: self.streaming,
            input: self.input@,
            model_id: self.model_id.deep_view(),
            approval_policy: self.approval_policy@,
        }
    }
}

/// What a request's turn is opened with under the settings.
pub open spec fn planned(request: RequestView, config: ConfigView) -> PlanView {
    PlanView {
        jan_thread_id: request.jan_thread_id,
        streaming: request.streaming,
        input: request.user_message,
        model_id: picked_model(config.model_id, request.requested_model),
        approval_policy: policy(config.tool_mode),
    }
}

impl PlanView {
    /// The call that opens a thread for the turn.
    pub open spec fn start_call(self) -> CallView {
        CallView::StartThread { model: self.model_id, approval_policy: self.approval_policy }
    }
}

impl TurnPlan {
    /// The call that opens a thread for the turn.
    pub fn start_call(&self) -> (r: CodexCall)
        ensures
            r@ == self@.start_call(),
    {
        CodexCall::StartThread { model: self.model_id.clone(), approval_policy: self.approval_policy.clone() }
    }
}

/// A turn that is to be opened in a thread.
#[derive(Debug)]
pub struct OpenTurn {
    pub plan: TurnPlan,
    pub thread_id: String,
}

/// A turn that is to be opened, by its contents.
pub struct OpenTurnView {
    pub plan: PlanView,
    pub thread_id: Seq<char>,
}

impl View for OpenTurn {
    type V = OpenTurnView;

    open spec fn view(&self) -> OpenTurnView {
        OpenTurnView { plan: self.plan@, thread_id: self.thread_id@ }
    }
}

impl OpenTurnView {
    /// The call that takes up the thread of the turn again.
    pub open spec fn resume_call(self) -> CallView {
        CallView::ResumeThread { thread_id: self.thread_id }
    }

    /// The call that opens the turn.
    pub open spec fn turn_call(self) -> CallView {
        CallView::StartTurn {
            thread_id: self.thread_id,
            input: self.plan.input,
            approval_policy: self.plan.approval_policy,
            model: self.plan.model_id,
        }
    }
}

impl OpenTurn {
    /// The call that takes up the thread of the turn again.
    pub fn resume_call(&self) -> (r: CodexCall)
        ensures
            r@ == self@.resume_call(),
    {
        CodexCall::ResumeThread { thread_id: self.thread_id.clone() }
    }

    /// The call that opens the turn.
    pub fn turn_call(&self) -> (r: CodexCall)
        ensures
            r@ == self@.turn_call(),
    {
        CodexCall::StartTurn {
            thread_id: self.thread_id.clone(),
            input: self.plan.input.clone(),
            approval_policy: self.plan.approval_policy.clone(),
            model: self.plan.model_id.clone(),
        }
    }
}

/// How a request gets to its thread.
#[derive(Debug)]
pub enum ThreadStep {
    /// The thread is taken up again, and the turn opened in it whatever comes of
    /// that.
    Resume(OpenTurn),
    /// A thread has to be opened.
    Start(TurnPlan),
}

/// How a request gets to its thread, by its contents.
pub enum ThreadStepView {
    Resume(OpenTurnView),
    Start(PlanView),
}

impl View for ThreadStep {
    type V = ThreadStepView;

    open spec fn view(&self) -> ThreadStepView {
        match *self {
            ThreadStep::Resume(turn) => ThreadStepView::Resume(turn@),
            ThreadStep::Start(plan) => ThreadStepView::Start(plan@),
        }
    }
}

/// How a request gets to its thread: a Jan thread that has a Codex thread stays
/// with it, and for every other request one is opened.
pub open spec fn thread_step<P>(request: RequestView, state: StateView<P>) -> ThreadStepView {
    let plan = planned(request, state.config);
    match state.thread(request.jan_thread_id) {
        Some(thread_id) => ThreadStepView::Resume(OpenTurnView { plan, thread_id }),
        None => ThreadStepView::Start(plan),
    }
}

/// How a request gets to its thread, once the app server runs.
pub fn start_or_resume_thread<P>(request: ChatRequest, state: &CodexShimState<P>) -> (r: ThreadStep)
    ensures
        r@ == thread_step(request@, state@),
{
    let existing: Option<String> = match &request.jan_thread_id {
        Some(jan_id) => match state.thread_map.get(jan_id.as_str()) {
            Some(thread_id) => Some(thread_id.clone()),
            None => None,
        },
        None => None,
    };
    let plan: TurnPlan = TurnPlan {
        jan_thread_id: request.jan_thread_id,
        streaming: request.streaming,
        input: request.user_message,
        model_id: pick_model_id(&state.config, request.requested_model),
        approval_policy: approval_policy(state.config.tool_mode.as_str()).to_string(),
    };
    match existing {
        Some(thread_id) => ThreadStep::Resume(OpenTurn { plan, thread_id }),
        None => ThreadStep::Start(plan),
    }
}

/// Takes the reply to the call that takes up a thread again. Whatever it says,
/// the turn is opened in the thread.
pub fn thread_resumed(turn: OpenTurn, _result: Result<Json, String>) -> (r: OpenTurn)
    ensures
        r == turn,
{
    turn
}

/// What comes of the call that opens a thread.
#[derive(Debug)]
pub enum ThreadReply {
    /// The thread is open, and the turn is opened in it.
    Opened(OpenTurn),
    /// The reply names no thread; the event that does is waited for.
    Await(TurnPlan),
    /// The call failed.
    Failed(HttpReply),
}

/// What comes of the call that opens a thread, by its contents.
pub enum ThreadReplyView {
    Opened(OpenTurnView),
    Await(PlanView),
    Failed(ReplyView),
}

impl View for ThreadReply {
    type V = ThreadReplyView;

    open spec fn view(&self) -> ThreadReplyView {
        match *self {
            ThreadReply::Opened(turn) => ThreadReplyView::Opened(turn@),
            ThreadReply::Await(plan) => ThreadReplyView::Await(plan@),
            ThreadReply::Failed(reply) => ThreadReplyView::Failed(reply@),
        }
    }
}

/// What comes of the call that opens a thread.
pub open spec fn thread_reply(plan: PlanView, result: Result<JsonView, Seq<char>>) -> ThreadReplyView {
    match result {
        Ok(json) => match thread_id_of(json) {
            Some(thread_id) => ThreadReplyView::Opened(OpenTurnView { plan, thread_id }),
            None => ThreadReplyView::Await(plan),
        },
        Err(error) => ThreadReplyView::Failed(error_reply(502, error)),
    }
}

/// The state with the thread that a reply opened, remembered for the Jan thread
/// of the plan.
pub open spec fn state_after_reply<P>(state: StateView<P>, reply: ThreadReplyView) -> StateView<P> {
    match reply {
        ThreadReplyView::Opened(turn) => state.with_thread(turn.plan.jan_thread_id, turn.thread_id),
        _ => state,
    }
}

/// Opens the turn of a plan in a thread, which is remembered for the Jan thread
/// of the plan.
fn thread_opened<P>(plan: TurnPlan, thread_id: String, state: &mut CodexShimState<P>) -> (r: OpenTurn)
    ensures
        r@ == (OpenTurnView { plan: plan@, thread_id: thread_id@ }),
        final(state)@ == old(state)@.with_thread(plan@.jan_thread_id, thread_id@),
{
    if let Some(jan_id) = &plan.jan_thread_id {
        state.thread_map.insert(jan_id.clone(), thread_id.clone());
    }
    OpenTurn { plan, thread_id }
}

/// Takes the reply to the call that opens a thread.
pub fn thread_replied<P>(plan: TurnPlan, result: Result<Json, String>, state: &mut CodexShimState<P>) -> (r:
    ThreadReply)
    ensures
        r@ == thread_reply(plan@, reply_view(result)),
        final(state)@ == state_after_reply(old(state)@, r@),
{
    match result {
        Ok(json) => match extract_thread_id(&json) {
            Some(thread_id) => ThreadReply::Opened(thread_opened(plan, thread_id, state)),
            None => ThreadReply::Await(plan),
        },
        Err(error) => ThreadReply::Failed(bad_gateway(error.as_str())),
    }
}

/// What comes of the wait for the event that names a thread.
pub open spec fn awaited(plan: PlanView, thread_id: Option<Seq<char>>) -> Result<OpenTurnView, ReplyView> {
    match thread_id {
        Some(thread_id) => Ok(OpenTurnView { plan, thread_id }),
        None => Err(error_reply(502, "Codex app server did not return threadId"@)),
    }
}

/// A result by the contents of what it holds.
pub open spec fn awaited_view(r: Result<OpenTurn, HttpReply>) -> Result<OpenTurnView, ReplyView> {
    match r {
        Ok(turn) => Ok(turn@),
        Err(reply) => Err(reply@),
    }
}

/// Takes the id of the thread that was waited for, if it came.
pub fn thread_awaited<P>(plan: TurnPlan, thread_id: Option<String>, state: &mut CodexShimState<P>) -> (r: Result<
    OpenTurn,
    HttpReply,
>)
    ensures
        awaited_view(r) == awaited(plan@, thread_id.deep_view()),
        final(state)@ == match r {
            Ok(turn) => state_after_reply(old(state)@, ThreadReplyView::Opened(turn@)),
            Err(_) => old(state)@,
        },
{
    match thread_id {
        Some(thread_id) => Ok(thread_opened(plan, thread_id, state)),
        None => Err(bad_gateway("Codex app server did not return threadId")),
    }
}

/// How long the event that names a thread is waited for, in seconds.
pub const THREAD_STARTED_TIMEOUT_SECS: u64 = 2;

/// A turn that runs.
#[derive(Debug)]
pub struct RunningTurn {
    pub turn: Turn,
    pub model: String,
    pub streaming: bool,
    pub created: u64,
}

/// A turn that runs, by its contents.
pub struct RunningView {
    pub turn: TurnView,
    pub model: Seq<char>,
    pub streaming: bool,
    pub created: u64,
}

impl View for RunningTurn {
    type V = RunningView;

    open spec fn view(&self) -> RunningView {
        RunningView {
            turn: self.turn@,
            model: self.model@,
            streaming: self.streaming,
            created: self.created,
        }
    }
}

/// What comes of the call that opens a turn, at a given time. The answer is
/// given in the name of the model, or of the shim where no model was picked.
pub open spec fn turn_reply(
    open: OpenTurnView,
    result: Result<JsonView, Seq<char>>,
    created: u64,
) -> Result<RunningView, ReplyView> {
    match result {
        Ok(json) => Ok(
            RunningView {
                turn: TurnView { thread_id: open.thread_id, turn_id: turn_id_of(json) },
                model: open.plan.model_id.unwrap_or("codex-app-server"@),
                streaming: open.plan.streaming,
                created,
            },
        ),
        Err(error) => Err(error_reply(502, error)),
    }
}

/// A result by the contents of what it holds.
pub open spec fn running_view(r: Result<RunningTurn, HttpReply>) -> Result<RunningView, ReplyView> {
    match r {
        Ok(running) => Ok(running@),
        Err(reply) => Err(reply@),
    }
}

/// Takes the reply to the call that opens a turn, at a given time.
pub fn turn_replied_at(open: OpenTurn, result: Result<Json, String>, created: u64) -> (r: Result<
    RunningTurn,
    HttpReply,
>)
    ensures
        running_view(r) == turn_reply(open@, reply_view(result), created),
{
    match result {
        Ok(json) => {
            let model: String = match open.plan.model_id {
                Some(model_id) => model_id,
                None => "codex-app-server".to_string(),
            };
            Ok(
                RunningTurn {
                    turn: Turn { thread_id: open.thread_id, turn_id: extract_turn_id(&json) },
                    model,
                    streaming: open.plan.streaming,
                    created,
                },
            )
        },
        Err(error) => Err(bad_gateway(error.as_str())),
    }
}

/// Takes the reply to the call that opens a turn, now.
pub fn turn_replied(open: OpenTurn, result: Result<Json, String>) -> (r: Result<RunningTurn, HttpReply>)
    ensures
        exists|created: u64| created <= i64::MAX && running_view(r) == #[trigger] turn_reply(
            open@,
            reply_view(result),
            created,
        ),
{
    let created: u64 = if result.is_ok() {
        created_now()
    } else {
        0
    };
    turn_replied_at(open, result, created)
}

impl RunningTurn {
    /// The answer of the turn as a stream, under an id.
    pub fn stream_as(self, id: String) -> (r: TurnStream)
        ensures
            r@ == StreamView::fresh(
                self@.turn,
                HeadView { id: id@, created: self@.created, model: self@.model },
            ),
    {
        let head: ChunkHead = ChunkHead { id, created: self.created, model: self.model };
        TurnStream::new(self.turn, head)
    }

    /// The answer of the turn as a stream, under a new id.
    pub fn stream(self) -> (r: TurnStream)
        ensures
            exists|id: Seq<char>| #[trigger]
                stream_id(id) && r@ == StreamView::fresh(
                    self@.turn,
                    HeadView { id, created: self@.created, model: self@.model },
                ),
    {
        self.stream_as(new_response_id())
    }

    /// The answer of the turn, to be gathered, and what it is completed with.
    pub fn gather(self) -> (r: (TurnOutput, Completion))
        ensures
            r.0@ == (OutputView { turn: self@.turn, output: Seq::empty() }),
            r.1.created == self@.created,
            r.1.model@ == self@.model,
    {
        (TurnOutput::new(self.turn), Completion { created: self.created, model: self.model })
    }
}

/// What a gathered answer is completed with.
#[derive(Debug)]
pub struct Completion {
    pub created: u64,
    pub model: String,
}

impl Completion {
    /// The reply that carries the gathered answer.
    pub fn reply(self, answer: TurnOutput) -> (r: HttpReply)
        ensures
            r@ == cors_reply(
                200,
                printed(completion_document(self.created, self.model@, answer@.output)),
            ),
    {
        let content: String = answer.into_output();
        completion_response(self.created, self.model.as_str(), content.as_str())
    }
}

/// A conversation goes on in its thread: once a thread was opened for a Jan
/// thread, every later request of that Jan thread has its turn in the same
/// thread, as long as no other was opened for it, whatever the request says and
/// whatever settings hold by then; and the call that opens the turn names that
/// thread.
pub proof fn lemma_thread_continuity<P>(
    state: StateView<P>,
    first: PlanView,
    thread_id: Seq<char>,
    later: StateView<P>,
    second: RequestView,
)
    requires
        first.jan_thread_id is Some,
        second.jan_thread_id == first.jan_thread_id,
        later.thread(first.jan_thread_id) == state_after_reply(
            state,
            ThreadReplyView::Opened(OpenTurnView { plan: first, thread_id }),
        ).thread(first.jan_thread_id),
    ensures
        thread_step(second, later) == ThreadStepView::Resume(
            OpenTurnView { plan: planned(second, later.config), thread_id },
        ),
        (OpenTurnView { plan: planned(second, later.config), thread_id }).turn_call() == (CallView::StartTurn {
            thread_id,
            input: second.user_message,
            approval_policy: policy(later.config.tool_mode),
            model: picked_model(later.config.model_id, second.requested_model),
        }),
{
}

/// Conversations do not mix: to open a thread for one Jan thread leaves every
/// other Jan thread with the thread that it had, or with none.
pub proof fn lemma_threads_do_not_mix<P>(
    state: StateView<P>,
    opened: OpenTurnView,
    other: RequestView,
)
    requires
        other.jan_thread_id is None || other.jan_thread_id != opened.plan.jan_thread_id,
    ensures
        state_after_reply(state, ThreadReplyView::Opened(opened)).thread(other.jan_thread_id) == state.thread(
            other.jan_thread_id,
        ),
        thread_step(other, state_after_reply(state, ThreadReplyView::Opened(opened))) == thread_step(other, state),
{
}

/// A request that names no Jan thread is remembered nowhere and always gets a
/// thread of its own.
pub proof fn lemma_nameless_requests_start_threads<P>(state: StateView<P>, request: RequestView, thread_id: Seq<char>)
    requires
        request.jan_thread_id is None,
    ensures
        thread_step(request, state) == ThreadStepView::Start(planned(request, state.config)),
        state_after_reply(
            state,
            ThreadReplyView::Opened(OpenTurnView { plan: planned(request, state.config), thread_id }),
        ) == state,
{
}

/// The turn that is opened for a request, or the reply where no thread can be
/// had for it, given what the app server says to the call that opens a thread,
/// and the thread that an event names, if one does. Neither is asked for where
/// the thread is known.
pub open spec fn turn_to_open<P>(
    request: RequestView,
    state: StateView<P>,
    reply: Result<JsonView, Seq<char>>,
    named: Option<Seq<char>>,
) -> Result<OpenTurnView, ReplyView> {
    match thread_step(request, state) {
        ThreadStepView::Resume(open) => Ok(open),
        ThreadStepView::Start(plan) => match thread_reply(plan, reply) {
            ThreadReplyView::Opened(open) => Ok(open),
            ThreadReplyView::Await(plan) => awaited(plan, named),
            ThreadReplyView::Failed(failure) => Err(failure),
        },
    }
}

/// The thread of a request: the one that its Jan thread has, or else the one
/// that the reply names, or else the one that an event names.
pub open spec fn thread_for<P>(
    request: RequestView,
    state: StateView<P>,
    reply: Result<JsonView, Seq<char>>,
    named: Option<Seq<char>>,
) -> Option<Seq<char>> {
    match (state.thread(request.jan_thread_id), reply) {
        (Some(known), _) => Some(known),
        (None, Ok(started)) => or_else(thread_id_of(started), named),
        (None, Err(_)) => None,
    }
}

/// A chat, from its request to its answer, whether its thread is taken up again,
/// named by the reply to the call that opens it, or named by an event. A turn is
/// opened exactly where there is a thread for the request. The call that opens
/// it goes to that thread, with what the user says; and what is gathered or
/// streamed from then on are the texts of that turn of that thread, in their
/// order, given in the name of the model that was picked.
pub proof fn lemma_answer_comes_from_the_thread<P>(
    request: RequestView,
    state: StateView<P>,
    reply: Result<JsonView, Seq<char>>,
    named: Option<Seq<char>>,
    opened: JsonView,
    created: u64,
    id: Seq<char>,
    received: Seq<ReceivedView>,
)
    ensures
        turn_to_open(request, state, reply, named) is Ok <==> thread_for(request, state, reply, named) is Some,
        turn_to_open(request, state, reply, named) matches Ok(open) ==> {
            let thread_id = thread_for(request, state, reply, named)->0;
            let turn = TurnView { thread_id, turn_id: turn_id_of(opened) };
            let picked = picked_model(state.config.model_id, request.requested_model);
            let model = picked.unwrap_or("codex-app-server"@);
            let head = HeadView { id, created, model };
            &&& open == (OpenTurnView { plan: planned(request, state.config), thread_id })
            &&& open.turn_call() == (CallView::StartTurn {
                thread_id,
                input: request.user_message,
                approval_policy: policy(state.config.tool_mode),
                model: picked,
            })
            &&& turn_reply(open, Ok(opened), created) == Ok::<RunningView, ReplyView>(
                RunningView { turn, model, streaming: request.streaming, created },
            )
            &&& (OutputView { turn, output: Seq::empty() }).after_all(received).output == joined(
                turn.deltas(received),
            )
            &&& StreamView::fresh(turn, head).all_frames(received) == seq![sse_frame(head.role_chunk())]
                + head.content_frames(non_empty(turn.deltas(received))) + seq![
                sse_frame(head.finish_chunk()),
                "data: [DONE]\n\n"@,
            ]
        },
        turn_to_open(request, state, reply, named) matches Err(failure) ==> failure == match reply {
            Ok(_) => error_reply(502, "Codex app server did not return threadId"@),
            Err(error) => error_reply(502, error),
        },
{
    if let Some(thread_id) = thread_for(request, state, reply, named) {
        let turn = TurnView { thread_id, turn_id: turn_id_of(opened) };
        let model = picked_model(state.config.model_id, request.requested_model).unwrap_or("codex-app-server"@);
        lemma_output_is_the_deltas(OutputView { turn, output: Seq::empty() }, received);
        assert(Seq::<char>::empty() + joined(turn.deltas(received)) == joined(turn.deltas(received)));
        lemma_stream_carries_the_output(turn, HeadView { id, created, model }, received);
    }
}

/// An error of the app server is told to the client as it is, whichever call
/// gave it.
pub proof fn lemma_app_server_errors_are_told(
    plan: PlanView,
    turn: OpenTurnView,
    error: Seq<char>,
    created: u64,
)
    ensures
        thread_reply(plan, Err(error)) == ThreadReplyView::Failed(error_reply(502, error)),
        turn_reply(turn, Err(error), created) == Err::<RunningView, ReplyView>(error_reply(502, error)),
        models_reply(Err(error), created as int) == error_reply(502, error),
{
}

/// A request is streamed unless it says that it is not to be, names the model
/// that it names, and says what the user says, each as it is; it is turned down
/// exactly where the user says nothing.
pub proof fn lemma_how_a_request_is_read(json: JsonView, jan: Option<Seq<char>>, model: Seq<char>, b: bool)
    ensures
        json.get("stream"@) == Some(JsonView::Bool(b)) ==> request_of(json, jan).streaming == b,
        !(json.get("stream"@) is Some && json.get("stream"@)->0 is Bool) ==> request_of(json, jan).streaming,
        json.get("model"@) == Some(JsonView::String(model)) ==> request_of(json, jan).requested_model == Some(model),
        json.get_str("model"@) is None ==> request_of(json, jan).requested_model is None,
        request_of(json, jan).user_message == user_message(json),
        request_of(json, jan).jan_thread_id == jan,
        blank(user_message(json)) ==> opened(json, jan) == Err::<RequestView, ReplyView>(
            error_reply(400, "No user message provided."@),
        ),
        !blank(user_message(json)) ==> opened(json, jan) == Ok::<RequestView, ReplyView>(request_of(json, jan)),
{
}

/// The last thing that the user says is what the turn is opened with, character
/// for character, in the thread that the request has.
pub proof fn lemma_last_user_message_opens_the_turn<P>(
    json: JsonView,
    jan: Option<Seq<char>>,
    messages: Seq<JsonView>,
    i: int,
    text: Seq<char>,
    state: StateView<P>,
)
    requires
        json.get("messages"@) == Some(JsonView::Array(messages)),
        0 <= i < messages.len(),
        messages[i].get("role"@) == Some(JsonView::String("user"@)),
        messages[i].get("content"@) == Some(JsonView::String(text)),
        forall|j: int| i < j < messages.len() ==> !user_speaks(#[trigger] messages[j]),
        !blank(text),
    ensures
        opened(json, jan) matches Ok(request) && match thread_step(request, state) {
            ThreadStepView::Resume(turn) => turn.plan.input == text && state.thread(jan) == Some(turn.thread_id),
            ThreadStepView::Start(plan) => plan.input == text && state.thread(jan) is None,
        },
{
    lemma_last_user_message_counts(json, messages, i, JsonView::String(text));
}

/// What a turn is opened with comes from the request and the settings, each part
/// as it is.
pub proof fn lemma_what_is_planned(request: RequestView, config: ConfigView)
    ensures
        planned(request, config).jan_thread_id == request.jan_thread_id,
        planned(request, config).streaming == request.streaming,
        planned(request, config).input == request.user_message,
        planned(request, config).model_id == picked_model(config.model_id, request.requested_model),
        planned(request, config).approval_policy == policy(config.tool_mode),
        planned(request, config).start_call() == (CallView::StartThread {
            model: picked_model(config.model_id, request.requested_model),
            approval_policy: policy(config.tool_mode),
        }),
{
}

/// What a turn does with its thread: it is taken up again, and the turn opened,
/// under the id of the thread, with the input of the plan.
pub proof fn lemma_what_a_turn_calls(turn: OpenTurnView)
    ensures
        turn.resume_call() == (CallView::ResumeThread { thread_id: turn.thread_id }),
        turn.turn_call() == (CallView::StartTurn {
            thread_id: turn.thread_id,
            input: turn.plan.input,
            approval_policy: turn.plan.approval_policy,
            model: turn.plan.model_id,
        }),
{
}

/// A thread that was opened is remembered for the Jan thread of its plan, and
/// nothing is remembered where none was opened.
pub proof fn lemma_what_is_remembered<P>(state: StateView<P>, turn: OpenTurnView, plan: PlanView, failure: ReplyView)
    ensures
        turn.plan.jan_thread_id matches Some(jan) ==> state_after_reply(
            state,
            ThreadReplyView::Opened(turn),
        ).thread(Some(jan)) == Some(turn.thread_id),
        state_after_reply(state, ThreadReplyView::Opened(turn)).config == state.config,
        state_after_reply(state, ThreadReplyView::Opened(turn)).port == state.port,
        state_after_reply(state, ThreadReplyView::Opened(turn)).codex == state.codex,
        state_after_reply(state, ThreadReplyView::Await(plan)) == state,
        state_after_reply(state, ThreadReplyView::Failed(failure)) == state,
{
}

/// The call that opens a thread opens the turn in the thread that its reply
/// names; where the reply names none, the thread is waited for, and the turn
/// opened in the one that comes.
pub proof fn lemma_which_thread_is_opened(plan: PlanView, reply: JsonView, id: Seq<char>)
    ensures
        thread_id_of(reply) == Some(id) ==> thread_reply(plan, Ok(reply)) == ThreadReplyView::Opened(
            OpenTurnView { plan, thread_id: id },
        ),
        thread_id_of(reply) is None ==> thread_reply(plan, Ok(reply)) == ThreadReplyView::Await(plan),
        awaited(plan, Some(id)) == Ok::<OpenTurnView, ReplyView>(OpenTurnView { plan, thread_id: id }),
        awaited(plan, None) == Err::<OpenTurnView, ReplyView>(
            error_reply(502, "Codex app server did not return threadId"@),
        ),
{
}

/// The turn that runs is the one that the reply names, in the thread that it was
/// opened in, answered as the plan says, in the name of the model or of the shim.
pub proof fn lemma_what_runs(open: OpenTurnView, reply: JsonView, created: u64, error: Seq<char>)
    ensures
        turn_reply(open, Ok(reply), created) matches Ok(running) && {
            &&& running.turn.thread_id == open.thread_id
            &&& running.turn.turn_id == turn_id_of(reply)
            &&& running.streaming == open.plan.streaming
            &&& running.created == created
            &&& open.plan.model_id matches Some(model) ==> running.model == model
            &&& open.plan.model_id is None ==> running.model == "codex-app-server"@
        },
        turn_reply(open, Err(error), created) == Err::<RunningView, ReplyView>(error_reply(502, error)),
{
}

/// Requests, plans and turns are seen with all that they hold.
pub proof fn lemma_chats_are_seen_whole(
    request: ChatRequest,
    plan: TurnPlan,
    open: OpenTurn,
    running: RunningTurn,
    step: ThreadStep,
    reply: ThreadReply,
)
    ensures
        request@.jan_thread_id == request.jan_thread_id.deep_view(),
        request@.streaming == request.streaming,
        request@.requested_model == request.requested_model.deep_view(),
        request@.user_message == request.user_message@,
        plan@.jan_thread_id == plan.jan_thread_id.deep_view(),
        plan@.streaming == plan.streaming,
        plan@.input == plan.input@,
        plan@.model_id == plan.model_id.deep_view(),
        plan@.approval_policy == plan.approval_policy@,
        open@.plan == open.plan@,
        open@.thread_id == open.thread_id@,
        running@.turn == running.turn@,
        running@.model == running.model@,
        running@.streaming == running.streaming,
        running@.created == running.created,
        step matches ThreadStep::Resume(turn) ==> step@ == ThreadStepView::Resume(turn@),
        step matches ThreadStep::Start(start) ==> step@ == ThreadStepView::Start(start@),
        reply matches ThreadReply::Opened(turn) ==> reply@ == ThreadReplyView::Opened(turn@),
        reply matches ThreadReply::Await(waiting) ==> reply@ == ThreadReplyView::Await(waiting@),
        reply matches ThreadReply::Failed(failure) ==> reply@ == ThreadReplyView::Failed(failure@),
{
}

/// Results are seen by what they hold.
pub proof fn lemma_results_are_seen_whole(
    request: Result<ChatRequest, HttpReply>,
    open: Result<OpenTurn, HttpReply>,
    running: Result<RunningTurn, HttpReply>,
)
    ensures
        request matches Ok(read) ==> opened_view(request) == Ok::<RequestView, ReplyView>(read@),
        request matches Err(failure) ==> opened_view(request) == Err::<RequestView, ReplyView>(failure@),
        open matches Ok(turn) ==> awaited_view(open) == Ok::<OpenTurnView, ReplyView>(turn@),
        open matches Err(failure) ==> awaited_view(open) == Err::<OpenTurnView, ReplyView>(failure@),
        running matches Ok(turn) ==> running_view(running) == Ok::<RunningView, ReplyView>(turn@),
        running matches Err(failure) ==> running_view(running) == Err::<RunningView, ReplyView>(failure@),
{
}

} // verus!
