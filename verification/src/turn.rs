//! The answer to a turn, gathered or streamed from the events of the app
//! server.

use vstd::prelude::*;

use crate::events::{
    agent_delta, event_matches_turn, extract_agent_delta, extract_started_thread, is_turn_completed,
    lemma_events_of_others_do_not_match, matches_turn, started_thread, thread_id_of, turn_completed, turn_id_of,
};
use crate::http::{HttpReply, cors_reply, cors_response, single_frame, sse_data, sse_frame};
use crate::json::{Json, JsonView, NumberView, printable};
use crate::text::{decimal, u64_text};
use crate::value::{print, printed};

verus! {

/// What a listener for events gets.
#[derive(Debug)]
pub enum Received {
    /// An event.
    Event(Json),
    /// Word that events were missed.
    Lagged,
    /// Word that there will be no more events.
    Closed,
}

/// What a listener for events gets, by its contents.
pub enum ReceivedView {
    Event(JsonView),
    Lagged,
    Closed,
}

impl View for Received {
    type V = ReceivedView;

    open spec fn view(&self) -> ReceivedView {
        match *self {
            Received::Event(event) => ReceivedView::Event(event@),
            Received::Lagged => ReceivedView::Lagged,
            Received::Closed => ReceivedView::Closed,
        }
    }
}

/// What is done while it is waited for a thread to start.
#[derive(Debug)]
pub enum WaitStep {
    /// It is waited on.
    Wait,
    /// The wait is over, with the id of the thread, if one started.
    Over(Option<String>),
}

/// What is done while it is waited for a thread to start, by its contents.
pub enum WaitView {
    Wait,
    Over(Option<Seq<char>>),
}

impl View for WaitStep {
    type V = WaitView;

    open spec fn view(&self) -> WaitView {
        match *self {
            WaitStep::Wait => WaitView::Wait,
            WaitStep::Over(thread_id) => WaitView::Over(thread_id.deep_view()),
        }
    }
}

/// How the wait for a thread to start goes on. No message at all says that the
/// time is up.
pub open spec fn wait_step(received: Option<ReceivedView>) -> WaitView {
    match received {
        Some(ReceivedView::Event(event)) => match started_thread(event) {
            Some(id) => WaitView::Over(Some(id)),
            None => WaitView::Wait,
        },
        Some(ReceivedView::Lagged) => WaitView::Wait,
        Some(ReceivedView::Closed) => WaitView::Over(None),
        None => WaitView::Over(None),
    }
}

/// How the wait for a thread to start goes on.
pub fn await_thread_started(received: Option<&Received>) -> (r: WaitStep)
    ensures
        r@ == wait_step(
            match received {
                Some(got) => Some(got@),
                None => None,
            },
        ),
{
    match received {
        Some(Received::Event(event)) => match extract_started_thread(event) {
            Some(id) => WaitStep::Over(Some(id)),
            None => WaitStep::Wait,
        },
        Some(Received::Lagged) => WaitStep::Wait,
        Some(Received::Closed) => WaitStep::Over(None),
        None => WaitStep::Over(None),
    }
}

/// What a message means for a turn.
#[derive(Debug)]
pub enum TurnStep {
    /// Nothing.
    Pass,
    /// The answer goes on with this text.
    Delta(String),
    /// The turn is over.
    Over,
}

/// What a message means for a turn, by its contents.
pub enum TurnStepView {
    Pass,
    Delta(Seq<char>),
    Over,
}

impl View for TurnStep {
    type V = TurnStepView;

    open spec fn view(&self) -> TurnStepView {
        match *self {
            TurnStep::Pass => TurnStepView::Pass,
            TurnStep::Delta(text) => TurnStepView::Delta(text@),
            TurnStep::Over => TurnStepView::Over,
        }
    }
}

/// A turn of a thread. The id of the turn may not be known.
#[derive(Debug)]
pub struct Turn {
    pub thread_id: String,
    pub turn_id: Option<String>,
}

/// A turn of a thread, by its ids.
pub struct TurnView {
    pub thread_id: Seq<char>,
    pub turn_id: Option<Seq<char>>,
}

impl View for Turn {
    type V = TurnView;

    open spec fn view(&self) -> TurnView {
        TurnView { thread_id: self.thread_id@, turn_id: self.turn_id.deep_view() }
    }
}

impl TurnView {
    /// What a message means for the turn. Events of other turns mean nothing,
    /// nor does word of missed events; the end of all events ends the turn.
    pub open spec fn step(self, received: ReceivedView) -> TurnStepView {
        match received {
            ReceivedView::Event(event) => if !matches_turn(event, self.thread_id, self.turn_id) {
                TurnStepView::Pass
            } else if turn_completed(event) {
                TurnStepView::Over
            } else {
                match agent_delta(event) {
                    Some(delta) => TurnStepView::Delta(delta),
                    None => TurnStepView::Pass,
                }
            },
            ReceivedView::Lagged => TurnStepView::Pass,
            ReceivedView::Closed => TurnStepView::Over,
        }
    }

    /// The texts with which the answer goes on, message by message, until the
    /// turn is over.
    pub open spec fn deltas(self, received: Seq<ReceivedView>) -> Seq<Seq<char>>
        decreases received.len(),
    {
        if received.len() == 0 {
            Seq::empty()
        } else {
            match self.step(received.first()) {
                TurnStepView::Pass => self.deltas(received.drop_first()),
                TurnStepView::Delta(text) => seq![text] + self.deltas(received.drop_first()),
                TurnStepView::Over => Seq::empty(),
            }
        }
    }
}

impl Turn {
    /// What a message means for the turn.
    pub fn step(&self, received: &Received) -> (r: TurnStep)
        ensures
            r@ == self@.step(received@),
    {
        match received {
            Received::Event(event) => {
                let turn_id: Option<&str> = match &self.turn_id {
                    Some(id) => Some(id.as_str()),
                    None => None,
                };
                if !event_matches_turn(event, self.thread_id.as_str(), turn_id) {
                    return TurnStep::Pass;
                }
                if is_turn_completed(event) {
                    return TurnStep::Over;
                }
                match extract_agent_delta(event) {
                    Some(delta) => TurnStep::Delta(delta),
                    None => TurnStep::Pass,
                }
            },
            Received::Lagged => TurnStep::Pass,
            Received::Closed => TurnStep::Over,
        }
    }
}

/// Texts, one after the other.
pub open spec fn joined(texts: Seq<Seq<char>>) -> Seq<char>
    decreases texts.len(),
{
    if texts.len() == 0 {
        Seq::empty()
    } else {
        texts.first() + joined(texts.drop_first())
    }
}

/// An answer that is gathered until its turn is over.
#[derive(Debug)]
pub struct TurnOutput {
    turn: Turn,
    output: String,
}

/// An answer that is gathered, by its contents.
pub struct OutputView {
    pub turn: TurnView,
    pub output: Seq<char>,
}

impl View for TurnOutput {
    type V = OutputView;

    closed spec fn view(&self) -> OutputView {
        OutputView { turn: self.turn@, output: self.output@ }
    }
}

impl OutputView {
    /// The answer once a message is in.
    pub open spec fn after(self, received: ReceivedView) -> OutputView {
        match self.turn.step(received) {
            TurnStepView::Delta(text) => OutputView { output: self.output + text, ..self },
            _ => self,
        }
    }

    /// The answer once the turn is over or all the messages are in.
    pub open spec fn after_all(self, received: Seq<ReceivedView>) -> OutputView
        decreases received.len(),
    {
        if received.len() == 0 || self.turn.step(received.first()) is Over {
            self
        } else {
            self.after(received.first()).after_all(received.drop_first())
        }
    }
}

impl TurnOutput {
    /// An answer of which nothing is there yet.
    pub fn new(turn: Turn) -> (r: TurnOutput)
        ensures
            r@ == (OutputView { turn: turn@, output: Seq::empty() }),
    {
        TurnOutput { turn, output: String::new() }
    }

    /// Takes a message, and says whether the turn is over.
    pub fn receive(&mut self, received: &Received) -> (over: bool)
        ensures
            final(self)@ == old(self)@.after(received@),
            over == (old(self)@.turn.step(received@) is Over),
    {
        match self.turn.step(received) {
            TurnStep::Pass => false,
            TurnStep::Delta(delta) => {
                self.output.append(delta.as_str());
                false
            },
            TurnStep::Over => true,
        }
    }

    /// The answer.
    pub fn into_output(self) -> (r: String)
        ensures
            r@ == self@.output,
    {
        self.output
    }
}

/// A gathered answer is made of the texts with which the turn goes on, in their
/// order, and of nothing else.
pub proof fn lemma_output_is_the_deltas(answer: OutputView, received: Seq<ReceivedView>)
    ensures
        answer.after_all(received).output == answer.output + joined(answer.turn.deltas(received)),
        answer.after_all(received).turn == answer.turn,
    decreases received.len(),
{
    if received.len() > 0 {
        let rest = received.drop_first();
        match answer.turn.step(received.first()) {
            TurnStepView::Pass => {
                lemma_output_is_the_deltas(answer, rest);
            },
            TurnStepView::Delta(text) => {
                let next = answer.after(received.first());
                lemma_output_is_the_deltas(next, rest);
                let tail = answer.turn.deltas(rest);
                assert((seq![text] + tail).drop_first() == tail);
                assert(answer.output + text + joined(tail) == answer.output + (text + joined(tail)));
            },
            TurnStepView::Over => {
                assert(answer.output + joined(Seq::empty()) == answer.output);
            },
        }
    } else {
        assert(answer.output + joined(Seq::empty()) == answer.output);
    }
}

/// A message that means nothing for a turn changes nothing of the answer,
/// wherever among the messages it comes: so events of other threads and turns
/// do not mix with it.
pub proof fn lemma_other_events_do_not_mix(
    turn: TurnView,
    before: Seq<ReceivedView>,
    message: ReceivedView,
    after: Seq<ReceivedView>,
)
    requires
        turn.step(message) is Pass,
    ensures
        turn.deltas(before + seq![message] + after) == turn.deltas(before + after),
    decreases before.len(),
{
    let with = before + seq![message] + after;
    let without = before + after;
    if before.len() == 0 {
        assert(with.first() == message);
        assert(with.drop_first() == without);
    } else {
        let rest = before.drop_first();
        lemma_other_events_do_not_mix(turn, rest, message, after);
        assert(with.first() == before.first());
        assert(without.first() == before.first());
        assert(with.drop_first() == rest + seq![message] + after);
        assert(without.drop_first() == rest + after);
    }
}

/// What comes after the end of a turn is not read.
pub proof fn lemma_nothing_counts_after_the_end(
    turn: TurnView,
    before: Seq<ReceivedView>,
    end: ReceivedView,
    after: Seq<ReceivedView>,
)
    requires
        turn.step(end) is Over,
    ensures
        turn.deltas(before + seq![end] + after) == turn.deltas(before),
    decreases before.len(),
{
    let whole = before + seq![end] + after;
    if before.len() == 0 {
        assert(whole.first() == end);
    } else {
        let rest = before.drop_first();
        lemma_nothing_counts_after_the_end(turn, rest, end, after);
        assert(whole.first() == before.first());
        assert(whole.drop_first() == rest + seq![end] + after);
    }
}

/// A whole chat completion.
pub open spec fn completion_document(created: u64, model: Seq<char>, content: Seq<char>) -> JsonView {
    JsonView::object().with("id"@, JsonView::String("chatcmpl-"@ + decimal(created as nat))).with(
        "object"@,
        JsonView::String("chat.completion"@),
    ).with("created"@, JsonView::integer(created as int)).with("model"@, JsonView::String(model)).with(
        "choices"@,
        JsonView::Array(
            seq![
                JsonView::object().with("index"@, JsonView::integer(0)).with(
                    "message"@,
                    JsonView::object().with("role"@, JsonView::String("assistant"@)).with(
                        "content"@,
                        JsonView::String(content),
                    ),
                ).with("finish_reason"@, JsonView::String("stop"@)),
            ],
        ),
    ).with(
        "usage"@,
        JsonView::object().with("prompt_tokens"@, JsonView::integer(0)).with(
            "completion_tokens"@,
            JsonView::integer(0),
        ).with("total_tokens"@, JsonView::integer(0)),
    )
}

/// A whole chat completion.
pub fn completion_body(created: u64, model: &str, content: &str) -> (r: Json)
    ensures
        r@ == completion_document(created, model@, content@),
        printable(r),
{
    let message: Json = Json::object().with("role", Json::string("assistant")).with(
        "content",
        Json::string(content),
    );
    let choice: Json = Json::object().with("index", Json::unsigned(0)).with("message", message).with(
        "finish_reason",
        Json::string("stop"),
    );
    let usage: Json = Json::object().with("prompt_tokens", Json::unsigned(0)).with(
        "completion_tokens",
        Json::unsigned(0),
    ).with("total_tokens", Json::unsigned(0));
    let id: String = "chatcmpl-".to_string().concat(u64_text(created).as_str());
    Json::object().with("id", Json::String(id)).with("object", Json::string("chat.completion")).with(
        "created",
        Json::unsigned(created),
    ).with("model", Json::string(model)).with("choices", Json::singleton(choice)).with("usage", usage)
}

/// The reply that carries a whole chat completion.
pub fn completion_response(created: u64, model: &str, content: &str) -> (r: HttpReply)
    ensures
        r@ == cors_reply(200, printed(completion_document(created, model@, content@))),
{
    let body: Json = completion_body(created, model, content);
    cors_response(200, print(&body))
}

/// What all the chunks of a streamed chat completion have in common.
#[derive(Debug)]
pub struct ChunkHead {
    pub id: String,
    pub created: u64,
    pub model: String,
}

/// What all the chunks of a streamed chat completion have in common, by its
/// contents.
pub struct HeadView {
    pub id: Seq<char>,
    pub created: u64,
    pub model: Seq<char>,
}

impl View for ChunkHead {
    type V = HeadView;

    open spec fn view(&self) -> HeadView {
        HeadView { id: self.id@, created: self.created, model: self.model@ }
    }
}

impl HeadView {
    /// A chunk of a streamed chat completion.
    pub open spec fn chunk(self, delta: JsonView, finish_reason: JsonView) -> JsonView {
        JsonView::object().with("id"@, JsonView::String(self.id)).with(
            "object"@,
            JsonView::String("chat.completion.chunk"@),
        ).with("created"@, JsonView::integer(self.created as int)).with("model"@, JsonView::String(self.model)).with(
            "choices"@,
            JsonView::Array(
                seq![
                    JsonView::object().with("index"@, JsonView::integer(0)).with("delta"@, delta).with(
                        "finish_reason"@,
                        finish_reason,
                    ),
                ],
            ),
        )
    }

    /// The chunk that says who speaks.
    pub open spec fn role_chunk(self) -> JsonView {
        self.chunk(JsonView::object().with("role"@, JsonView::String("assistant"@)), JsonView::Null)
    }

    /// The chunk that carries a text.
    pub open spec fn content_chunk(self, text: Seq<char>) -> JsonView {
        self.chunk(JsonView::object().with("content"@, JsonView::String(text)), JsonView::Null)
    }

    /// The chunk that says that the answer is complete.
    pub open spec fn finish_chunk(self) -> JsonView {
        self.chunk(JsonView::object(), JsonView::String("stop"@))
    }

    /// The frames that carry texts, one each.
    pub open spec fn content_frames(self, texts: Seq<Seq<char>>) -> Seq<Seq<char>>
        decreases texts.len(),
    {
        if texts.len() == 0 {
            Seq::empty()
        } else {
            seq![sse_frame(self.content_chunk(texts.first()))] + self.content_frames(texts.drop_first())
        }
    }
}

impl ChunkHead {
    fn chunk(&self, delta: Json, finish_reason: Json) -> (r: Json)
        ensures
            r@ == self@.chunk(delta@, finish_reason@),
            printable(delta) && printable(finish_reason) ==> printable(r),
    {
        let choice: Json = Json::object().with("index", Json::unsigned(0)).with("delta", delta).with(
            "finish_reason",
            finish_reason,
        );
        Json::object().with("id", Json::string(self.id.as_str())).with(
            "object",
            Json::string("chat.completion.chunk"),
        ).with("created", Json::unsigned(self.created)).with("model", Json::string(self.model.as_str())).with(
            "choices",
            Json::singleton(choice),
        )
    }

    /// The chunk that says who speaks.
    pub fn role_chunk(&self) -> (r: Json)
        ensures
            r@ == self@.role_chunk(),
            printable(r),
    {
        self.chunk(Json::object().with("role", Json::string("assistant")), Json::Null)
    }

    /// The chunk that carries a text.
    pub fn content_chunk(&self, text: &str) -> (r: Json)
        ensures
            r@ == self@.content_chunk(text@),
            printable(r),
    {
        self.chunk(Json::object().with("content", Json::string(text)), Json::Null)
    }

    /// The chunk that says that the answer is complete.
    pub fn finish_chunk(&self) -> (r: Json)
        ensures
            r@ == self@.finish_chunk(),
            printable(r),
    {
        self.chunk(Json::object(), Json::string("stop"))
    }
}

/// An answer that is streamed until its turn is over.
#[derive(Debug)]
pub struct TurnStream {
    turn: Turn,
    head: ChunkHead,
    sent_role: bool,
    sent_any_delta: bool,
}

/// An answer that is streamed, by its contents.
#[verifier::ext_equal]
pub struct StreamView {
    pub turn: TurnView,
    pub head: HeadView,
    pub sent_role: bool,
    pub sent_any_delta: bool,
}

impl View for TurnStream {
    type V = StreamView;

    closed spec fn view(&self) -> StreamView {
        StreamView {
            turn: self.turn@,
            head: self.head@,
            sent_role: self.sent_role,
            sent_any_delta: self.sent_any_delta,
        }
    }
}

impl StreamView {
    /// An answer of which nothing was sent yet.
    pub open spec fn fresh(turn: TurnView, head: HeadView) -> StreamView {
        StreamView { turn, head, sent_role: false, sent_any_delta: false }
    }

    /// The frame that says who speaks, where it was not sent yet.
    pub open spec fn role_frames(self) -> Seq<Seq<char>> {
        if self.sent_role {
            Seq::empty()
        } else {
            seq![sse_frame(self.head.role_chunk())]
        }
    }

    /// The frames that a message makes: for a text, who speaks, where that was
    /// not said yet, and the text, where it is not empty.
    pub open spec fn frames(self, received: ReceivedView) -> Seq<Seq<char>> {
        match self.turn.step(received) {
            TurnStepView::Delta(text) => self.role_frames() + self.text_frames(text),
            _ => Seq::empty(),
        }
    }

    /// The frame of a text, where it is not empty.
    pub open spec fn text_frames(self, text: Seq<char>) -> Seq<Seq<char>> {
        if text.len() == 0 {
            Seq::empty()
        } else {
            seq![sse_frame(self.head.content_chunk(text))]
        }
    }

    /// The stream once a message is in.
    pub open spec fn after(self, received: ReceivedView) -> StreamView {
        match self.turn.step(received) {
            TurnStepView::Delta(text) => StreamView {
                sent_role: true,
                sent_any_delta: self.sent_any_delta || text.len() > 0,
                ..self
            },
            _ => self,
        }
    }

    /// The frames that end the stream: who speaks, where that was not said yet,
    /// that the answer is complete, and the mark of the end.
    pub open spec fn last_frames(self) -> Seq<Seq<char>> {
        self.role_frames() + seq![sse_frame(self.head.finish_chunk()), "data: [DONE]\n\n"@]
    }

    /// All the frames from here to the end of the stream.
    pub open spec fn all_frames(self, received: Seq<ReceivedView>) -> Seq<Seq<char>>
        decreases received.len(),
    {
        if received.len() == 0 || self.turn.step(received.first()) is Over {
            self.last_frames()
        } else {
            self.frames(received.first()) + self.after(received.first()).all_frames(received.drop_first())
        }
    }
}

/// Whether each text of a list is one frame.
pub open spec fn all_single_frames(frames: Seq<Seq<char>>) -> bool {
    forall|i: int| 0 <= i < frames.len() ==> single_frame(#[trigger] frames[i])
}

impl TurnStream {
    /// An answer of which nothing was sent yet.
    pub fn new(turn: Turn, head: ChunkHead) -> (r: TurnStream)
        ensures
            r@ == StreamView::fresh(turn@, head@),
    {
        TurnStream { turn, head, sent_role: false, sent_any_delta: false }
    }

    /// Takes a message, gives the frames to send for it, and says whether the
    /// turn is over.
    pub fn receive(&mut self, received: &Received) -> (r: (Vec<String>, bool))
        ensures
            final(self)@ == old(self)@.after(received@),
            r.0.deep_view() == old(self)@.frames(received@),
            r.1 == (old(self)@.turn.step(received@) is Over),
            all_single_frames(r.0.deep_view()),
    {
        let mut frames: Vec<String> = Vec::new();
        match self.turn.step(received) {
            TurnStep::Pass => {
                proof {
                    assert(frames.deep_view() == old(self)@.frames(received@));
                }
                (frames, false)
            },
            TurnStep::Delta(delta) => {
                if !self.sent_role {
                    self.sent_role = true;
                    let chunk: Json = self.head.role_chunk();
                    frames.push(sse_data(&chunk));
                }
                if !delta.as_str().is_empty() {
                    self.sent_any_delta = true;
                    let chunk: Json = self.head.content_chunk(delta.as_str());
                    frames.push(sse_data(&chunk));
                }
                proof {
                    assert(frames.deep_view() == old(self)@.frames(received@));
                }
                (frames, false)
            },
            TurnStep::Over => {
                proof {
                    assert(frames.deep_view() == old(self)@.frames(received@));
                }
                (frames, true)
            },
        }
    }

    /// Whether any text was sent.
    pub fn sent_any_delta(&self) -> (r: bool)
        ensures
            r == self@.sent_any_delta,
    {
        self.sent_any_delta
    }

    /// The frames that end the stream.
    pub fn finish(self) -> (r: Vec<String>)
        ensures
            r.deep_view() == self@.last_frames(),
            all_single_frames(r.deep_view()),
    {
        let mut frames: Vec<String> = Vec::new();
        if !self.sent_role {
            let chunk: Json = self.head.role_chunk();
            frames.push(sse_data(&chunk));
        }
        let chunk: Json = self.head.finish_chunk();
        frames.push(sse_data(&chunk));
        frames.push("data: [DONE]\n\n".to_string());
        proof {
            reveal_strlit("data: [DONE]\n\n");
            assert(frames.deep_view() == self@.last_frames());
        }
        frames
    }
}

/// Whether a stream that sent text has said before who speaks.
pub open spec fn role_before_text(stream: StreamView) -> bool {
    stream.sent_any_delta ==> stream.sent_role
}

/// No stream ever sends text before it has said who speaks.
pub proof fn lemma_role_comes_before_text(
    turn: TurnView,
    head: HeadView,
    stream: StreamView,
    received: ReceivedView,
)
    requires
        role_before_text(stream),
    ensures
        role_before_text(StreamView::fresh(turn, head)),
        role_before_text(stream.after(received)),
{
}

/// Whether an object has no member but a role and a content.
pub open spec fn speaks_only(json: JsonView) -> bool {
    &&& json is Object
    &&& forall|key: Seq<char>| (#[trigger] json.get(key)) is Some ==> key == "role"@ || key == "content"@
}

/// Whether a chunk calls no tool: its one choice has an index, a delta that says
/// who speaks or what is said and nothing else, and a reason to finish that is
/// left open or is `stop`.
pub open spec fn calls_no_tool(chunk: JsonView) -> bool {
    match chunk.get("choices"@) {
        Some(JsonView::Array(choices)) => {
            &&& choices.len() == 1
            &&& choices[0].get("delta"@) matches Some(delta) && speaks_only(delta)
            &&& choices[0].get("finish_reason"@) == Some(JsonView::Null) || choices[0].get_str("finish_reason"@)
                == Some("stop"@)
            &&& forall|key: Seq<char>| (#[trigger] choices[0].get(key)) is Some ==> {
                ||| key == "index"@
                ||| key == "delta"@
                ||| key == "finish_reason"@
            }
        },
        _ => false,
    }
}

/// No chunk of a stream calls a tool: whatever Codex does with tools is folded
/// into the text.
pub proof fn lemma_no_chunk_calls_a_tool(head: HeadView, text: Seq<char>)
    ensures
        calls_no_tool(head.role_chunk()),
        calls_no_tool(head.content_chunk(text)),
        calls_no_tool(head.finish_chunk()),
{
    reveal_strlit("choices");
    reveal_strlit("delta");
    reveal_strlit("finish_reason");
    reveal_strlit("index");
    assert("delta"@.len() == 5 && "finish_reason"@.len() == 13);
    assert("delta"@[0] == 'd' && "index"@[0] == 'i');
}

/// Every frame of a stream but the mark of its end carries a chunk that calls no
/// tool, whatever messages come.
pub proof fn lemma_no_stream_calls_a_tool(stream: StreamView, received: Seq<ReceivedView>)
    ensures
        forall|i: int|
            0 <= i < stream.all_frames(received).len() ==> {
                ||| #[trigger] stream.all_frames(received)[i] == "data: [DONE]\n\n"@
                ||| exists|chunk: JsonView| #[trigger]
                    calls_no_tool(chunk) && stream.all_frames(received)[i] == sse_frame(chunk)
            },
    decreases received.len(),
{
    let frames = stream.all_frames(received);
    lemma_no_chunk_calls_a_tool(stream.head, Seq::empty());
    if received.len() > 0 && !(stream.turn.step(received.first()) is Over) {
        let next = stream.after(received.first());
        let first = stream.frames(received.first());
        let rest = next.all_frames(received.drop_first());
        lemma_no_stream_calls_a_tool(next, received.drop_first());
        if let TurnStepView::Delta(text) = stream.turn.step(received.first()) {
            lemma_no_chunk_calls_a_tool(stream.head, text);
        }
        assert forall|i: int| 0 <= i < frames.len() implies {
            ||| #[trigger] frames[i] == "data: [DONE]\n\n"@
            ||| exists|chunk: JsonView| #[trigger] calls_no_tool(chunk) && frames[i] == sse_frame(chunk)
        } by {
            if i >= first.len() {
                assert(frames[i] == rest[i - first.len()]);
            }
        }
    }
}

/// An answer that is not streamed calls no tool either: its one choice holds a
/// message of a role and a content alone, and finishes with `stop`.
pub proof fn lemma_no_completion_calls_a_tool(created: u64, model: Seq<char>, content: Seq<char>)
    ensures
        completion_document(created, model, content).get("choices"@) matches Some(JsonView::Array(choices)) && {
            &&& choices.len() == 1
            &&& choices[0].get("message"@) matches Some(message) && {
                &&& speaks_only(message)
                &&& message.get_str("role"@) == Some("assistant"@)
                &&& message.get_str("content"@) == Some(content)
            }
            &&& choices[0].get_str("finish_reason"@) == Some("stop"@)
            &&& forall|key: Seq<char>| (#[trigger] choices[0].get(key)) is Some ==> {
                ||| key == "index"@
                ||| key == "message"@
                ||| key == "finish_reason"@
            }
        },
{
    reveal_strlit("choices");
    reveal_strlit("usage");
    reveal_strlit("message");
    reveal_strlit("finish_reason");
    reveal_strlit("role");
    reveal_strlit("content");
    assert("choices"@.len() == 7 && "usage"@.len() == 5);
    assert("message"@.len() == 7 && "finish_reason"@.len() == 13);
    assert("role"@.len() == 4 && "content"@.len() == 7);
}

/// The texts that are not empty.
pub open spec fn non_empty(texts: Seq<Seq<char>>) -> Seq<Seq<char>>
    decreases texts.len(),
{
    if texts.len() == 0 {
        Seq::empty()
    } else if texts.first().len() == 0 {
        non_empty(texts.drop_first())
    } else {
        seq![texts.first()] + non_empty(texts.drop_first())
    }
}

/// A stream says once who speaks, before any text; then it carries the texts
/// with which the turn goes on, in their order and without the empty ones; then
/// it says that the answer is complete, and ends. It does so even where the
/// turn brings no text at all.
pub proof fn lemma_stream_is_role_texts_finish(stream: StreamView, received: Seq<ReceivedView>)
    ensures
        stream.all_frames(received) == stream.role_frames() + stream.head.content_frames(
            non_empty(stream.turn.deltas(received)),
        ) + seq![sse_frame(stream.head.finish_chunk()), "data: [DONE]\n\n"@],
    decreases received.len(),
{
    let texts = stream.turn.deltas(received);
    let end = seq![sse_frame(stream.head.finish_chunk()), "data: [DONE]\n\n"@];
    if received.len() == 0 || stream.turn.step(received.first()) is Over {
        assert(texts.len() == 0);
        assert(stream.all_frames(received) == stream.role_frames() + stream.head.content_frames(non_empty(texts))
            + end);
    } else {
        let next = stream.after(received.first());
        let rest = received.drop_first();
        lemma_stream_is_role_texts_finish(next, rest);
        let tail = stream.turn.deltas(rest);
        match stream.turn.step(received.first()) {
            TurnStepView::Delta(text) => {
                assert(texts == seq![text] + tail);
                assert(texts.drop_first() == tail);
                assert(texts.first() == text);
                if text.len() > 0 {
                    assert((seq![text] + non_empty(tail)).drop_first() == non_empty(tail));
                    assert((seq![text] + non_empty(tail)).first() == text);
                }
                assert(stream.all_frames(received) == stream.role_frames() + stream.text_frames(text) + (
                next.role_frames() + stream.head.content_frames(non_empty(tail)) + end));
                assert(stream.all_frames(received) == stream.role_frames() + stream.head.content_frames(
                    non_empty(texts),
                ) + end);
            },
            _ => {
                assert(next == stream);
                assert(stream.all_frames(received) == stream.role_frames() + stream.head.content_frames(
                    non_empty(texts),
                ) + end);
            },
        }
    }
}

/// To leave out the empty texts changes nothing of what the texts make
/// together.
proof fn lemma_non_empty_joined(texts: Seq<Seq<char>>)
    ensures
        joined(non_empty(texts)) == joined(texts),
    decreases texts.len(),
{
    if texts.len() > 0 {
        let rest = texts.drop_first();
        lemma_non_empty_joined(rest);
        if texts.first().len() == 0 {
            assert(texts.first() + joined(rest) == joined(rest));
        } else {
            let kept = seq![texts.first()] + non_empty(rest);
            assert(kept.drop_first() == non_empty(rest));
            assert(kept.first() == texts.first());
        }
    }
}

/// A client that streams and one that does not get the same answer: the texts
/// that a stream carries make together what is gathered from the same messages.
pub proof fn lemma_stream_carries_the_output(turn: TurnView, head: HeadView, received: Seq<ReceivedView>)
    ensures
        ({
            let texts = non_empty(turn.deltas(received));
            let gathered = (OutputView { turn, output: Seq::empty() }).after_all(received).output;
            &&& StreamView::fresh(turn, head).all_frames(received) == seq![sse_frame(head.role_chunk())]
                + head.content_frames(texts) + seq![sse_frame(head.finish_chunk()), "data: [DONE]\n\n"@]
            &&& joined(texts) == gathered
        }),
{
    lemma_stream_is_role_texts_finish(StreamView::fresh(turn, head), received);
    lemma_output_is_the_deltas(OutputView { turn, output: Seq::empty() }, received);
    lemma_non_empty_joined(turn.deltas(received));
    assert(Seq::<char>::empty() + joined(turn.deltas(received)) == joined(turn.deltas(received)));
}

/// A thread is waited for until an event names it, until there will be no more
/// events, or until the time is up.
pub proof fn lemma_how_long_a_thread_is_waited_for(event: JsonView, id: Seq<char>)
    ensures
        started_thread(event) == Some(id) ==> wait_step(Some(ReceivedView::Event(event))) == WaitView::Over(Some(id)),
        started_thread(event) is None ==> wait_step(Some(ReceivedView::Event(event))) == WaitView::Wait,
        wait_step(Some(ReceivedView::Lagged)) == WaitView::Wait,
        wait_step(Some(ReceivedView::Closed)) == WaitView::Over(None),
        wait_step(None) == WaitView::Over(None),
{
}

/// An event that matches a turn ends it, or adds its delta as it is, or means
/// nothing; missed events mean nothing, and the end of all events ends the turn.
pub proof fn lemma_what_messages_mean(turn: TurnView, event: JsonView, delta: Seq<char>)
    ensures
        matches_turn(event, turn.thread_id, turn.turn_id) ==> {
            &&& turn_completed(event) ==> turn.step(ReceivedView::Event(event)) is Over
            &&& !turn_completed(event) && agent_delta(event) == Some(delta) ==> turn.step(ReceivedView::Event(event))
                == TurnStepView::Delta(delta)
            &&& !turn_completed(event) && agent_delta(event) is None ==> turn.step(ReceivedView::Event(event)) is Pass
        },
        turn.step(ReceivedView::Lagged) is Pass,
        turn.step(ReceivedView::Closed) is Over,
{
}

/// An event that names another thread, or another turn where the turn is known,
/// means nothing for a turn, whatever it is and whatever else it names: it adds
/// nothing to the answer and does not end it.
pub proof fn lemma_events_of_others_mean_nothing(turn: TurnView, event: JsonView, params: JsonView, named: Seq<char>)
    requires
        event.get("params"@) == Some(params),
    ensures
        params.get("threadId"@) == Some(JsonView::String(named)) && named != turn.thread_id ==> turn.step(
            ReceivedView::Event(event),
        ) is Pass,
        params.get("turnId"@) == Some(JsonView::String(named)) && turn.turn_id is Some && turn.turn_id != Some(named)
            ==> turn.step(ReceivedView::Event(event)) is Pass,
        thread_id_of(params) == Some(named) && named != turn.thread_id ==> turn.step(ReceivedView::Event(event)) is Pass,
        turn_id_of(params) == Some(named) && turn.turn_id is Some && turn.turn_id != Some(named) ==> turn.step(
            ReceivedView::Event(event),
        ) is Pass,
{
    lemma_events_of_others_do_not_match(event, params, turn.thread_id, turn.turn_id, named);
}

/// A delta event of a turn's own thread and turn adds its delta to the answer,
/// character for character.
pub proof fn lemma_own_delta_is_added(turn: TurnView, event: JsonView, params: JsonView, delta: Seq<char>)
    requires
        event.get("method"@) == Some(JsonView::String("item/agentMessage/delta"@)),
        event.get("params"@) == Some(params),
        params.get("threadId"@) == Some(JsonView::String(turn.thread_id)),
        turn.turn_id matches Some(turn_id) ==> params.get("turnId"@) == Some(JsonView::String(turn_id)),
        params.get("delta"@) == Some(JsonView::String(delta)),
    ensures
        turn.step(ReceivedView::Event(event)) == TurnStepView::Delta(delta),
        turn.deltas(seq![ReceivedView::Event(event)]) == seq![delta],
{
    reveal_with_fuel(TurnView::deltas, 2);
    reveal_strlit("item/agentMessage/delta");
    reveal_strlit("turn/completed");
    reveal_strlit("turn/complete");
    reveal_strlit("turn/ended");
    reveal_strlit("turn/finished");
    assert("item/agentMessage/delta"@[0] == 'i' && "turn/completed"@[0] == 't' && "turn/complete"@[0] == 't'
        && "turn/ended"@[0] == 't' && "turn/finished"@[0] == 't');
    let received = seq![ReceivedView::Event(event)];
    assert(received.first() == ReceivedView::Event(event));
    assert(turn.step(ReceivedView::Event(event)) == TurnStepView::Delta(delta));
    assert(turn.deltas(received) =~= seq![delta]);
}

/// The texts of a turn come message by message, in the order of the messages, as
/// long as the turn is not over.
pub proof fn lemma_deltas_come_in_order(turn: TurnView, a: Seq<ReceivedView>, b: Seq<ReceivedView>)
    requires
        forall|i: int| 0 <= i < a.len() ==> !(turn.step(#[trigger] a[i]) is Over),
    ensures
        turn.deltas(a + b) == turn.deltas(a) + turn.deltas(b),
    decreases a.len(),
{
    if a.len() == 0 {
        assert(a + b == b);
        assert(turn.deltas(a) + turn.deltas(b) == turn.deltas(b));
    } else {
        let rest = a.drop_first();
        assert forall|i: int| 0 <= i < rest.len() implies !(turn.step(#[trigger] rest[i]) is Over) by {
            assert(rest[i] == a[i + 1]);
        }
        assert(!(turn.step(a[0]) is Over));
        lemma_deltas_come_in_order(turn, rest, b);
        assert((a + b).first() == a.first());
        assert((a + b).drop_first() == rest + b);
        assert(turn.deltas(a + b) =~= turn.deltas(a) + turn.deltas(b));
    }
}

/// One message makes one text, where it goes on with one, and else none.
pub proof fn lemma_deltas_of_one_message(turn: TurnView, message: ReceivedView)
    ensures
        turn.step(message) matches TurnStepView::Delta(text) ==> turn.deltas(seq![message]) == seq![text],
        !(turn.step(message) is Delta) ==> turn.deltas(seq![message]) == Seq::<Seq<char>>::empty(),
        turn.deltas(Seq::empty()) == Seq::<Seq<char>>::empty(),
{
    reveal_with_fuel(TurnView::deltas, 2);
    let received = seq![message];
    assert(received.first() == message);
    assert(received.drop_first() == Seq::<ReceivedView>::empty());
    if let TurnStepView::Delta(text) = turn.step(message) {
        assert(turn.deltas(received) =~= seq![text]);
    }
}

/// Texts are put together one after the other, with nothing between them.
pub proof fn lemma_joined_in_order(a: Seq<Seq<char>>, b: Seq<Seq<char>>, text: Seq<char>)
    ensures
        joined(a + b) == joined(a) + joined(b),
        joined(seq![text]) == text,
        joined(Seq::empty()) == Seq::<char>::empty(),
    decreases a.len(),
{
    reveal_with_fuel(joined, 2);
    assert(seq![text].drop_first() == Seq::<Seq<char>>::empty());
    assert(text + Seq::<char>::empty() == text);
    if a.len() == 0 {
        assert(a + b == b);
        assert(joined(a) + joined(b) == joined(b));
    } else {
        lemma_joined_in_order(a.drop_first(), b, text);
        assert((a + b).first() == a.first());
        assert((a + b).drop_first() == a.drop_first() + b);
        assert(a.first() + (joined(a.drop_first()) + joined(b)) == a.first() + joined(a.drop_first()) + joined(b));
    }
}

/// A gathered answer goes on with each text as it is, and with nothing else.
pub proof fn lemma_answer_goes_on_with_the_text(answer: OutputView, received: ReceivedView, text: Seq<char>)
    ensures
        answer.turn.step(received) == TurnStepView::Delta(text) ==> answer.after(received).output == answer.output
            + text,
        !(answer.turn.step(received) is Delta) ==> answer.after(received).output == answer.output,
        answer.after(received).turn == answer.turn,
{
}

proof fn lemma_names_in_chunks_differ()
    ensures
        "id"@.len() == 2,
        "object"@.len() == 6,
        "created"@.len() == 7 && "created"@[1] == 'r',
        "model"@.len() == 5 && "model"@[0] == 'm',
        "choices"@.len() == 7 && "choices"@[1] == 'h',
        "usage"@.len() == 5 && "usage"@[0] == 'u',
        "index"@.len() == 5 && "index"@[0] == 'i',
        "delta"@.len() == 5 && "delta"@[0] == 'd',
        "finish_reason"@.len() == 13,
        "message"@.len() == 7,
        "role"@.len() == 4,
        "content"@.len() == 7,
        "prompt_tokens"@.len() == 13 && "prompt_tokens"@[0] == 'p',
        "completion_tokens"@.len() == 17,
        "total_tokens"@.len() == 12,
{
    reveal_strlit("id");
    reveal_strlit("object");
    reveal_strlit("created");
    reveal_strlit("model");
    reveal_strlit("choices");
    reveal_strlit("usage");
    reveal_strlit("index");
    reveal_strlit("delta");
    reveal_strlit("finish_reason");
    reveal_strlit("message");
    reveal_strlit("role");
    reveal_strlit("content");
    reveal_strlit("prompt_tokens");
    reveal_strlit("completion_tokens");
    reveal_strlit("total_tokens");
}

/// Every chunk carries the id, the time and the model of its answer, and one
/// choice, with its delta and its reason to finish, as they are, and nothing
/// else.
pub proof fn lemma_what_every_chunk_carries(head: HeadView, delta: JsonView, finish_reason: JsonView, key: Seq<char>)
    ensures
        ({
            let chunk = head.chunk(delta, finish_reason);
            &&& chunk.get("id"@) == Some(JsonView::String(head.id))
            &&& chunk.get("object"@) == Some(JsonView::String("chat.completion.chunk"@))
            &&& chunk.get("created"@) == Some(JsonView::Number(NumberView::Unsigned(head.created)))
            &&& chunk.get("model"@) == Some(JsonView::String(head.model))
            &&& chunk.get("choices"@) matches Some(JsonView::Array(choices)) && {
                &&& choices.len() == 1
                &&& choices[0].get("index"@) == Some(JsonView::Number(NumberView::Unsigned(0)))
                &&& choices[0].get("delta"@) == Some(delta)
                &&& choices[0].get("finish_reason"@) == Some(finish_reason)
            }
            &&& key != "id"@ && key != "object"@ && key != "created"@ && key != "model"@ && key != "choices"@
                ==> chunk.get(key) is None
        }),
{
    lemma_names_in_chunks_differ();
}

/// The text that a chunk carries: the content of the delta of its one choice.
pub open spec fn content_of(chunk: JsonView) -> Seq<char> {
    match chunk.get("choices"@) {
        Some(JsonView::Array(choices)) => if choices.len() == 1 && choices[0].get("delta"@) is Some {
            choices[0].get("delta"@)->0.get_str("content"@).unwrap_or(Seq::empty())
        } else {
            Seq::empty()
        },
        _ => Seq::empty(),
    }
}

/// The chunk of a text carries that very text, character for character, and says
/// nothing of who speaks; the other chunks carry no text. The first says that
/// the assistant speaks, and only the last says that the answer is complete.
pub proof fn lemma_what_chunks_say(head: HeadView, text: Seq<char>)
    ensures
        head.content_chunk(text).get("choices"@) matches Some(JsonView::Array(choices)) && {
            &&& choices.len() == 1
            &&& choices[0].get("delta"@) matches Some(delta) && delta.get("content"@) == Some(JsonView::String(text))
                && delta.get("role"@) is None
            &&& choices[0].get("finish_reason"@) == Some(JsonView::Null)
        },
        head.role_chunk().get("choices"@) matches Some(JsonView::Array(choices)) && {
            &&& choices.len() == 1
            &&& choices[0].get("delta"@) matches Some(delta) && delta.get("role"@) == Some(
                JsonView::String("assistant"@),
            ) && delta.get("content"@) is None
            &&& choices[0].get("finish_reason"@) == Some(JsonView::Null)
        },
        head.finish_chunk().get("choices"@) matches Some(JsonView::Array(choices)) && {
            &&& choices.len() == 1
            &&& choices[0].get("delta"@) == Some(JsonView::object())
            &&& choices[0].get("finish_reason"@) == Some(JsonView::String("stop"@))
        },
        content_of(head.content_chunk(text)) == text,
        content_of(head.role_chunk()) == Seq::<char>::empty(),
        content_of(head.finish_chunk()) == Seq::<char>::empty(),
        exists|delta: JsonView, reason: JsonView| head.content_chunk(text) == #[trigger] head.chunk(delta, reason),
        exists|delta: JsonView, reason: JsonView| head.role_chunk() == #[trigger] head.chunk(delta, reason),
        exists|delta: JsonView, reason: JsonView| head.finish_chunk() == #[trigger] head.chunk(delta, reason),
{
    lemma_names_in_chunks_differ();
}

/// The texts that chunks carry, in their order.
pub open spec fn contents(chunks: Seq<JsonView>) -> Seq<Seq<char>> {
    chunks.map_values(|chunk: JsonView| content_of(chunk))
}

/// The frames that carry chunks, one each.
pub open spec fn framed(chunks: Seq<JsonView>) -> Seq<Seq<char>> {
    chunks.map_values(|chunk: JsonView| sse_frame(chunk))
}

proof fn lemma_texts_in_chunks(head: HeadView, texts: Seq<Seq<char>>)
    ensures
        head.content_frames(texts) == framed(texts.map_values(|text: Seq<char>| head.content_chunk(text))),
        contents(texts.map_values(|text: Seq<char>| head.content_chunk(text))) == texts,
    decreases texts.len(),
{
    let carry = |text: Seq<char>| head.content_chunk(text);
    let chunks = texts.map_values(carry);
    assert forall|i: int| 0 <= i < texts.len() implies #[trigger] contents(chunks)[i] == texts[i] by {
        lemma_what_chunks_say(head, texts[i]);
    }
    assert(contents(chunks) =~= texts);
    if texts.len() > 0 {
        lemma_texts_in_chunks(head, texts.drop_first());
        assert(framed(chunks) =~= seq![sse_frame(head.content_chunk(texts.first()))] + framed(
            texts.drop_first().map_values(carry),
        ));
    } else {
        assert(framed(chunks) =~= Seq::<Seq<char>>::empty());
    }
}

/// What a client reads out of a stream is the answer: every frame but the mark
/// of the end carries a chunk, and the texts of the chunks, put together in
/// their order, are what is gathered from the same messages.
pub proof fn lemma_client_reads_the_answer(turn: TurnView, head: HeadView, received: Seq<ReceivedView>)
    ensures
        exists|chunks: Seq<JsonView>|
            {
                &&& StreamView::fresh(turn, head).all_frames(received) == #[trigger] framed(chunks).push(
                    "data: [DONE]\n\n"@,
                )
                &&& joined(contents(chunks)) == (OutputView { turn, output: Seq::empty() }).after_all(received).output
                &&& chunks.len() >= 2 && chunks.first() == head.role_chunk() && chunks.last() == head.finish_chunk()
            },
{
    let texts = non_empty(turn.deltas(received));
    let middle = texts.map_values(|text: Seq<char>| head.content_chunk(text));
    let chunks = seq![head.role_chunk()] + middle + seq![head.finish_chunk()];
    lemma_stream_carries_the_output(turn, head, received);
    lemma_texts_in_chunks(head, texts);
    lemma_what_chunks_say(head, Seq::empty());
    assert(framed(chunks) =~= seq![sse_frame(head.role_chunk())] + framed(middle) + seq![
        sse_frame(head.finish_chunk()),
    ]);
    assert(StreamView::fresh(turn, head).all_frames(received) =~= framed(chunks).push("data: [DONE]\n\n"@));
    let nothing = Seq::<char>::empty();
    assert(contents(chunks) =~= seq![nothing] + texts + seq![nothing]);
    lemma_joined_in_order(seq![nothing] + texts, seq![nothing], nothing);
    lemma_joined_in_order(seq![nothing], texts, nothing);
    assert(nothing + joined(texts) + nothing =~= joined(texts));
}

/// Each message is streamed as it comes: a text, where it is not empty, in a
/// frame of its own, after the frame that says who speaks, where that was not
/// sent before; any other message in no frame. What was sent is kept in mind.
pub proof fn lemma_messages_are_streamed_as_they_come(stream: StreamView, received: ReceivedView, text: Seq<char>)
    ensures
        stream.turn.step(received) == TurnStepView::Delta(text) ==> {
            let role = sse_frame(stream.head.role_chunk());
            let content = sse_frame(stream.head.content_chunk(text));
            &&& stream.sent_role && text.len() > 0 ==> stream.frames(received) == seq![content]
            &&& !stream.sent_role && text.len() > 0 ==> stream.frames(received) == seq![role, content]
            &&& stream.sent_role && text.len() == 0 ==> stream.frames(received) == Seq::<Seq<char>>::empty()
            &&& !stream.sent_role && text.len() == 0 ==> stream.frames(received) == seq![role]
            &&& stream.after(received).sent_role
            &&& stream.after(received).sent_any_delta <==> stream.sent_any_delta || text.len() > 0
        },
        !(stream.turn.step(received) is Delta) ==> {
            &&& stream.frames(received) == Seq::<Seq<char>>::empty()
            &&& stream.after(received) == stream
        },
        stream.after(received).turn == stream.turn,
        stream.after(received).head == stream.head,
        !stream.sent_role ==> stream.last_frames() == seq![
            sse_frame(stream.head.role_chunk()),
            sse_frame(stream.head.finish_chunk()),
            "data: [DONE]\n\n"@,
        ],
        stream.sent_role ==> stream.last_frames() == seq![
            sse_frame(stream.head.finish_chunk()),
            "data: [DONE]\n\n"@,
        ],
{
    let role = sse_frame(stream.head.role_chunk());
    let content = sse_frame(stream.head.content_chunk(text));
    if stream.turn.step(received) == TurnStepView::Delta(text) {
        if stream.sent_role {
            assert(text.len() > 0 ==> stream.frames(received) =~= seq![content]);
        } else {
            assert(text.len() > 0 ==> stream.frames(received) =~= seq![role, content]);
            assert(text.len() == 0 ==> stream.frames(received) =~= seq![role]);
        }
    }
    assert(stream.sent_role ==> stream.last_frames() =~= seq![
        sse_frame(stream.head.finish_chunk()),
        "data: [DONE]\n\n"@,
    ]);
    assert(!stream.sent_role ==> stream.last_frames() =~= seq![
        role,
        sse_frame(stream.head.finish_chunk()),
        "data: [DONE]\n\n"@,
    ]);
}

/// A whole answer carries its time, its model and its text as they are, an id
/// made of the time, and no count of tokens.
pub proof fn lemma_what_a_completion_carries(created: u64, model: Seq<char>, content: Seq<char>, key: Seq<char>)
    ensures
        ({
            let whole = completion_document(created, model, content);
            &&& whole.get("id"@) == Some(JsonView::String("chatcmpl-"@ + decimal(created as nat)))
            &&& whole.get("object"@) == Some(JsonView::String("chat.completion"@))
            &&& whole.get("created"@) == Some(JsonView::Number(NumberView::Unsigned(created)))
            &&& whole.get("model"@) == Some(JsonView::String(model))
            &&& whole.get("choices"@) matches Some(JsonView::Array(choices)) && {
                &&& choices.len() == 1
                &&& choices[0].get("index"@) == Some(JsonView::Number(NumberView::Unsigned(0)))
                &&& choices[0].get("finish_reason"@) == Some(JsonView::String("stop"@))
                &&& choices[0].get("message"@) matches Some(message) && {
                    &&& message.get("role"@) == Some(JsonView::String("assistant"@))
                    &&& message.get("content"@) == Some(JsonView::String(content))
                }
            }
            &&& whole.get("usage"@) matches Some(usage) && {
                &&& usage.get("prompt_tokens"@) == Some(JsonView::Number(NumberView::Unsigned(0)))
                &&& usage.get("completion_tokens"@) == Some(JsonView::Number(NumberView::Unsigned(0)))
                &&& usage.get("total_tokens"@) == Some(JsonView::Number(NumberView::Unsigned(0)))
            }
            &&& key != "id"@ && key != "object"@ && key != "created"@ && key != "model"@ && key != "choices"@ && key
                != "usage"@ ==> whole.get(key) is None
        }),
{
    lemma_names_in_chunks_differ();
}

/// Turns, messages and what they mean are seen with all that they hold.
pub proof fn lemma_turns_are_seen_whole(
    turn: Turn,
    head: ChunkHead,
    received: Received,
    step: TurnStep,
    wait: WaitStep,
)
    ensures
        turn@.thread_id == turn.thread_id@,
        turn@.turn_id == turn.turn_id.deep_view(),
        head@.id == head.id@,
        head@.created == head.created,
        head@.model == head.model@,
        received matches Received::Event(event) ==> received@ == ReceivedView::Event(event@),
        received is Lagged ==> received@ is Lagged,
        received is Closed ==> received@ is Closed,
        step matches TurnStep::Delta(text) ==> step@ == TurnStepView::Delta(text@),
        step is Pass ==> step@ is Pass,
        step is Over ==> step@ is Over,
        wait matches WaitStep::Over(id) ==> wait@ == WaitView::Over(id.deep_view()),
        wait is Wait ==> wait@ is Wait,
{
}

} // verus!
