//! What the shim remembers between requests.

use vstd::hash_map::StringHashMap;
use vstd::prelude::*;

use crate::config::{CodexShimConfig, ConfigView, LaunchCommand, app_server_program, launch_command};

verus! {

/// The Codex thread of each Jan thread that has one.
pub struct ThreadMap {
    threads: StringHashMap<String>,
}

impl View for ThreadMap {
    type V = Map<Seq<char>, Seq<char>>;

    closed spec fn view(&self) -> Map<Seq<char>, Seq<char>> {
        self.threads@.map_values(|thread_id: String| thread_id@)
    }
}

impl ThreadMap {
    /// A map without threads.
    pub fn new() -> (r: ThreadMap)
        ensures
            r@ == Map::<Seq<char>, Seq<char>>::empty(),
    {
        ThreadMap { threads: StringHashMap::new() }
    }

    /// The Codex thread of a Jan thread, where it has one.
    pub fn get(&self, jan_thread_id: &str) -> (r: Option<&String>)
        ensures
            match r {
                Some(thread_id) => {
                    &&& self@.dom().contains(jan_thread_id@)
                    &&& self@[jan_thread_id@] == thread_id@
                },
                None => !self@.dom().contains(jan_thread_id@),
            },
    {
        self.threads.get(jan_thread_id)
    }

    /// Gives a Jan thread its Codex thread, in place of the one that it had.
    pub fn insert(&mut self, jan_thread_id: String, thread_id: String)
        ensures
            final(self)@ == old(self)@.insert(jan_thread_id@, thread_id@),
    {
        self.threads.insert(jan_thread_id, thread_id);
    }
}

impl Default for ThreadMap {
    fn default() -> (r: Self)
        ensures
            r@ == Map::<Seq<char>, Seq<char>>::empty(),
    {
        ThreadMap::new()
    }
}

/// What the shim remembers: its settings, the port that its server listens on,
/// the app server that was started last, and the Codex threads of Jan's.
pub struct CodexShimState<P> {
    pub config: CodexShimConfig,
    pub port: Option<u16>,
    pub codex: Option<P>,
    pub thread_map: ThreadMap,
}

/// What the shim remembers, by its contents.
#[verifier::ext_equal]
pub struct StateView<P> {
    pub config: ConfigView,
    pub port: Option<u16>,
    pub codex: Option<P>,
    pub threads: Map<Seq<char>, Seq<char>>,
}

impl<P> View for CodexShimState<P> {
    type V = StateView<P>;

    open spec fn view(&self) -> StateView<P> {
        StateView { config: self.config@, port: self.port, codex: self.codex, threads: self.thread_map@ }
    }
}

/// What a start of the server comes to.
#[derive(Debug, Clone, Copy)]
pub enum StartPlan {
    /// The server that runs stays, and listens on this port.
    Keep(u16),
    /// The server that runs, if one does, is stopped, and a new one is bound.
    Bind,
}

impl<P> StateView<P> {
    /// What a start of the server comes to. A server that already listens where
    /// it is asked to stays.
    pub open spec fn start_plan(self, running: bool, config: ConfigView) -> StartPlan {
        if running && self.config.same_bind(config) {
            StartPlan::Keep(self.port.unwrap_or(config.port))
        } else {
            StartPlan::Bind
        }
    }

    /// The state once a start is under way: the new settings hold, and the port
    /// is forgotten where a new server has to be bound.
    pub open spec fn starting(self, running: bool, config: ConfigView) -> StateView<P> {
        StateView {
            config,
            port: match self.start_plan(running, config) {
                StartPlan::Keep(_) => self.port,
                StartPlan::Bind => None,
            },
            ..self
        }
    }

    /// The state once the server is bound.
    pub open spec fn bound(self, port: u16) -> StateView<P> {
        StateView { port: Some(port), ..self }
    }

    /// The state without an app server.
    pub open spec fn without_codex(self) -> StateView<P> {
        StateView { codex: None, ..self }
    }

    /// The state with an app server that was started.
    pub open spec fn with_codex(self, process: P) -> StateView<P> {
        StateView { codex: Some(process), ..self }
    }

    /// The state with the Codex thread of a Jan thread, where there is one to
    /// remember it for.
    pub open spec fn with_thread(self, jan_thread_id: Option<Seq<char>>, thread_id: Seq<char>) -> StateView<P> {
        match jan_thread_id {
            Some(jan) => StateView { threads: self.threads.insert(jan, thread_id), ..self },
            None => self,
        }
    }

    /// The Codex thread of a Jan thread, where it has one.
    pub open spec fn thread(self, jan_thread_id: Option<Seq<char>>) -> Option<Seq<char>> {
        match jan_thread_id {
            Some(jan) => if self.threads.dom().contains(jan) {
                Some(self.threads[jan])
            } else {
                None
            },
            None => None,
        }
    }
}

impl<P> Default for CodexShimState<P> {
    fn default() -> (r: Self)
        ensures
            r@ == (StateView::<P> {
                config: ConfigView::unset(),
                port: None,
                codex: None,
                threads: Map::empty(),
            }),
    {
        CodexShimState {
            config: CodexShimConfig::default(),
            port: None,
            codex: None,
            thread_map: ThreadMap::new(),
        }
    }
}

/// What comes of the question whether an app server has to be started.
#[derive(Debug)]
pub enum ProcessPlan<'a, P> {
    /// The one that was started last still runs and is used.
    Reuse(&'a P),
    /// A new one is started.
    Launch(LaunchCommand),
}

impl<P> CodexShimState<P> {
    /// Starts the server under new settings, given whether one runs.
    pub fn start_server(&mut self, running: bool, config: CodexShimConfig) -> (r: StartPlan)
        ensures
            r == old(self)@.start_plan(running, config@),
            final(self)@ == old(self)@.starting(running, config@),
    {
        let same_bind: bool = running && self.config.same_bind(&config);
        let port: u16 = config.port;
        self.config = config;
        if same_bind {
            match self.port {
                Some(bound) => StartPlan::Keep(bound),
                None => StartPlan::Keep(port),
            }
        } else {
            self.port = None;
            StartPlan::Bind
        }
    }

    /// Remembers the port of the server that was bound.
    pub fn server_bound(&mut self, port: u16)
        ensures
            final(self)@ == old(self)@.bound(port),
    {
        self.port = Some(port);
    }

    /// Stops the shim: hands out the app server, which is to be shut down.
    pub fn stop_server(&mut self) -> (r: Option<P>)
        ensures
            r == old(self)@.codex,
            final(self)@ == old(self)@.without_codex(),
    {
        self.codex.take()
    }

    /// Whether an app server has to be started, given whether the one that was
    /// started last still runs.
    pub fn ensure_codex_process(&self, alive: bool) -> (r: ProcessPlan<'_, P>)
        ensures
            match r {
                ProcessPlan::Reuse(process) => self@.codex == Some(*process) && alive,
                ProcessPlan::Launch(command) => {
                    &&& !(self@.codex is Some && alive)
                    &&& command.program@ == app_server_program(self@.config.codex_app_server_path)
                    &&& command.args.deep_view() == seq!["app-server"@]
                },
            },
    {
        match &self.codex {
            Some(process) if alive => ProcessPlan::Reuse(process),
            _ => ProcessPlan::Launch(launch_command(&self.config)),
        }
    }

    /// Remembers the app server that was started.
    pub fn codex_started(&mut self, process: P)
        ensures
            final(self)@ == old(self)@.with_codex(process),
    {
        self.codex = Some(process);
    }
}

/// A server that was bound to a port is found there by every later start for
/// the same address, which leaves it running; only the settings change.
pub proof fn lemma_same_address_keeps_the_server<P>(
    state: StateView<P>,
    running: bool,
    first: ConfigView,
    port: u16,
    second: ConfigView,
)
    requires
        first.same_bind(second),
        state.start_plan(running, first) is Bind,
    ensures
        ({
            let serving = state.starting(running, first).bound(port);
            &&& serving.start_plan(true, second) == StartPlan::Keep(port)
            &&& serving.starting(true, second) == (StateView { config: second, ..serving })
        }),
{
}

/// A start for another address, or with no server running, always binds a new
/// one and forgets the port of the old one until that is done.
pub proof fn lemma_new_address_binds_a_server<P>(state: StateView<P>, running: bool, config: ConfigView)
    requires
        !running || !state.config.same_bind(config),
    ensures
        state.start_plan(running, config) is Bind,
        state.starting(running, config).port is None,
        state.starting(running, config).config == config,
{
}

/// Neither a start nor a stop of the server forgets a thread, so that
/// conversations go on after it.
pub proof fn lemma_threads_survive_restarts<P>(
    state: StateView<P>,
    running: bool,
    config: ConfigView,
    port: u16,
    process: P,
    jan_thread_id: Option<Seq<char>>,
)
    ensures
        state.starting(running, config).thread(jan_thread_id) == state.thread(jan_thread_id),
        state.bound(port).thread(jan_thread_id) == state.thread(jan_thread_id),
        state.without_codex().thread(jan_thread_id) == state.thread(jan_thread_id),
        state.with_codex(process).thread(jan_thread_id) == state.thread(jan_thread_id),
{
}

/// What each step of the shim's life changes, and what it leaves as it is.
pub proof fn lemma_what_the_shim_changes<P>(
    state: StateView<P>,
    running: bool,
    config: ConfigView,
    port: u16,
    process: P,
)
    ensures
        running && state.config.host == config.host && state.config.port == config.port ==> {
            &&& state.port matches Some(bound) ==> state.start_plan(running, config) == StartPlan::Keep(bound)
            &&& state.port is None ==> state.start_plan(running, config) == StartPlan::Keep(config.port)
            &&& state.starting(running, config).port == state.port
        },
        !running || state.config.host != config.host || state.config.port != config.port ==> {
            &&& state.start_plan(running, config) is Bind
            &&& state.starting(running, config).port is None
        },
        state.starting(running, config).config == config,
        state.starting(running, config).codex == state.codex,
        state.starting(running, config).threads == state.threads,
        state.bound(port) == (StateView::<P> {
            config: state.config,
            port: Some(port),
            codex: state.codex,
            threads: state.threads,
        }),
        state.without_codex() == (StateView::<P> {
            config: state.config,
            port: state.port,
            codex: None,
            threads: state.threads,
        }),
        state.with_codex(process) == (StateView {
            config: state.config,
            port: state.port,
            codex: Some(process),
            threads: state.threads,
        }),
{
}

/// A thread that is remembered for a Jan thread is found for it, and every other
/// Jan thread finds what it found before; nothing else changes.
pub proof fn lemma_remembered_thread_is_found<P>(
    state: StateView<P>,
    jan: Seq<char>,
    thread_id: Seq<char>,
    other: Seq<char>,
)
    ensures
        state.with_thread(Some(jan), thread_id).thread(Some(jan)) == Some(thread_id),
        other != jan ==> state.with_thread(Some(jan), thread_id).thread(Some(other)) == state.thread(Some(other)),
        state.with_thread(None, thread_id) == state,
        state.thread(None) is None,
        state.threads.dom().contains(jan) ==> state.thread(Some(jan)) == Some(state.threads[jan]),
        !state.threads.dom().contains(jan) ==> state.thread(Some(jan)) is None,
        state.with_thread(Some(jan), thread_id).config == state.config,
        state.with_thread(Some(jan), thread_id).port == state.port,
        state.with_thread(Some(jan), thread_id).codex == state.codex,
{
}

/// What the shim remembers is seen whole.
pub proof fn lemma_state_is_seen_whole<P>(state: CodexShimState<P>)
    ensures
        state@.config == state.config@,
        state@.port == state.port,
        state@.codex == state.codex,
        state@.threads == state.thread_map@,
{
}

} // verus!
