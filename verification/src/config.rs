//! The settings of the shim.

use vstd::prelude::*;

use crate::text::{blank, is_blank, same_text};

verus! {

/// The settings that the shim runs with.
#[derive(Debug)]
pub struct CodexShimConfig {
    /// The address that the server listens on.
    pub host: String,
    /// The port that the server listens on; zero for any free one.
    pub port: u16,
    /// Who runs tools: Codex in the mode `codex`, Jan in any other.
    pub tool_mode: String,
    /// The model of requests that name none.
    pub model_id: Option<String>,
    /// The program of the app server.
    pub codex_app_server_path: Option<String>,
}

/// Settings, by their texts.
pub struct ConfigView {
    pub host: Seq<char>,
    pub port: u16,
    pub tool_mode: Seq<char>,
    pub model_id: Option<Seq<char>>,
    pub codex_app_server_path: Option<Seq<char>>,
}

impl View for CodexShimConfig {
    type V = ConfigView;

    open spec fn view(&self) -> ConfigView {
        ConfigView {
            host: self.host@,
            port: self.port,
            tool_mode: self.tool_mode@,
            model_id: self.model_id.deep_view(),
            codex_app_server_path: self.codex_app_server_path.deep_view(),
        }
    }
}

impl ConfigView {
    /// The settings before any are made.
    pub open spec fn unset() -> ConfigView {
        ConfigView {
            host: Seq::empty(),
            port: 0,
            tool_mode: Seq::empty(),
            model_id: None,
            codex_app_server_path: None,
        }
    }

    /// Whether a server under these settings listens where one under the others
    /// does.
    pub open spec fn same_bind(self, other: ConfigView) -> bool {
        self.host == other.host && self.port == other.port
    }
}

impl Clone for CodexShimConfig {
    fn clone(&self) -> (r: Self)
        ensures
            r == *self,
    {
        CodexShimConfig {
            host: self.host.clone(),
            port: self.port,
            tool_mode: self.tool_mode.clone(),
            model_id: self.model_id.clone(),
            codex_app_server_path: self.codex_app_server_path.clone(),
        }
    }
}

impl Default for CodexShimConfig {
    fn default() -> (r: Self)
        ensures
            r@ == ConfigView::unset(),
    {
        CodexShimConfig {
            host: String::new(),
            port: 0,
            tool_mode: String::new(),
            model_id: None,
            codex_app_server_path: None,
        }
    }
}

impl CodexShimConfig {
    /// Whether a server under these settings listens where one under the others
    /// does.
    pub fn same_bind(&self, other: &CodexShimConfig) -> (r: bool)
        ensures
            r == self@.same_bind(other@),
    {
        same_text(self.host.as_str(), other.host.as_str()) && self.port == other.port
    }
}

/// The settings that a start of the shim is asked for with.
#[derive(Debug)]
pub struct StartCodexShimConfig {
    pub host: String,
    pub port: u16,
    pub tool_mode: String,
    pub model_id: Option<String>,
    pub codex_app_server_path: Option<String>,
}

impl From<StartCodexShimConfig> for CodexShimConfig {
    fn from(config: StartCodexShimConfig) -> (r: Self) {
        CodexShimConfig {
            host: config.host,
            port: config.port,
            tool_mode: config.tool_mode,
            model_id: config.model_id,
            codex_app_server_path: config.codex_app_server_path,
        }
    }
}

impl vstd::std_specs::convert::FromSpecImpl<StartCodexShimConfig> for CodexShimConfig {
    open spec fn obeys_from_spec() -> bool {
        true
    }

    open spec fn from_spec(config: StartCodexShimConfig) -> CodexShimConfig {
        CodexShimConfig {
            host: config.host,
            port: config.port,
            tool_mode: config.tool_mode,
            model_id: config.model_id,
            codex_app_server_path: config.codex_app_server_path,
        }
    }
}

/// The model of a request: the one that it names, unless that is blank or the
/// name of the shim itself; or else the one of the settings, unless that is
/// blank.
pub open spec fn picked_model(configured: Option<Seq<char>>, requested: Option<Seq<char>>) -> Option<Seq<char>> {
    if requested is Some && !blank(requested->0) && requested->0 != "codex-app-server"@ {
        requested
    } else if configured is Some && !blank(configured->0) {
        configured
    } else {
        None
    }
}

/// The model of a request.
pub fn pick_model_id(config: &CodexShimConfig, requested: Option<String>) -> (r: Option<String>)
    ensures
        r.deep_view() == picked_model(config@.model_id, requested.deep_view()),
{
    if let Some(requested) = requested {
        if !is_blank(requested.as_str()) && !same_text(requested.as_str(), "codex-app-server") {
            return Some(requested);
        }
    }
    match &config.model_id {
        Some(model_id) => {
            if is_blank(model_id.as_str()) {
                None
            } else {
                Some(model_id.clone())
            }
        },
        None => None,
    }
}

/// A model that is picked has a name.
pub proof fn lemma_picked_model_has_a_name(configured: Option<Seq<char>>, requested: Option<Seq<char>>)
    ensures
        picked_model(configured, requested) matches Some(model) ==> !blank(model),
{
}

/// A program with its arguments.
#[derive(Debug)]
pub struct LaunchCommand {
    pub program: String,
    pub args: Vec<String>,
}

/// The program of the app server: the one of the settings, or, where that is
/// not set or empty, the one that the search path has under the name `codex`.
pub open spec fn app_server_program(path: Option<Seq<char>>) -> Seq<char> {
    if path is Some && path->0.len() > 0 {
        path->0
    } else {
        "codex"@
    }
}

/// How the app server is started.
pub fn launch_command(config: &CodexShimConfig) -> (r: LaunchCommand)
    ensures
        r.program@ == app_server_program(config@.codex_app_server_path),
        r.args.deep_view() == seq!["app-server"@],
{
    let program: String = match &config.codex_app_server_path {
        Some(path) => {
            if path.as_str().is_empty() {
                "codex".to_string()
            } else {
                path.clone()
            }
        },
        None => "codex".to_string(),
    };
    let mut args: Vec<String> = Vec::new();
    args.push("app-server".to_string());
    proof {
        assert(args.deep_view() == seq!["app-server"@]);
    }
    LaunchCommand { program, args }
}

/// A request gets the model that it names, as it names it; one that names none,
/// a blank one or the shim gets the one of the settings, unless that is blank.
pub proof fn lemma_which_model_is_picked(configured: Option<Seq<char>>, requested: Option<Seq<char>>, name: Seq<char>)
    ensures
        requested == Some(name) && !blank(name) && name != "codex-app-server"@ ==> picked_model(configured, requested)
            == Some(name),
        requested is None || blank(requested->0) || requested->0 == "codex-app-server"@ ==> {
            &&& configured == Some(name) && !blank(name) ==> picked_model(configured, requested) == Some(name)
            &&& configured is None || blank(configured->0) ==> picked_model(configured, requested) is None
        },
{
}

/// The app server is the program of the settings, as it is set, and `codex`
/// where none is set or it is empty.
pub proof fn lemma_which_program_is_started(path: Seq<char>)
    ensures
        path.len() > 0 ==> app_server_program(Some(path)) == path,
        app_server_program(Some(Seq::empty())) == "codex"@,
        app_server_program(None) == "codex"@,
{
}

/// Servers listen at the same place exactly where host and port are the same,
/// whatever the other settings are.
pub proof fn lemma_where_servers_listen(a: ConfigView, b: ConfigView)
    ensures
        a.same_bind(b) <==> a.host == b.host && a.port == b.port,
        a.same_bind(b) <==> b.same_bind(a),
{
}

/// Settings are seen with every one that there is; before any are made, the
/// texts are empty, the port is left open, and nothing is named.
pub proof fn lemma_settings_are_seen_whole(config: CodexShimConfig)
    ensures
        config@.host == config.host@,
        config@.port == config.port,
        config@.tool_mode == config.tool_mode@,
        config@.model_id == config.model_id.deep_view(),
        config@.codex_app_server_path == config.codex_app_server_path.deep_view(),
        ConfigView::unset().host.len() == 0 && ConfigView::unset().tool_mode.len() == 0,
        ConfigView::unset().port == 0,
        ConfigView::unset().model_id is None && ConfigView::unset().codex_app_server_path is None,
{
}

/// The settings of a start are taken over whole.
pub proof fn lemma_settings_are_taken_over(config: StartCodexShimConfig)
    ensures
        ({
            let taken = <CodexShimConfig as vstd::std_specs::convert::FromSpec<StartCodexShimConfig>>::from_spec(config);
            &&& taken.host == config.host
            &&& taken.port == config.port
            &&& taken.tool_mode == config.tool_mode
            &&& taken.model_id == config.model_id
            &&& taken.codex_app_server_path == config.codex_app_server_path
        }),
{
}

} // verus!
