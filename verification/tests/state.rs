use codex_shim::config::CodexShimConfig;
use codex_shim::state::{CodexShimState, ProcessPlan, StartPlan, ThreadMap};

fn at(host: &str, port: u16, tool_mode: &str) -> CodexShimConfig {
    CodexShimConfig {
        host: host.to_string(),
        port,
        tool_mode: tool_mode.to_string(),
        model_id: None,
        codex_app_server_path: None,
    }
}

#[test]
fn a_server_at_the_same_address_stays() {
    let mut state: CodexShimState<u32> = CodexShimState::default();
    assert!(matches!(state.start_server(false, at("127.0.0.1", 0, "jan")), StartPlan::Bind));
    assert_eq!(state.port, None);
    state.server_bound(4711);
    assert!(matches!(state.start_server(true, at("127.0.0.1", 0, "codex")), StartPlan::Keep(4711)));
    assert_eq!(state.config.tool_mode, "codex");
    assert_eq!(state.port, Some(4711));
}

#[test]
fn a_server_without_a_known_port_is_taken_to_have_the_asked_one() {
    let mut state: CodexShimState<u32> = CodexShimState::default();
    state.config = at("127.0.0.1", 1338, "jan");
    assert!(matches!(state.start_server(true, at("127.0.0.1", 1338, "jan")), StartPlan::Keep(1338)));
}

#[test]
fn another_address_binds_a_new_server() {
    let mut state: CodexShimState<u32> = CodexShimState::default();
    state.start_server(false, at("127.0.0.1", 0, "jan"));
    state.server_bound(4711);
    assert!(matches!(state.start_server(true, at("127.0.0.1", 9, "jan")), StartPlan::Bind));
    assert_eq!(state.port, None);
    assert_eq!(state.config.port, 9);
    state.server_bound(9);
    assert!(matches!(state.start_server(true, at("0.0.0.0", 9, "jan")), StartPlan::Bind));
    assert!(matches!(state.start_server(false, at("0.0.0.0", 9, "jan")), StartPlan::Bind));
}

#[test]
fn an_app_server_is_reused_while_it_runs() {
    let mut state: CodexShimState<u32> = CodexShimState::default();
    match state.ensure_codex_process(true) {
        ProcessPlan::Launch(command) => {
            assert_eq!(command.program, "codex");
            assert_eq!(command.args, vec!["app-server"]);
        }
        ProcessPlan::Reuse(process) => panic!("nothing to reuse: {}", process),
    }
    state.codex_started(3);
    assert!(matches!(state.ensure_codex_process(true), ProcessPlan::Reuse(3)));
    assert!(matches!(state.ensure_codex_process(false), ProcessPlan::Launch(_)));
}

#[test]
fn a_stop_hands_out_the_app_server_and_keeps_the_threads() {
    let mut state: CodexShimState<u32> = CodexShimState::default();
    state.codex_started(3);
    state.thread_map.insert("jan".to_string(), "codex".to_string());
    assert_eq!(state.stop_server(), Some(3));
    assert_eq!(state.stop_server(), None);
    state.start_server(false, at("127.0.0.1", 0, "jan"));
    assert_eq!(state.thread_map.get("jan").map(|s| s.as_str()), Some("codex"));
}

#[test]
fn threads_are_remembered_one_to_a_name() {
    let mut threads = ThreadMap::default();
    assert_eq!(threads.get("a"), None);
    threads.insert("a".to_string(), "1".to_string());
    threads.insert("b".to_string(), "2".to_string());
    threads.insert("a".to_string(), "3".to_string());
    assert_eq!(threads.get("a").map(|s| s.as_str()), Some("3"));
    assert_eq!(threads.get("b").map(|s| s.as_str()), Some("2"));
    assert_eq!(ThreadMap::new().get("a"), None);
}
