use codex_shim::config::{launch_command, pick_model_id, CodexShimConfig, StartCodexShimConfig};

fn config(model_id: Option<&str>, path: Option<&str>) -> CodexShimConfig {
    CodexShimConfig {
        host: "127.0.0.1".to_string(),
        port: 1338,
        tool_mode: "jan".to_string(),
        model_id: model_id.map(|s| s.to_string()),
        codex_app_server_path: path.map(|s| s.to_string()),
    }
}

fn requested(model: &str) -> Option<String> {
    Some(model.to_string())
}

#[test]
fn a_requested_model_is_picked() {
    assert_eq!(pick_model_id(&config(Some("c"), None), requested("r")), requested("r"));
    assert_eq!(pick_model_id(&config(None, None), requested(" r ")), requested(" r "));
}

#[test]
fn the_configured_model_stands_in() {
    assert_eq!(pick_model_id(&config(Some("c"), None), None), requested("c"));
    assert_eq!(pick_model_id(&config(Some("c"), None), requested(" \t")), requested("c"));
    assert_eq!(pick_model_id(&config(Some("c"), None), requested("codex-app-server")), requested("c"));
}

#[test]
fn blank_models_are_not_picked() {
    assert_eq!(pick_model_id(&config(Some("  "), None), None), None);
    assert_eq!(pick_model_id(&config(Some(""), None), requested("")), None);
    assert_eq!(pick_model_id(&config(None, None), requested("codex-app-server")), None);
}

#[test]
fn the_app_server_is_found_by_its_path_or_its_name() {
    let explicit = launch_command(&config(None, Some("/opt/codex")));
    assert_eq!(explicit.program, "/opt/codex");
    assert_eq!(explicit.args, vec!["app-server"]);
    assert_eq!(launch_command(&config(None, None)).program, "codex");
    assert_eq!(launch_command(&config(None, Some(""))).program, "codex");
}

#[test]
fn settings_are_taken_over_whole() {
    let settings = CodexShimConfig::from(StartCodexShimConfig {
        host: "h".to_string(),
        port: 7,
        tool_mode: "codex".to_string(),
        model_id: Some("m".to_string()),
        codex_app_server_path: Some("p".to_string()),
    });
    assert_eq!(settings.host, "h");
    assert_eq!(settings.port, 7);
    assert_eq!(settings.tool_mode, "codex");
    assert_eq!(settings.model_id.as_deref(), Some("m"));
    assert_eq!(settings.codex_app_server_path.as_deref(), Some("p"));
    let copy = settings.clone();
    assert!(copy.same_bind(&settings));
    assert_eq!(copy.model_id, settings.model_id);
}

#[test]
fn nothing_is_set_by_default() {
    let unset = CodexShimConfig::default();
    assert_eq!(unset.host, "");
    assert_eq!(unset.port, 0);
    assert_eq!(unset.tool_mode, "");
    assert_eq!(unset.model_id, None);
    assert_eq!(unset.codex_app_server_path, None);
    assert!(!unset.same_bind(&config(None, None)));
}
