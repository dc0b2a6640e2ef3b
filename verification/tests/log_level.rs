use codex_shim::log_level::{parse_log_level, resolve_log_level_from_args, LevelFilter, LogLevelChoice};

fn resolve(args: &[&str]) -> LogLevelChoice {
    let owned: Vec<String> = args.iter().map(|s| s.to_string()).collect();
    resolve_log_level_from_args(&owned)
}

#[test]
fn levels_are_read_in_any_case() {
    assert_eq!(parse_log_level("error"), Ok(LevelFilter::Error));
    assert_eq!(parse_log_level("warn"), Ok(LevelFilter::Warn));
    assert_eq!(parse_log_level("WARNING"), Ok(LevelFilter::Warn));
    assert_eq!(parse_log_level("Info"), Ok(LevelFilter::Info));
    assert_eq!(parse_log_level("dEbUg"), Ok(LevelFilter::Debug));
    assert_eq!(parse_log_level("trace"), Ok(LevelFilter::Trace));
    assert_eq!(parse_log_level("OFF"), Ok(LevelFilter::Off));
}

#[test]
fn unknown_levels_are_refused() {
    assert_eq!(
        parse_log_level("LOUD"),
        Err("Unrecognized log level 'loud'. Expected one of: error, warn, info, debug, trace, off".to_string())
    );
    assert!(parse_log_level("").is_err());
    assert!(parse_log_level(" warn").is_err());
}

#[test]
fn the_flag_is_read_with_its_value_attached_or_after_it() {
    let attached = resolve(&["jan", "--log-level=warn"]);
    assert_eq!(attached.level, LevelFilter::Warn);
    assert_eq!(attached.source.as_deref(), Some("--log-level"));
    assert_eq!(attached.complaint, None);
    let separate = resolve(&["jan", "--other", "--log-level", "Trace"]);
    assert_eq!(separate.level, LevelFilter::Trace);
    assert_eq!(separate.source.as_deref(), Some("--log-level"));
}

#[test]
fn without_the_flag_the_level_is_debug() {
    for args in [&[][..], &["jan"][..], &["--log-level=error"][..], &["jan", "--log-levels=error"][..]] {
        let choice = resolve(args);
        assert_eq!(choice.level, LevelFilter::Debug);
        assert_eq!(choice.source, None);
        assert_eq!(choice.complaint, None);
    }
}

#[test]
fn a_bad_value_is_complained_of() {
    for args in [&["jan", "--log-level=loud"][..], &["jan", "--log-level", "loud"][..]] {
        let choice = resolve(args);
        assert_eq!(choice.level, LevelFilter::Debug);
        assert_eq!(choice.source.as_deref(), Some("--log-level (invalid value)"));
        assert_eq!(
            choice.complaint.as_deref(),
            Some("Unrecognized log level 'loud'. Expected one of: error, warn, info, debug, trace, off")
        );
    }
}

#[test]
fn a_missing_value_is_complained_of() {
    let choice = resolve(&["jan", "--log-level"]);
    assert_eq!(choice.level, LevelFilter::Debug);
    assert_eq!(choice.source.as_deref(), Some("--log-level"));
    assert_eq!(
        choice.complaint.as_deref(),
        Some("--log-level flag requires a value (error, warn, info, debug, trace, off)")
    );
}

#[test]
fn the_first_flag_decides() {
    assert_eq!(resolve(&["jan", "--log-level=off", "--log-level=error"]).level, LevelFilter::Off);
    assert_eq!(resolve(&["jan", "--log-level", "info", "--log-level=error"]).level, LevelFilter::Info);
    let taken = resolve(&["jan", "--log-level", "--log-level=error"]);
    assert_eq!(taken.source.as_deref(), Some("--log-level (invalid value)"));
}
