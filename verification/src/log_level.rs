//! The level of the log, as the command line asks for it.

use vstd::prelude::*;

use crate::text::{ascii_lowercase, ascii_lowercase_char, has_prefix, same_text, strip_prefix};

verus! {

/// How much is logged.
#[derive(Debug, Clone, Copy, PartialEq, Eq, Structural)]
pub enum LevelFilter {
    Off,
    Error,
    Warn,
    Info,
    Debug,
    Trace,
}

/// The level that a name stands for, in lower case.
pub open spec fn level_named(name: Seq<char>) -> Option<LevelFilter> {
    if name == "error"@ {
        Some(LevelFilter::Error)
    } else if name == "warn"@ || name == "warning"@ {
        Some(LevelFilter::Warn)
    } else if name == "info"@ {
        Some(LevelFilter::Info)
    } else if name == "debug"@ {
        Some(LevelFilter::Debug)
    } else if name == "trace"@ {
        Some(LevelFilter::Trace)
    } else if name == "off"@ {
        Some(LevelFilter::Off)
    } else {
        None
    }
}

/// What is said of a name that no level has.
pub open spec fn unrecognized(name: Seq<char>) -> Seq<char> {
    "Unrecognized log level '"@ + name + "'. Expected one of: error, warn, info, debug, trace, off"@
}

/// The level that a text asks for, in any case, or what is said where it asks
/// for none.
pub open spec fn parsed_level(value: Seq<char>) -> Result<LevelFilter, Seq<char>> {
    let name = ascii_lowercase(value);
    match level_named(name) {
        Some(level) => Ok(level),
        None => Err(unrecognized(name)),
    }
}

/// The level that a text asks for, in any case.
pub fn parse_log_level(value: &str) -> (r: Result<LevelFilter, String>)
    ensures
        match r {
            Ok(level) => parsed_level(value@) == Ok::<LevelFilter, Seq<char>>(level),
            Err(text) => parsed_level(value@) == Err::<LevelFilter, Seq<char>>(text@),
        },
{
    let lower: String = value.to_ascii_lowercase();
    let name: &str = lower.as_str();
    if same_text(name, "error") {
        Ok(LevelFilter::Error)
    } else if same_text(name, "warn") || same_text(name, "warning") {
        Ok(LevelFilter::Warn)
    } else if same_text(name, "info") {
        Ok(LevelFilter::Info)
    } else if same_text(name, "debug") {
        Ok(LevelFilter::Debug)
    } else if same_text(name, "trace") {
        Ok(LevelFilter::Trace)
    } else if same_text(name, "off") {
        Ok(LevelFilter::Off)
    } else {
        Err(
            "Unrecognized log level '".to_string().concat(name).concat(
                "'. Expected one of: error, warn, info, debug, trace, off",
            ),
        )
    }
}

/// The case of ASCII letters does not matter to the level that a text asks for,
/// nor to what is said where it asks for none.
pub proof fn lemma_level_ignores_case(a: Seq<char>, b: Seq<char>)
    requires
        ascii_lowercase(a) == ascii_lowercase(b),
    ensures
        parsed_level(a) == parsed_level(b),
{
}

/// To make a text lower case twice is to do so once.
proof fn lemma_lowercase_twice(s: Seq<char>)
    ensures
        ascii_lowercase(ascii_lowercase(s)) == ascii_lowercase(s),
{
    assert forall|i: int| 0 <= i < s.len() implies ascii_lowercase(ascii_lowercase(s))[i]
        == #[trigger] ascii_lowercase(s)[i] by {
        let c = s[i];
        assert(ascii_lowercase_char(ascii_lowercase_char(c)) == ascii_lowercase_char(c)) by {
            if 'A' <= c <= 'Z' {
                let lower = ((c as u32) + 32) as char;
                assert('a' <= lower <= 'z');
            }
        }
    }
    assert(ascii_lowercase(ascii_lowercase(s)) =~= ascii_lowercase(s));
}

/// A text that a level was read from can be given in lower case instead.
pub proof fn lemma_level_reads_lower_case(value: Seq<char>)
    ensures
        parsed_level(ascii_lowercase(value)) == parsed_level(value),
{
    lemma_lowercase_twice(value);
}

/// The value that an argument gives to the flag behind an equals sign.
pub open spec fn attached_value(arg: Seq<char>) -> Option<Seq<char>> {
    if has_prefix(arg, "--log-level="@) {
        Some(arg.skip("--log-level="@.len() as int))
    } else {
        None
    }
}

/// Whether an argument is the flag, with a value attached or without.
pub open spec fn is_flag(arg: Seq<char>) -> bool {
    attached_value(arg) is Some || arg == "--log-level"@
}

/// What the arguments from `from` on say of the level.
pub enum FlagView {
    /// The flag is not there.
    Absent,
    /// The flag is there, with nothing after it.
    Bare,
    /// The flag is there, with this value.
    Value(Seq<char>),
}

/// What the arguments from `from` on say of the level: the first flag counts,
/// with the value attached to it, or else with the argument after it.
pub open spec fn flag_in(args: Seq<Seq<char>>, from: int) -> FlagView
    decreases args.len() - from,
{
    if from < 0 || from >= args.len() {
        FlagView::Absent
    } else if attached_value(args[from]) is Some {
        FlagView::Value(attached_value(args[from])->0)
    } else if args[from] == "--log-level"@ {
        if from + 1 < args.len() {
            FlagView::Value(args[from + 1])
        } else {
            FlagView::Bare
        }
    } else {
        flag_in(args, from + 1)
    }
}

/// The level to log at, where it comes from, and what is to be said to whoever
/// started the program.
#[derive(Debug)]
pub struct LogLevelChoice {
    pub level: LevelFilter,
    pub source: Option<String>,
    pub complaint: Option<String>,
}

/// The level to log at, with its texts.
pub struct ChoiceView {
    pub level: LevelFilter,
    pub source: Option<Seq<char>>,
    pub complaint: Option<Seq<char>>,
}

impl View for LogLevelChoice {
    type V = ChoiceView;

    open spec fn view(&self) -> ChoiceView {
        ChoiceView {
            level: self.level,
            source: self.source.deep_view(),
            complaint: self.complaint.deep_view(),
        }
    }
}

/// The level that what the arguments say leads to. Where they ask for no level
/// that there is, it is `Debug`.
pub open spec fn choice(flag: FlagView) -> ChoiceView {
    match flag {
        FlagView::Absent => ChoiceView { level: LevelFilter::Debug, source: None, complaint: None },
        FlagView::Bare => ChoiceView {
            level: LevelFilter::Debug,
            source: Some("--log-level"@),
            complaint: Some(
                "--log-level flag requires a value (error, warn, info, debug, trace, off)"@,
            ),
        },
        FlagView::Value(value) => match parsed_level(value) {
            Ok(level) => ChoiceView { level, source: Some("--log-level"@), complaint: None },
            Err(text) => ChoiceView {
                level: LevelFilter::Debug,
                source: Some("--log-level (invalid value)"@),
                complaint: Some(text),
            },
        },
    }
}

fn choice_of_value(value: &str) -> (r: LogLevelChoice)
    ensures
        r@ == choice(FlagView::Value(value@)),
{
    match parse_log_level(value) {
        Ok(level) => LogLevelChoice { level, source: Some("--log-level".to_string()), complaint: None },
        Err(text) => LogLevelChoice {
            level: LevelFilter::Debug,
            source: Some("--log-level (invalid value)".to_string()),
            complaint: Some(text),
        },
    }
}

/// The level that a command line asks for. Its first argument is the name of
/// the program, and is not looked at.
pub fn resolve_log_level_from_args(args: &[String]) -> (r: LogLevelChoice)
    ensures
        r@ == choice(flag_in(args@.map_values(|arg: String| arg@), 1)),
{
    let ghost texts = args@.map_values(|arg: String| arg@);
    let mut i: usize = 1;
    while i < args.len()
        invariant
            1 <= i,
            texts == args@.map_values(|arg: String| arg@),
            flag_in(texts, 1) == flag_in(texts, i as int),
        decreases args@.len() - i,
    {
        let arg: &str = args[i].as_str();
        assert(texts[i as int] == arg@);
        if let Some(value) = strip_prefix(arg, "--log-level=") {
            return choice_of_value(value);
        }
        if same_text(arg, "--log-level") {
            if i + 1 < args.len() {
                assert(texts[i + 1] == args@[i + 1]@);
                return choice_of_value(args[i + 1].as_str());
            }
            return LogLevelChoice {
                level: LevelFilter::Debug,
                source: Some("--log-level".to_string()),
                complaint: Some(
                    "--log-level flag requires a value (error, warn, info, debug, trace, off)".to_string(),
                ),
            };
        }
        i = i + 1;
    }
    LogLevelChoice { level: LevelFilter::Debug, source: None, complaint: None }
}

/// The first flag decides: two command lines that agree up to the first flag and
/// the argument after it lead to the same level, whatever else stands behind.
pub proof fn lemma_first_flag_decides(a: Seq<Seq<char>>, b: Seq<Seq<char>>, from: int, at: int)
    requires
        0 <= from <= at < a.len(),
        at < b.len(),
        a.take(at + 1) == b.take(at + 1),
        is_flag(a[at]),
        at + 1 < a.len() <==> at + 1 < b.len(),
        at + 1 < a.len() ==> a[at + 1] == b[at + 1],
        forall|i: int| from <= i < at ==> !is_flag(#[trigger] a[i]),
    ensures
        choice(flag_in(a, from)) == choice(flag_in(b, from)),
        flag_in(a, from) == flag_in(a, at),
    decreases at - from,
{
    assert(a[from] == a.take(at + 1)[from]);
    assert(b[from] == b.take(at + 1)[from]);
    if from < at {
        assert(!is_flag(a[from]));
        lemma_first_flag_decides(a, b, from + 1, at);
    }
}

/// Without the flag the level is `Debug`, and nothing is said.
pub proof fn lemma_no_flag_no_choice(args: Seq<Seq<char>>, from: int)
    requires
        0 <= from,
        forall|i: int| from <= i < args.len() ==> !is_flag(#[trigger] args[i]),
    ensures
        choice(flag_in(args, from)) == (ChoiceView { level: LevelFilter::Debug, source: None, complaint: None }),
    decreases args.len() - from,
{
    if from < args.len() {
        assert(!is_flag(args[from]));
        lemma_no_flag_no_choice(args, from + 1);
    }
}

/// A text asks for a level by its name, in any case, and for none by any other.
pub proof fn lemma_names_of_levels(value: Seq<char>)
    ensures
        ({
            let name = ascii_lowercase(value);
            &&& name == "error"@ ==> parsed_level(value) == Ok::<LevelFilter, Seq<char>>(LevelFilter::Error)
            &&& name == "warn"@ ==> parsed_level(value) == Ok::<LevelFilter, Seq<char>>(LevelFilter::Warn)
            &&& name == "warning"@ ==> parsed_level(value) == Ok::<LevelFilter, Seq<char>>(LevelFilter::Warn)
            &&& name == "info"@ ==> parsed_level(value) == Ok::<LevelFilter, Seq<char>>(LevelFilter::Info)
            &&& name == "debug"@ ==> parsed_level(value) == Ok::<LevelFilter, Seq<char>>(LevelFilter::Debug)
            &&& name == "trace"@ ==> parsed_level(value) == Ok::<LevelFilter, Seq<char>>(LevelFilter::Trace)
            &&& name == "off"@ ==> parsed_level(value) == Ok::<LevelFilter, Seq<char>>(LevelFilter::Off)
            &&& name != "error"@ && name != "warn"@ && name != "warning"@ && name != "info"@ && name != "debug"@
                && name != "trace"@ && name != "off"@ ==> parsed_level(value) == Err::<LevelFilter, Seq<char>>(
                "Unrecognized log level '"@ + name + "'. Expected one of: error, warn, info, debug, trace, off"@,
            )
        }),
{
    reveal_strlit("error");
    reveal_strlit("warn");
    reveal_strlit("warning");
    reveal_strlit("info");
    reveal_strlit("debug");
    reveal_strlit("trace");
    reveal_strlit("off");
    assert("error"@[0] == 'e' && "warn"@[0] == 'w' && "warning"@[0] == 'w' && "info"@[0] == 'i' && "debug"@[0] == 'd'
        && "trace"@[0] == 't' && "off"@[0] == 'o');
}

/// A flag asks for what is attached to it, or else for what stands behind it, as
/// it is written.
pub proof fn lemma_what_a_flag_asks_for(args: Seq<Seq<char>>, at: int, value: Seq<char>)
    requires
        0 <= at < args.len(),
    ensures
        args[at] == "--log-level="@ + value ==> flag_in(args, at) == FlagView::Value(value),
        args[at] == "--log-level"@ && at + 1 < args.len() ==> flag_in(args, at) == FlagView::Value(args[at + 1]),
        args[at] == "--log-level"@ && at + 1 == args.len() ==> flag_in(args, at) is Bare,
        is_flag(args[at]) <==> args[at] == "--log-level"@ || exists|v: Seq<char>|
            args[at] == #[trigger] ("--log-level="@ + v),
{
    reveal_strlit("--log-level=");
    reveal_strlit("--log-level");
    assert("--log-level="@.len() == 12 && "--log-level"@.len() == 11);
    let prefix = "--log-level="@;
    assert(args[at] == prefix + value ==> args[at].take(12) =~= prefix && args[at].skip(12) =~= value);
    if has_prefix(args[at], prefix) {
        assert(args[at] =~= prefix + args[at].skip(12));
    }
    if exists|v: Seq<char>| args[at] == #[trigger] (prefix + v) {
        let v = choose|v: Seq<char>| args[at] == #[trigger] (prefix + v);
        assert(args[at].take(12) =~= prefix);
    }
}

/// What is asked for is done: a level that there is, is taken; anything else
/// leaves the level at `Debug`, and is complained of.
pub proof fn lemma_what_is_asked_for_is_done(value: Seq<char>, level: LevelFilter, text: Seq<char>)
    ensures
        parsed_level(value) == Ok::<LevelFilter, Seq<char>>(level) ==> choice(FlagView::Value(value)) == (ChoiceView {
            level,
            source: Some("--log-level"@),
            complaint: None,
        }),
        parsed_level(value) == Err::<LevelFilter, Seq<char>>(text) ==> choice(FlagView::Value(value)) == (ChoiceView {
            level: LevelFilter::Debug,
            source: Some("--log-level (invalid value)"@),
            complaint: Some(text),
        }),
        choice(FlagView::Bare) == (ChoiceView {
            level: LevelFilter::Debug,
            source: Some("--log-level"@),
            complaint: Some(
                "--log-level flag requires a value (error, warn, info, debug, trace, off)"@,
            ),
        }),
{
}

/// The level is seen with where it comes from and what is to be said.
pub proof fn lemma_choice_is_seen_whole(choice: LogLevelChoice)
    ensures
        choice@.level == choice.level,
        choice@.source == choice.source.deep_view(),
        choice@.complaint == choice.complaint.deep_view(),
{
}

} // verus!
