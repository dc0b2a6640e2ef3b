//! What the desktop application decides when it is opened and closed.

use vstd::prelude::*;

use crate::text::{has_prefix, lemma_prefix_is_what_comes_first, same_text, strip_prefix};

verus! {

/// Whether an argument is a link into the application.
pub open spec fn is_deep_link(arg: Seq<char>) -> bool {
    has_prefix(arg, "jan://"@)
}

/// The link that a command line opens the application with: the first argument
/// that is one.
pub fn find_deep_link(argv: &[String]) -> (r: Option<&String>)
    ensures
        match r {
            Some(link) => exists|i: int|
                0 <= i < argv@.len() && #[trigger] argv@[i] == *link && is_deep_link(argv@[i]@) && forall|j: int|
                    0 <= j < i ==> !is_deep_link(#[trigger] argv@[j]@),
            None => forall|j: int| 0 <= j < argv@.len() ==> !is_deep_link(#[trigger] argv@[j]@),
        },
{
    let mut i: usize = 0;
    while i < argv.len()
        invariant
            i <= argv@.len(),
            forall|j: int| 0 <= j < i ==> !is_deep_link(#[trigger] argv@[j]@),
        decreases argv@.len() - i,
    {
        let arg: &String = &argv[i];
        if strip_prefix(arg.as_str(), "jan://").is_some() {
            assert(argv@[i as int] == *arg);
            return Some(arg);
        }
        i = i + 1;
    }
    None
}

/// Whether the system tray icon is enabled by a setting. Only `true` enables it.
pub open spec fn tray_setting(setting: Option<Seq<char>>) -> bool {
    setting == Some("true"@)
}

/// Whether the system tray icon is enabled by a setting.
pub fn tray_icon_enabled(setting: Option<&str>) -> (r: bool)
    ensures
        r == tray_setting(
            match setting {
                Some(text) => Some(text@),
                None => None,
            },
        ),
{
    match setting {
        Some(text) => same_text(text, "true"),
        None => false,
    }
}

/// What becomes of a window that is asked to close.
#[derive(Debug, Clone, Copy, PartialEq, Eq, Structural)]
pub enum CloseAction {
    /// It closes.
    Close,
    /// It hides, and the application stays in the system tray.
    Hide,
}

/// What becomes of a window that is asked to close: with a tray icon to come
/// back from, it only hides.
pub fn on_close_requested(tray_icon: bool) -> (r: CloseAction)
    ensures
        r == (if tray_icon {
            CloseAction::Hide
        } else {
            CloseAction::Close
        }),
{
    if tray_icon {
        CloseAction::Hide
    } else {
        CloseAction::Close
    }
}

/// A link is what follows the scheme of the application, whatever it is; and the
/// tray icon is enabled by `true` alone.
pub proof fn lemma_what_is_a_link(rest: Seq<char>, arg: Seq<char>, setting: Seq<char>)
    ensures
        is_deep_link("jan://"@ + rest),
        is_deep_link(arg) ==> arg == "jan://"@ + arg.skip("jan://"@.len() as int),
        tray_setting(Some(setting)) <==> setting == "true"@,
        !tray_setting(None),
{
    lemma_prefix_is_what_comes_first("jan://"@, rest, arg);
}

} // verus!
