//! The decisions behind the commands the UI invokes: which global hotkey to
//! (un)register, which window theme a setting selects, which log lines the
//! diagnostics view shows and how the connection status reads.
use vstd::prelude::*;
use crate::adapters::nonempty;
use crate::calculator::texts;
use crate::text::{chars_of, line_bounds, lines, string_of, text_is};
use crate::types::{status_label, ConnectionStatus};

verus! {

/// Two optional texts hold the same characters (or are both absent).
pub open spec fn same_text(a: Option<String>, b: Option<String>) -> bool {
    match (a, b) {
        (Some(x), Some(y)) => x@ == y@,
        (None, None) => true,
        _ => false,
    }
}

/// What to do with the global hotkey when the setting changes.
#[derive(Debug, Clone, PartialEq, Eq)]
pub struct HotkeyChange {
    /// The shortcut to unregister first.
    pub unregister: Option<String>,
    /// The shortcut to register then.
    pub register: Option<String>,
}

/// Plan the hotkey update from `old` to `new`: an empty `new` disables the
/// hotkey; an unchanged hotkey needs nothing; otherwise the old one is
/// unregistered and the new one registered.
pub fn hotkey_change(old: Option<String>, new: Option<String>) -> (r: HotkeyChange)
    ensures
        same_text(old, nonempty(new)) ==> r.unregister is None && r.register is None,
        !same_text(old, nonempty(new)) ==> r.unregister == old && r.register == nonempty(new),
{
    let new = match new {
        Some(s) => if s.as_str().is_empty() { None } else { Some(s) },
        None => None,
    };
    let same = match (&old, &new) {
        (Some(a), Some(b)) => text_is(a.as_str(), b.as_str()),
        (None, None) => true,
        _ => false,
    };
    if same {
        HotkeyChange { unregister: None, register: None }
    } else {
        HotkeyChange { unregister: old, register: new }
    }
}

/// A window theme other than following the system.
#[derive(Debug, Clone, Copy, PartialEq, Eq, Structural)]
pub enum ThemeChoice {
    Light,
    Dark,
}

pub open spec fn theme_of(t: Seq<char>) -> Option<ThemeChoice> {
    if t == "dark"@ {
        Some(ThemeChoice::Dark)
    } else if t == "light"@ {
        Some(ThemeChoice::Light)
    } else {
        None
    }
}

/// The theme a `theme` setting selects: `"dark"`, `"light"`, or `None` to
/// follow the system (`"auto"` and anything else).
pub fn theme_choice(theme: &str) -> (r: Option<ThemeChoice>)
    ensures
        r == theme_of(theme@),
{
    if text_is(theme, "dark") {
        Some(ThemeChoice::Dark)
    } else if text_is(theme, "light") {
        Some(ThemeChoice::Light)
    } else {
        None
    }
}

/// The last `limit` lines of a log text (all of them when there are fewer).
pub open spec fn last_lines(content: Seq<char>, limit: usize) -> Seq<Seq<char>> {
    let ls = lines(content);
    if ls.len() > limit {
        ls.skip(ls.len() - limit)
    } else {
        ls
    }
}

/// The tail of a log text for the diagnostics view.
pub fn tail_lines(content: &str, limit: usize) -> (r: Vec<String>)
    ensures
        texts(r@) == last_lines(content@, limit),
{
    let v = chars_of(content);
    let bounds = line_bounds(&v);
    let ghost ls = lines(v@);
    let start = bounds.len().saturating_sub(limit);
    let mut out: Vec<String> = Vec::new();
    let mut i = start;
    while i < bounds.len()
        invariant
            start <= i <= bounds.len() == ls.len(),
            ls == lines(v@),
            forall|j: int|
                #![trigger bounds@[j]]
                0 <= j < bounds@.len() ==> bounds@[j].0 <= bounds@[j].1 <= v@.len()
                    && v@.subrange(bounds@[j].0 as int, bounds@[j].1 as int) == ls[j],
            texts(out@) == ls.subrange(start as int, i as int),
        decreases bounds.len() - i,
    {
        let (a, b) = bounds[i];
        let ghost before = out@;
        out.push(string_of(&v.as_slice()[a..b]));
        assert(texts(out@) =~= texts(before).push(ls[i as int]));
        assert(ls.subrange(start as int, i + 1) =~= ls.subrange(start as int, i as int).push(
            ls[i as int],
        ));
        i = i + 1;
    }
    assert(ls.subrange(start as int, i as int) =~= last_lines(content@, limit));
    out
}

/// How the current connection reads in the diagnostics view: the status
/// label, or "no data" before the first update.
pub fn connection_text(status: Option<ConnectionStatus>) -> (r: String)
    ensures
        r@ == (match status {
            Some(s) => status_label(s),
            None => "Нет данных"@,
        }),
{
    broadcast use vstd::string::group_string_axioms;
    match status {
        Some(s) => s.label().to_string(),
        None => "Нет данных".to_string(),
    }
}

} // verus!
