//! Home-directory expansion of paths that begin with a tilde.
//!
//! The expansion itself is done by the `shellexpand` crate. The rule it
//! follows is stated here as [`expansion`], and the verified functions of
//! this module are held to that statement.

use vstd::prelude::*;

verus! {

/// Whether `path` begins with a tilde that stands alone or before a slash.
/// Only such a tilde stands for the home directory.
pub open spec fn tilde_leads(path: Seq<char>) -> bool {
    path.len() > 0 && path[0] == '~' && (path.len() == 1 || path[1] == '/')
}

/// Whether `path` begins with a tilde before a backslash. Systems that
/// separate path segments by backslashes expand such a tilde; the others
/// leave it.
pub open spec fn tilde_before_backslash(path: Seq<char>) -> bool {
    path.len() > 1 && path[0] == '~' && path[1] == '\\'
}

/// `path` with a leading tilde replaced by the home directory, where the
/// tilde leads and a home directory is known; else `path` itself.
pub open spec fn expansion(path: Seq<char>, home: Option<Seq<char>>) -> Seq<char> {
    match home {
        Some(dir) => if tilde_leads(path) {
            dir + path.skip(1)
        } else {
            path
        },
        None => path,
    }
}

/// Whether `out` may come out of expanding `path` with the given home
/// directory on some system: the expansion, or, for a tilde before a
/// backslash, the path with the tilde replaced.
pub open spec fn expands_to(path: Seq<char>, home: Option<Seq<char>>, out: Seq<char>) -> bool {
    ||| out == expansion(path, home)
    ||| tilde_before_backslash(path) && home is Some && out == home->0 + path.skip(1)
}

/// The view of an optional home directory.
pub open spec fn home_view(home: Option<&str>) -> Option<Seq<char>> {
    match home {
        Some(dir) => Some(dir@),
        None => None,
    }
}

/// The home directory that a lone tilde stands for, given what the tilde
/// was expanded to: none if the tilde came back as it was, else what it
/// became.
pub open spec fn home_behind(expanded: Seq<char>) -> Option<Seq<char>> {
    if expanded == seq!['~'] {
        None
    } else {
        Some(expanded)
    }
}

/// The view of an optional home directory that is owned.
pub open spec fn owned_home_view(home: Option<String>) -> Option<Seq<char>> {
    match home {
        Some(dir) => Some(dir@),
        None => None,
    }
}

/// Calls `shellexpand::tilde_with_context` with a context that answers
/// `home`. Trusted: the result is `path` where no tilde leads or no home is
/// given, and the home directory followed by what follows the tilde
/// otherwise. A tilde before a backslash is expanded on some systems only, so
/// both outcomes are admitted for it.
#[verifier::external_body]
fn tilde_with_context(path: &str, home: Option<&str>) -> (out: String)
    ensures
        expands_to(path@, home_view(home), out@),
{
    shellexpand::tilde_with_context(path, || home).into_owned()
}

/// Calls `shellexpand::tilde`, which expands with the home directory that
/// the system reports. Trusted: whatever that directory is, and whether or
/// not there is one, the result is an expansion of `path` with it.
#[verifier::external_body]
fn tilde(path: &str) -> (out: String)
    ensures
        exists|home: Option<Seq<char>>| expands_to(path@, home, out@),
{
    shellexpand::tilde(path).into_owned()
}

/// Tells whether `path` begins with a tilde before a backslash.
fn begins_tilde_backslash(path: &str) -> (b: bool)
    ensures
        b == tilde_before_backslash(path@),
{
    let mut chars = path.chars();
    match chars.next() {
        Some('~') => match chars.next() {
            Some('\\') => true,
            _ => false,
        },
        _ => false,
    }
}

/// Tells whether `text` is a tilde and nothing else.
fn is_lone_tilde(text: &str) -> (b: bool)
    ensures
        b == (text@ == seq!['~']),
{
    let mut chars = text.chars();
    let lone = match chars.next() {
        Some('~') => match chars.next() {
            None => true,
            _ => false,
        },
        _ => false,
    };
    assert(lone ==> text@ =~= seq!['~']);
    lone
}

/// Expands a leading tilde of `path` to `home`. A path without a leading
/// tilde, or any path when no home directory is given, comes back unchanged.
/// So does a path with a tilde before a backslash, on every system.
pub fn expand(path: &str, home: Option<&str>) -> (out: String)
    ensures
        out@ == expansion(path@, home_view(home)),
{
    if begins_tilde_backslash(path) {
        path.to_owned()
    } else {
        tilde_with_context(path, home)
    }
}

/// Reads the home directory off an expanded lone tilde.
///
/// A home directory that is itself written `~` is taken for none: by
/// [`lemma_tilde_as_home`] no expansion can tell the two apart.
pub fn home_from(expanded: String) -> (home: Option<String>)
    ensures
        owned_home_view(home) == home_behind(expanded@),
{
    if is_lone_tilde(expanded.as_str()) {
        None
    } else {
        Some(expanded)
    }
}

/// The home directory that the system reports, if it reports one. It is
/// what the system expands a lone tilde to.
pub fn system_home() -> (home: Option<String>)
    ensures
        owned_home_view(home) != Some(seq!['~']),
{
    let expanded = tilde("~");
    home_from(expanded)
}

/// A home directory written `~` expands every path to itself, as no home
/// directory does.
pub proof fn lemma_tilde_as_home(path: Seq<char>)
    ensures
        expansion(path, Some(seq!['~'])) == path,
        expansion(path, None) == path,
{
}

/// What is appended to a path is appended to its expansion, unless the path
/// is empty or a lone tilde: only then can the appended text change what
/// leads the path.
pub proof fn lemma_expansion_keeps_suffix(
    path: Seq<char>,
    suffix: Seq<char>,
    home: Option<Seq<char>>,
)
    requires
        path.len() > 0,
        path != seq!['~'],
    ensures
        expansion(path + suffix, home) == expansion(path, home) + suffix,
{
    if path.len() == 1 && path[0] == '~' {
        assert(path =~= seq!['~']);
    }
}

} // verus!
