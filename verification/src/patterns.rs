//! Glob-pattern matching of file names, done by the `glob` crate.
//!
//! The full semantics of a Unix shell pattern is not restated here: the
//! result of a match is given a name, [`glob_match`], a deterministic
//! function of the pattern and the name alone, and the checker's contracts
//! speak of that name.

use vstd::prelude::*;

verus! {

/// What `glob::Pattern::matches` returns for this pattern and name, with a
/// pattern that does not compile matching nothing.
pub uninterp spec fn glob_match(pattern: Seq<char>, name: Seq<char>) -> bool;

/// What `glob::Pattern::matches_with` returns for this pattern and name
/// under case-insensitive matching, with a pattern that does not compile
/// matching nothing.
pub uninterp spec fn glob_match_ci(pattern: Seq<char>, name: Seq<char>) -> bool;

/// Relies on `glob::Pattern::new` and `glob::Pattern::matches`: whether
/// `name` matches the shell-style pattern, case-sensitively.  The result
/// depends on the two strings alone.
#[verifier::external_body]
pub(crate) fn glob_match_exec(pattern: &str, name: &str) -> (r: bool)
    ensures
        r == glob_match(pattern@, name@),
{
    match glob::Pattern::new(pattern) {
        Ok(p) => p.matches(name),
        Err(_) => false,
    }
}

/// Relies on `glob::Pattern::new` and `glob::Pattern::matches_with`: whether
/// `name` matches the shell-style pattern with case ignored.  The result
/// depends on the two strings alone.
#[verifier::external_body]
pub(crate) fn glob_match_ci_exec(pattern: &str, name: &str) -> (r: bool)
    ensures
        r == glob_match_ci(pattern@, name@),
{
    let options = glob::MatchOptions {
        case_sensitive: false,
        require_literal_separator: false,
        require_literal_leading_dot: false,
    };
    match glob::Pattern::new(pattern) {
        Ok(p) => p.matches_with(name, options),
        Err(_) => false,
    }
}

} // verus!
