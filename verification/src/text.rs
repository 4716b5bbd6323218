//! Text functions of std and of outside crates that the tools lean on:
//! escaping for Lua, unquoting with `snailquote`, matching with `regex`.
//!
//! Each result is a function of the arguments alone and is given a name. The
//! items below state, without proof, that the call returns what the name
//! stands for.

use regex::Regex;
use vstd::prelude::*;

verus! {

/// `regex::Regex`, of which nothing is known but what the names below say.
#[verifier::external_type_specification]
#[verifier::external_body]
pub struct ExRegex(regex::Regex);

/// The text that `str::escape_default` makes of `text`.
pub uninterp spec fn escape_default_of(text: Seq<char>) -> Seq<char>;

/// The text that `snailquote::unescape` makes of `text`, or `None` where it
/// reports an error.
pub uninterp spec fn unescape_of(text: Seq<char>) -> Option<Seq<char>>;

/// The regular expression that `Regex::new` compiles from `pattern`, or
/// `None` where it reports an error.
pub uninterp spec fn regex_of(pattern: Seq<char>) -> Option<Regex>;

/// Whether `Regex::is_match` finds a match of `pattern` in `text`.
pub uninterp spec fn regex_accepts(pattern: Regex, text: Seq<char>) -> bool;

/// `str::escape_default`, collected into a string: the result is
/// `escape_default_of` of the text.
#[verifier::external_body]
pub(crate) fn escape_default(text: &str) -> (escaped: String)
    ensures
        escaped@ == escape_default_of(text@),
{
    text.escape_default().collect()
}

/// `snailquote::unescape`: the result is `unescape_of` of the text, `None`
/// standing for any error.
#[verifier::external_body]
pub(crate) fn unescape(text: &str) -> (unescaped: Option<String>)
    ensures
        match unescaped {
            Some(plain) => unescape_of(text@) == Some(plain@),
            None => unescape_of(text@) is None,
        },
{
    snailquote::unescape(text).ok()
}

/// `Regex::new`: the result is `regex_of` of the pattern, `None` standing for
/// any error.
#[verifier::external_body]
pub(crate) fn compile(pattern: &str) -> (compiled: Option<Regex>)
    ensures
        compiled == regex_of(pattern@),
{
    Regex::new(pattern).ok()
}

/// `Regex::is_match`: the result is `regex_accepts` of the expression and the
/// text.
pub assume_specification[ Regex::is_match ](pattern: &Regex, text: &str) -> (found: bool)
    ensures
        found == regex_accepts(*pattern, text@),
;

} // verus!
