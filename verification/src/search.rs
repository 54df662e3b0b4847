//! The process search: the typed text, escaped so that each of its
//! characters stands for itself, compiled into a case-insensitive regular
//! expression.

use regex::Regex;
use vstd::prelude::*;

verus! {

#[verifier::external_type_specification]
#[verifier::external_body]
pub struct ExRegex(regex::Regex);

/// The characters that have a meaning in a regular expression and so are
/// preceded by a backslash when text is to be matched literally.
pub open spec fn is_regex_meta(c: char) -> bool {
    c == '\\' || c == '.' || c == '+' || c == '*' || c == '?' || c == '(' || c == ')' || c == '|'
        || c == '[' || c == ']' || c == '{' || c == '}' || c == '^' || c == '$' || c == '#' || c
        == '&' || c == '-' || c == '~'
}

/// `text` with a backslash before each meta character.
pub open spec fn escaped(text: Seq<char>) -> Seq<char>
    decreases text.len(),
{
    if text.len() == 0 {
        Seq::empty()
    } else {
        let c = text.last();
        escaped(text.drop_last()) + (if is_regex_meta(c) {
            seq!['\\', c]
        } else {
            seq![c]
        })
    }
}

/// `regex::escape`: for each character of `text` in order, a backslash if the
/// character is one of the crate's meta characters, then the character.
#[verifier::external_body]
fn regex_escape(text: &str) -> (escaped_text: String)
    ensures
        escaped_text@ == escaped(text@),
{
    regex::escape(text)
}

/// Whether `regex` compiles `pattern` case-insensitively within its limits.
pub uninterp spec fn pattern_compiles(pattern: Seq<char>) -> bool;

/// A compiled search: the pattern text and the case-insensitive expression
/// compiled from it. Only `build_case_insensitive` makes one, so the
/// expression is always the one compiled from the pattern kept beside it.
pub struct SearchRegex {
    pattern: String,
    regex: Regex,
}

impl SearchRegex {
    /// The pattern text the expression was compiled from.
    pub closed spec fn source(&self) -> Seq<char> {
        self.pattern@
    }

    /// The pattern text the expression was compiled from.
    pub fn pattern(&self) -> (p: &str)
        ensures
            p@ == self.source(),
    {
        self.pattern.as_str()
    }

    /// The compiled expression itself, for code that matches with it
    /// directly; `is_match` states what it matches.
    pub fn regex(&self) -> &Regex {
        &self.regex
    }

    /// Whether the expression matches somewhere in `text`. Every text in
    /// which the searched text occurs as typed is matched; which other texts
    /// are matched (the same text in other case, under the crate's case
    /// folding) is named by `pattern_matches`.
    pub fn is_match(&self, text: &str) -> (r: bool)
        ensures
            r == pattern_matches(self.source(), text@),
            forall|s: Seq<char>|
                #![trigger escaped(s)]
                self.source() == escaped(s) && occurs_in(s, text@) ==> r,
    {
        regex_is_match(self, text)
    }
}

/// `s` occurs in `text`, at some position.
pub open spec fn occurs_in(s: Seq<char>, text: Seq<char>) -> bool {
    exists|i: int| 0 <= i && i + s.len() <= text.len() && #[trigger] text.subrange(i, i + s.len()) == s
}

/// Whether the expression that `regex` compiles case-insensitively from
/// `pattern` matches somewhere in `text`.
pub uninterp spec fn pattern_matches(pattern: Seq<char>, text: Seq<char>) -> bool;

/// `regex::Regex::is_match` on the expression compiled (case-insensitively)
/// from `compiled.source()`: whether it matches anywhere in `text`. The
/// result is named by `pattern_matches`; beside it stands the fact that an
/// escaped text matches every text it occurs in, since `regex::escape` makes
/// each character stand for itself and case-insensitive matching still
/// accepts the case as typed.
#[verifier::external_body]
fn regex_is_match(compiled: &SearchRegex, text: &str) -> (r: bool)
    ensures
        r == pattern_matches(compiled.source(), text@),
        forall|s: Seq<char>|
            #![trigger escaped(s)]
            compiled.source() == escaped(s) && occurs_in(s, text@) ==> r,
{
    compiled.regex.is_match(text)
}

/// `regex::RegexBuilder::new(&pattern).case_insensitive(true).build()`, kept
/// with the pattern it was compiled from; an error (a pattern the crate
/// rejects, or one too large for its size limits) is given as `None`.
/// Nothing is stated of how the compiled expression matches.
#[verifier::external_body]
fn build_case_insensitive(pattern: String) -> (compiled: Option<SearchRegex>)
    ensures
        compiled is Some <==> pattern_compiles(pattern@),
        compiled matches Some(s) ==> s.source() == pattern@,
{
    match regex::RegexBuilder::new(&pattern).case_insensitive(true).build() {
        Ok(regex) => Some(SearchRegex { pattern, regex }),
        Err(_) => None,
    }
}

/// The pattern text searched for `search`: `search` itself, escaped so that
/// every character matches literally.
pub fn search_pattern_text(search: &str) -> (pattern: String)
    ensures
        pattern@ == escaped(search@),
{
    regex_escape(search)
}

/// The regular expression that filters the process list for `search`: none
/// for an empty search, otherwise the case-insensitive expression compiled
/// from `search_pattern_text(search)`.
pub fn search_regex(search: &str) -> (compiled: Option<SearchRegex>)
    ensures
        search@.len() == 0 ==> compiled is None,
        search@.len() > 0 ==> (compiled is Some <==> pattern_compiles(escaped(search@))),
        compiled matches Some(s) ==> s.source() == escaped(search@),
{
    if search.is_empty() {
        None
    } else {
        let pattern = search_pattern_text(search);
        build_case_insensitive(pattern)
    }
}

} // verus!
