//! Regular expressions, through the `regex` crate.

use vstd::prelude::*;

verus! {

/// `regex::Regex`.
#[verifier::external_type_specification]
#[verifier::external_body]
pub struct ExRegex(regex::Regex);

/// `regex::Error`.
#[verifier::external_type_specification]
#[verifier::external_body]
pub struct ExRegexError(regex::Error);

/// Whether `regex::Regex::new` accepts `pattern`.
pub uninterp spec fn regex_compiles(pattern: Seq<char>) -> bool;

/// What `Regex::is_match` answers for the regex compiled from `pattern` on `haystack`.
pub uninterp spec fn regex_finds_match(pattern: Seq<char>, haystack: Seq<char>) -> bool;

/// What `Regex::replace_all` returns for the regex compiled from `pattern`,
/// `haystack` and the replacement template `replacement`.
pub uninterp spec fn regex_replaced_all(
    pattern: Seq<char>,
    haystack: Seq<char>,
    replacement: Seq<char>,
) -> Seq<char>;

/// A compiled regular expression together with the pattern it was compiled from.
pub struct Pattern {
    source: String,
    regex: regex::Regex,
}

impl View for Pattern {
    type V = Seq<char>;

    /// The pattern text.
    closed spec fn view(&self) -> Seq<char> {
        self.source@
    }
}

/// `regex::Regex::new(pattern)`. Compilation fails exactly on the patterns
/// that the crate refuses (bad syntax, or a regex over the default size
/// limit); which ones those are is named, not stated.
#[verifier::external_body]
pub(crate) fn compile(pattern: &str) -> (r: Result<Pattern, regex::Error>)
    ensures
        r is Ok <==> regex_compiles(pattern@),
        r matches Ok(p) ==> p@ == pattern@,
{
    match regex::Regex::new(pattern) {
        Ok(regex) => Ok(Pattern { source: pattern.to_string(), regex }),
        Err(e) => Err(e),
    }
}

/// `Regex::is_match`: whether the regex matches anywhere in `haystack`.
#[verifier::external_body]
pub(crate) fn is_match(p: &Pattern, haystack: &str) -> (r: bool)
    ensures
        r == regex_finds_match(p@, haystack@),
{
    p.regex.is_match(haystack)
}

/// `Regex::replace_all` with a `$`-template replacement. As the crate
/// documents, a haystack with no match comes back unchanged.
#[verifier::external_body]
pub(crate) fn replace_all(p: &Pattern, haystack: &str, replacement: &str) -> (r: String)
    ensures
        r@ == regex_replaced_all(p@, haystack@, replacement@),
        !regex_finds_match(p@, haystack@) ==> r@ == haystack@,
{
    p.regex.replace_all(haystack, replacement).to_string()
}

// ---------------------------------------------------------------------------
// Building regex sources
// ---------------------------------------------------------------------------
/// `parts` separated by `|`.
pub open spec fn alternation(parts: Seq<Seq<char>>) -> Seq<char>
    decreases parts.len(),
{
    if parts.len() == 0 {
        Seq::empty()
    } else if parts.len() == 1 {
        parts[0]
    } else {
        alternation(parts.drop_last()) + seq!['|'] + parts.last()
    }
}

/// A capturing group that matches any one of `parts`.
pub open spec fn any_of(parts: Seq<Seq<char>>) -> Seq<char> {
    seq!['('] + alternation(parts) + seq![')']
}

/// `p` with case ignored (the `(?i)` flag).
pub open spec fn ignoring_case(p: Seq<char>) -> Seq<char> {
    seq!['(', '?', 'i', ')'] + p
}

/// `p` as a whole word: between word boundaries (`\b`), case ignored.
pub open spec fn whole_word(p: Seq<char>) -> Seq<char> {
    ignoring_case(seq!['\\', 'b'] + p + seq!['\\', 'b'])
}

} // verus!
