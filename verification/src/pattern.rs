//! Regular expressions, compiled and matched by the `regex` crate. A pattern
//! keeps its source text, which is how the contracts speak of it.

use vstd::prelude::*;

verus! {

#[verifier::external_type_specification]
#[verifier::external_body]
pub struct ExRegex(regex::Regex);

#[verifier::external_type_specification]
#[verifier::external_body]
pub struct ExRegexError(regex::Error);

/// Whether `regex::Regex::new` accepts the source.
pub uninterp spec fn regex_valid(source: Seq<char>) -> bool;

/// Whether the regex compiled from `source` matches somewhere in `haystack`
/// (`regex::Regex::is_match`).
pub uninterp spec fn regex_matches(source: Seq<char>, haystack: Seq<char>) -> bool;

/// Calls `regex::Regex::new`. Claimed: it succeeds exactly on the sources
/// named by `regex_valid`, a function of the source alone.
#[verifier::external_body]
fn compile_regex(source: &str) -> (r: Result<regex::Regex, regex::Error>)
    ensures
        r is Ok <==> regex_valid(source@),
{
    regex::Regex::new(source)
}

/// A compiled regular expression with its source.
pub struct Pattern {
    source: String,
    compiled: regex::Regex,
}

impl View for Pattern {
    type V = Seq<char>;

    closed spec fn view(&self) -> Seq<char> {
        self.source@
    }
}

/// The failure to compile a regular expression.
pub struct PatternError {
    pub source: String,
}

impl Pattern {
    /// Compiles a regular expression.
    pub fn new(source: &str) -> (r: Result<Pattern, PatternError>)
        ensures
            r is Ok <==> regex_valid(source@),
            r matches Ok(p) ==> p@ == source@,
            r matches Err(e) ==> e.source@ == source@,
    {
        match compile_regex(source) {
            Ok(compiled) => Ok(Pattern { source: source.to_owned(), compiled }),
            Err(_) => Err(PatternError { source: source.to_owned() }),
        }
    }

    /// The source of the pattern.
    pub fn as_str(&self) -> (s: &str)
        ensures
            s@ == self@,
    {
        self.source.as_str()
    }

    /// Calls `regex::Regex::is_match`. Claimed: the answer is `regex_matches`
    /// of the pattern's source and the haystack (a pattern is only built by
    /// compiling its source).
    #[verifier::external_body]
    pub(crate) fn is_match(&self, haystack: &str) -> (b: bool)
        ensures
            b == regex_matches(self@, haystack@),
    {
        self.compiled.is_match(haystack)
    }
}

} // verus!
