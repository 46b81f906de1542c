use vstd::prelude::*;

verus! {

/// Whether the line-oriented regex engine accepts `pattern`.
pub uninterp spec fn regex_valid(pattern: Seq<char>) -> bool;

/// Whether the regex compiled from `pattern` matches anywhere in `line`.
pub uninterp spec fn regex_match(pattern: Seq<char>, line: Seq<u8>) -> bool;

#[verifier::external_type_specification]
#[verifier::external_body]
pub struct ExRegexMatcher(grep::regex::RegexMatcher);

/// A compiled line-oriented matcher, tied to the pattern it was built from.
/// Stateless per search round: matching depends on the pattern and the
/// haystack alone.
pub struct Matcher {
    re: grep::regex::RegexMatcher,
    pattern: String,
}

impl Matcher {
    /// The pattern this matcher was compiled from.
    pub closed spec fn pattern_view(&self) -> Seq<char> {
        self.pattern@
    }

    /// Relies on grep_regex::RegexMatcher::new_line_matcher: it returns Ok
    /// exactly when it accepts the pattern, and the matcher it returns is a
    /// function of the pattern alone.
    #[verifier::external_body]
    fn compile_raw(pattern: &str) -> (r: Option<Matcher>)
        ensures
            r is Some <==> regex_valid(pattern@),
            r matches Some(m) ==> m.pattern_view() == pattern@,
    {
        match grep::regex::RegexMatcher::new_line_matcher(pattern) {
            Ok(re) => Some(Matcher { re, pattern: pattern.to_string() }),
            Err(_) => None,
        }
    }

    /// Compile a submitted pattern; `None` exactly on a pattern the regex
    /// engine rejects, which aborts that round silently.
    pub fn compile(pattern: &String) -> (r: Option<Matcher>)
        ensures
            r is Some <==> regex_valid(pattern@),
            r matches Some(m) ==> m.pattern_view() == pattern@,
    {
        Matcher::compile_raw(pattern.as_str())
    }

    /// Relies on grep_matcher::Matcher::is_match for RegexMatcher: true
    /// exactly when the regex matches somewhere in the haystack; its error
    /// type has no values, so the call cannot fail.
    #[verifier::external_body]
    fn is_match_raw(&self, line: &[u8]) -> (r: bool)
        ensures
            r == regex_match(self.pattern_view(), line@),
    {
        grep::matcher::Matcher::is_match(&self.re, line).unwrap_or(false)
    }

    /// Whether this matcher matches anywhere in the given line's bytes.
    pub fn is_match(&self, line: &Vec<u8>) -> (r: bool)
        ensures
            r == regex_match(self.pattern_view(), line@),
    {
        self.is_match_raw(line.as_slice())
    }
}

} // verus!
