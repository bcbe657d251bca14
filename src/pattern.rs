//! Regular expressions of the configuration, compiled once and kept with
//! their source text.
use vstd::prelude::*;

verus! {

/// `regex::Regex`, a compiled regular expression, carried as an opaque value.
#[verifier::external_type_specification]
#[verifier::external_body]
pub struct ExRegex(regex::Regex);

/// `regex::Error`, the refusal of a pattern, carried as an opaque value.
#[verifier::external_type_specification]
#[verifier::external_body]
pub struct ExRegexError(regex::Error);

/// Whether the regex crate accepts `pattern` as a regular expression.
pub uninterp spec fn regex_accepts(pattern: Seq<char>) -> bool;

/// Whether the regular expression `pattern` matches somewhere in `haystack`.
pub uninterp spec fn regex_finds(pattern: Seq<char>, haystack: Seq<char>) -> bool;

/// The text of the capture group `group` in the first match of `pattern` in
/// `haystack`; none where there is no match or the group took no part in it.
pub uninterp spec fn regex_group(pattern: Seq<char>, haystack: Seq<char>, group: Seq<char>) -> Option<Seq<char>>;

/// Relies on `regex::Regex::new`: it succeeds exactly on the patterns that the
/// crate accepts, which depends on the pattern alone.
#[verifier::external_body]
fn compile_regex(pattern: &str) -> (r: Result<regex::Regex, regex::Error>)
    ensures
        r is Ok <==> regex_accepts(pattern@),
{
    regex::Regex::new(pattern)
}

/// A compiled regular expression together with the text it was compiled from.
pub struct Pattern {
    source: String,
    regex: regex::Regex,
}

/// The configuration holds a regular expression that the regex crate refuses.
#[derive(Clone, Debug)]
pub enum ConfigError {
    InvalidPattern(String),
}

impl Pattern {
    /// The text the pattern was compiled from.
    pub closed spec fn source(&self) -> Seq<char> {
        self.source@
    }

    /// Compiles a regular expression; fails exactly where the regex crate
    /// refuses it, naming the refused text.
    pub fn new(source: &str) -> (r: Result<Pattern, ConfigError>)
        ensures
            r is Ok <==> regex_accepts(source@),
            r matches Ok(p) ==> p.source() == source@,
            r matches Err(ConfigError::InvalidPattern(s)) ==> s@ == source@,
    {
        match compile_regex(source) {
            Ok(regex) => Ok(Pattern { source: String::from_str(source), regex }),
            Err(_) => Err(ConfigError::InvalidPattern(String::from_str(source))),
        }
    }

    /// The source text of the pattern.
    pub fn as_str(&self) -> (r: &str)
        ensures
            r@ == self.source(),
    {
        self.source.as_str()
    }
}

/// Relies on `regex::Regex::is_match`; the pattern's regex was compiled from
/// its source text, so the answer is that of the source on the haystack.
#[verifier::external_body]
pub(crate) fn pattern_finds(p: &Pattern, haystack: &str) -> (r: bool)
    ensures
        r == regex_finds(p.source(), haystack@),
{
    p.regex.is_match(haystack)
}

/// Relies on `regex::Regex::captures` and `regex::Captures::name`: the text
/// of a named group in the first match, if any.
#[verifier::external_body]
pub(crate) fn pattern_group(p: &Pattern, haystack: &str, group: &str) -> (r: Option<String>)
    ensures
        match r {
            Some(t) => regex_group(p.source(), haystack@, group@) == Some(t@),
            None => regex_group(p.source(), haystack@, group@) is None,
        },
{
    p.regex.captures(haystack).and_then(|c| c.name(group)).map(|m| m.as_str().to_string())
}

} // verus!
