//! Compiled patterns. The regular-expression engine is the `regex` crate; what
//! is said of it here is believed, not proved.

use vstd::prelude::*;

verus! {

#[verifier::external_type_specification]
#[verifier::external_body]
pub struct ExRegex(regex::Regex);

#[verifier::external_type_specification]
#[verifier::external_body]
pub struct ExRegexError(regex::Error);

/// What `regex::Regex::new` makes of a pattern: `None` where it returns an
/// error, else the set of texts in which the regex it returns finds a match.
pub uninterp spec fn compiled_language(pattern: Seq<char>) -> Option<Set<Seq<char>>>;

/// The texts that a compiled regex finds a match in: those on which
/// `regex::Regex::is_match` returns `true`.
pub uninterp spec fn regex_accepts(engine: regex::Regex) -> Set<Seq<char>>;

/// `regex::Regex::new` compiles a pattern under the crate's default limits.
/// Believed: whether it succeeds, and what the regex it returns matches, depend
/// on the pattern alone.
pub assume_specification[ regex::Regex::new ](re: &str) -> (compiled: Result<
    regex::Regex,
    regex::Error,
>)
    ensures
        match compiled {
            Ok(engine) => compiled_language(re@) == Some(regex_accepts(engine)),
            Err(_) => compiled_language(re@) is None,
        },
;

/// `regex::Regex::is_match` says whether the regex finds a match anywhere in
/// the text. Believed: it returns, and its answer depends on the regex and the
/// text alone.
pub assume_specification[ regex::Regex::is_match ](
    engine: &regex::Regex,
    haystack: &str,
) -> (found: bool)
    ensures
        found == regex_accepts(*engine).contains(haystack@),
;

/// Whether the pattern compiles.
pub open spec fn pattern_compiles(pattern: Seq<char>) -> bool {
    compiled_language(pattern) is Some
}

/// Whether the pattern compiles and finds a match in the text.
pub open spec fn pattern_matches(pattern: Seq<char>, text: Seq<char>) -> bool {
    match compiled_language(pattern) {
        Some(language) => language.contains(text),
        None => false,
    }
}

/// The pattern was refused by the engine.
#[derive(Clone, Copy, Debug, PartialEq, Eq)]
pub struct PatternError {}

/// A pattern compiled once, to be matched many times.
pub struct Matcher {
    engine: regex::Regex,
}

impl Matcher {
    /// The texts this matcher finds a match in.
    pub closed spec fn accepts(&self) -> Set<Seq<char>> {
        regex_accepts(self.engine)
    }

    /// Compiles the pattern. Succeeds exactly when the pattern compiles, with
    /// a matcher for the pattern's language.
    pub fn compile(pattern: &str) -> (made: Result<Matcher, PatternError>)
        ensures
            made is Ok <==> pattern_compiles(pattern@),
            made matches Ok(m) ==> compiled_language(pattern@) == Some(m.accepts()),
    {
        match regex::Regex::new(pattern) {
            Ok(engine) => Ok(Matcher { engine }),
            Err(_) => Err(PatternError {  }),
        }
    }

    /// Whether the matcher finds a match anywhere in the text.
    pub fn is_match(&self, text: &str) -> (found: bool)
        ensures
            found == self.accepts().contains(text@),
    {
        self.engine.is_match(text)
    }
}

} // verus!
