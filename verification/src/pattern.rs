//! Regular expressions over file names, through the `regex` crate.

use vstd::prelude::*;

verus! {

#[verifier::external_type_specification]
#[verifier::external_body]
pub struct ExRegex(regex::Regex);

#[verifier::external_type_specification]
#[verifier::external_body]
pub struct ExRegexError(regex::Error);

/// Whether `regex::Regex::new` accepts a pattern (it refuses invalid
/// patterns and ones that compile beyond the default size limit).
pub uninterp spec fn regex_compiles(pattern: Seq<char>) -> bool;

/// What `regex::Regex::captures` finds for a pattern in a haystack: `None`
/// when nothing matches, else the text of each capture group of the
/// leftmost-first match (group 0 being the whole match), `None` for a group
/// that did not take part in it.
pub uninterp spec fn regex_captures(pattern: Seq<char>, haystack: Seq<char>) -> Option<
    Seq<Option<Seq<char>>>,
>;

/// The texts of the capture groups returned by [`Pattern::captures`].
pub open spec fn capture_texts(caps: Option<Vec<Option<String>>>) -> Option<Seq<Option<Seq<char>>>> {
    match caps {
        Some(groups) => Some(
            groups@.map_values(
                |g: Option<String>|
                    match g {
                        Some(s) => Some(s@),
                        None => None,
                    },
            ),
        ),
        None => None,
    }
}

/// A compiled regular expression, with the pattern it was compiled from.
pub(crate) struct Pattern {
    source: String,
    regex: regex::Regex,
}

impl Pattern {
    /// The pattern the expression was compiled from.
    pub(crate) closed spec fn source(&self) -> Seq<char> {
        self.source@
    }

    /// `regex::Regex::new(source)`, kept with its pattern. Trusted to
    /// succeed exactly when [`regex_compiles`] holds of the pattern.
    #[verifier::external_body]
    pub(crate) fn new(source: &str) -> (compiled: Result<Pattern, regex::Error>)
        ensures
            compiled is Ok <==> regex_compiles(source@),
            compiled matches Ok(p) ==> p.source() == source@,
    {
        regex::Regex::new(source).map(|regex| Pattern { source: source.to_string(), regex })
    }

    /// `regex::Regex::captures(haystack)`, each group given as its matched
    /// text. Trusted to give what [`regex_captures`] names; as the crate
    /// documents, a match always has group 0.
    #[verifier::external_body]
    pub(crate) fn captures(&self, haystack: &str) -> (caps: Option<Vec<Option<String>>>)
        ensures
            capture_texts(caps) == regex_captures(self.source(), haystack@),
            caps matches Some(groups) ==> groups@.len() >= 1 && groups@[0] is Some,
    {
        self.regex.captures(haystack).map(
            |c| c.iter().map(|m| m.map(|m| m.as_str().to_string())).collect(),
        )
    }

    /// `regex::Regex::is_match(haystack)`. Trusted to hold exactly when
    /// [`Pattern::captures`] finds a match, as the crate documents ("true if
    /// and only if there is a match for the regex anywhere in the
    /// haystack").
    #[verifier::external_body]
    pub(crate) fn is_match(&self, haystack: &str) -> (found: bool)
        ensures
            found == regex_captures(self.source(), haystack@) is Some,
    {
        self.regex.is_match(haystack)
    }
}

} // verus!
