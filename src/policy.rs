use vstd::prelude::*;

verus! {

/// Whether `regex::Regex::new` accepts the pattern.
pub uninterp spec fn pattern_compiles(pattern: Seq<char>) -> bool;

/// Whether the compiled pattern matches somewhere in the text
/// (`regex::Regex::is_match`).
pub uninterp spec fn pattern_finds(pattern: Seq<char>, text: Seq<char>) -> bool;

/// Relies on `regex::Regex::new`, which fails exactly on patterns it cannot
/// compile, and on `regex::Regex::is_match`, which reports a match anywhere
/// in the text; both depend on their arguments alone.
#[verifier::external_body]
fn regex_is_match(pattern: &str, text: &str) -> (r: Option<bool>)
    ensures
        r.is_some() == pattern_compiles(pattern@),
        r matches Some(b) ==> b == pattern_finds(pattern@, text@),
{
    match regex::Regex::new(pattern) {
        Ok(re) => Some(re.is_match(text)),
        Err(_) => None,
    }
}

/// The configured pattern does not compile.
#[derive(Clone, Copy, Debug, PartialEq, Eq, Structural)]
pub struct PatternError;

/// The operator's allow-list for activation URLs. The pattern is fixed at
/// construction; matching is unanchored unless the pattern anchors itself.
pub struct UrlPolicy {
    pattern: String,
}

impl UrlPolicy {
    pub closed spec fn spec_pattern(&self) -> Seq<char> {
        self.pattern@
    }

    pub fn new(pattern: &str) -> (r: UrlPolicy)
        ensures
            r.spec_pattern() == pattern@,
    {
        UrlPolicy { pattern: pattern.to_owned() }
    }

    pub fn pattern(&self) -> (r: &str)
        ensures
            r@ == self.spec_pattern(),
    {
        self.pattern.as_str()
    }

    /// Whether `url` satisfies the policy: an error for a pattern that does
    /// not compile, whatever the URL; otherwise whether the pattern matches
    /// anywhere in `url`.
    pub fn matches(&self, url: &str) -> (r: Result<bool, PatternError>)
        ensures
            r is Err <==> !pattern_compiles(self.spec_pattern()),
            r matches Ok(b) ==> b == pattern_finds(self.spec_pattern(), url@),
    {
        match regex_is_match(self.pattern.as_str(), url) {
            Some(b) => Ok(b),
            None => Err(PatternError),
        }
    }
}

} // verus!
