use vstd::prelude::*;

verus! {

#[verifier::external_type_specification]
#[verifier::external_body]
pub struct ExRegex(regex::Regex);

#[verifier::external_type_specification]
#[verifier::external_body]
pub struct ExRegexError(regex::Error);

/// Whether the regular expression `pattern`, in the syntax of the `regex`
/// crate, matches somewhere in `haystack`.
pub uninterp spec fn regex_is_match(pattern: Seq<char>, haystack: Seq<char>) -> bool;

/// Relies on `regex::Regex::new`: compiles `source`, or reports why it cannot.
#[verifier::external_body]
fn compile_regex(source: &str) -> (r: Result<regex::Regex, regex::Error>) {
    regex::Regex::new(source)
}

/// Relies on `regex::Regex::is_match`: whether the compiled expression matches
/// somewhere in `haystack`. `p` holds the expression compiled from `p.source`,
/// which `LabelPattern::new` alone establishes.
#[verifier::external_body]
fn regex_matches(p: &LabelPattern, haystack: &str) -> (r: bool)
    ensures
        r == regex_is_match(p.source@, haystack@),
{
    p.compiled.is_match(haystack)
}

/// A regular expression over sensor labels, compiled once and kept with its
/// source text.
pub struct LabelPattern {
    source: String,
    compiled: regex::Regex,
}

impl LabelPattern {
    /// The source text of the expression.
    pub closed spec fn source_spec(&self) -> Seq<char> {
        self.source@
    }

    /// Compiles `source`; `None` when it is not a valid expression.
    pub fn new(source: &str) -> (r: Option<LabelPattern>)
        ensures
            r matches Some(p) ==> p.source_spec() == source@,
    {
        match compile_regex(source) {
            Ok(compiled) => Some(LabelPattern { source: source.to_owned(), compiled }),
            Err(_) => None,
        }
    }

    /// Whether the expression matches somewhere in `label`.
    pub fn is_match(&self, label: &str) -> (r: bool)
        ensures
            r == regex_is_match(self.source_spec(), label@),
    {
        regex_matches(self, label)
    }
}

} // verus!
