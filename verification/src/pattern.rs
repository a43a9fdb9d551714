//! Regular-expression matching through the `regex` crate.

use vstd::prelude::*;

verus! {

/// The `regex` crate's compiled expression, carried opaquely.
#[verifier::external_type_specification]
#[verifier::external_body]
pub struct ExRegex(regex::Regex);

/// The `regex` crate's compile error, carried opaquely.
#[verifier::external_type_specification]
#[verifier::external_body]
pub struct ExRegexError(regex::Error);

/// Whether `regex::Regex::new` accepts the pattern (syntax and default size limit).
pub uninterp spec fn regex_compiles(pattern: Seq<char>) -> bool;

/// Whether the expression compiled from `pattern` finds a match anywhere in `text`
/// (`regex::Regex::is_match`).
pub uninterp spec fn regex_finds_match(pattern: Seq<char>, text: Seq<char>) -> bool;

/// A compiled expression together with the pattern it was compiled from.
pub struct CompiledRegex {
    re: regex::Regex,
    pattern: Ghost<Seq<char>>,
}

impl CompiledRegex {
    /// The pattern this expression was compiled from.
    pub closed spec fn pattern(&self) -> Seq<char> {
        self.pattern@
    }
}

/// Wraps `regex::Regex::new`. Succeeds exactly when the crate accepts the pattern;
/// the compiled value remembers the pattern it came from.
#[verifier::external_body]
pub(crate) fn compile_regex(pattern: &str) -> (r: Result<CompiledRegex, regex::Error>)
    ensures
        r is Ok <==> regex_compiles(pattern@),
        r matches Ok(c) ==> c.pattern() == pattern@,
{
    regex::Regex::new(pattern).map(|re| CompiledRegex { re, pattern: Ghost(pattern@) })
}

/// Wraps `regex::Regex::is_match`: whether the expression matches somewhere in `text`.
#[verifier::external_body]
pub(crate) fn regex_is_match(c: &CompiledRegex, text: &str) -> (b: bool)
    ensures
        b == regex_finds_match(c.pattern(), text@),
{
    c.re.is_match(text)
}

} // verus!
