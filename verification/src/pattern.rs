//! Regular expressions and upper case, as the `regex` crate and the standard
//! library provide them.
//!
//! Nothing in this file is proved. What a call returns is given a name, and
//! the rest of the library is proved for whatever those names stand for.

use regex::Regex;
use vstd::prelude::*;

verus! {

/// `regex::Regex`, a compiled regular expression. Nothing inside it is
/// visible to proofs.
#[verifier::external_type_specification]
#[verifier::external_body]
pub struct ExRegex(regex::Regex);

/// `regex::Error`, the reason why a pattern did not compile. Nothing inside
/// it is visible to proofs.
#[verifier::external_type_specification]
#[verifier::external_body]
pub struct ExRegexError(regex::Error);

/// What `Regex::new` returns for a pattern: the compiled expression, or the
/// error that says why there is none. `Regex::new` fixes every option of the
/// compiler, the size limit among them, so the pattern alone decides.
pub uninterp spec fn compile_outcome(pattern: Seq<char>) -> Result<Regex, regex::Error>;

/// What `Regex::is_match` returns: whether the expression matches anywhere
/// in `text`.
pub uninterp spec fn finds(re: Regex, text: Seq<char>) -> bool;

/// What the `Display` of a `regex::Error` writes.
pub uninterp spec fn compile_error_text(error: regex::Error) -> Seq<char>;

/// What `str::to_uppercase` returns: `s` in upper case, by the Unicode
/// mapping.
pub uninterp spec fn uppercase(s: Seq<char>) -> Seq<char>;

/// Calls `Regex::new`. The contract only names the result.
#[verifier::external_body]
pub(crate) fn compile(pattern: &str) -> (outcome: Result<Regex, regex::Error>)
    ensures
        outcome == compile_outcome(pattern@),
{
    Regex::new(pattern)
}

/// Calls `Regex::is_match`, which searches the whole of `text` and does not
/// panic. The contract only names the result.
#[verifier::external_body]
pub(crate) fn is_match(re: &Regex, text: &str) -> (found: bool)
    ensures
        found == finds(*re, text@),
{
    re.is_match(text)
}

/// Writes a `regex::Error` out through its `Display`. The contract only
/// names the result.
#[verifier::external_body]
pub(crate) fn error_text(error: &regex::Error) -> (text: String)
    ensures
        text@ == compile_error_text(*error),
{
    error.to_string()
}

/// Calls `str::to_uppercase`. The contract only names the result.
#[verifier::external_body]
pub(crate) fn to_uppercase(s: &str) -> (upper: String)
    ensures
        upper@ == uppercase(s@),
{
    s.to_uppercase()
}

} // verus!
