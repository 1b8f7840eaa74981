//! The content rewriter: applies a pattern-based search/replace to one
//! file's text and decides whether the file needs to be written back.
//!
//! The pattern language is the regex crate's; its compiler and matcher run
//! behind trusted wrappers, and their results are named by the
//! uninterpreted functions below. The write-avoidance decision — a file
//! whose content the replacement leaves unchanged is never written — is the
//! library's own logic and is verified.

use vstd::prelude::*;

verus! {

/// Whether the regex crate accepts `pat` as a pattern.
pub uninterp spec fn regex_valid(pat: Seq<char>) -> bool;

/// Whether `text` contains a match of the pattern `pat`.
pub uninterp spec fn regex_matches(pat: Seq<char>, text: Seq<char>) -> bool;

/// The text with every non-overlapping match of `pat` replaced by `rep`,
/// leftmost first.
pub uninterp spec fn regex_replaced(pat: Seq<char>, text: Seq<char>, rep: Seq<char>) -> Seq<
    char,
>;

/// Relies on regex::Regex::new and regex::Regex::is_match: compilation
/// succeeds or fails on the pattern text alone, and whether a haystack
/// matches depends on the pattern and the haystack alone.
#[verifier::external_body]
pub(crate) fn regex_is_match(pat: &str, text: &str) -> (r: Option<bool>)
    ensures
        r is Some <==> regex_valid(pat@),
        r matches Some(b) ==> b == regex_matches(pat@, text@),
{
    match regex::Regex::new(pat) {
        Ok(re) => Some(re.is_match(text)),
        Err(_) => None,
    }
}

/// Relies on regex::Regex::new and regex::Regex::replace_all: the result
/// replaces every non-overlapping match of the pattern, leftmost first, and
/// "if no match is found, then the haystack is returned unchanged".
#[verifier::external_body]
pub(crate) fn regex_replace_all(pat: &str, text: &str, rep: &str) -> (r: Option<String>)
    ensures
        r is Some <==> regex_valid(pat@),
        r matches Some(s) ==> s@ == regex_replaced(pat@, text@, rep@),
        r is Some && !regex_matches(pat@, text@) ==> regex_replaced(pat@, text@, rep@)
            == text@,
{
    match regex::Regex::new(pat) {
        Ok(re) => Some(re.replace_all(text, rep).into_owned()),
        Err(_) => None,
    }
}

/// Whether `pat` is a pattern the rewriter will accept.
pub fn pattern_is_valid(pat: &str) -> (r: bool)
    ensures
        r == regex_valid(pat@),
{
    regex_is_match(pat, "").is_some()
}

/// What the rewriter decided about one file's content.
#[derive(Debug)]
pub enum RewriteOutcome {
    /// The search pattern does not compile; nothing was computed.
    InvalidPattern,
    /// The replacement leaves the content as it is: no write may occur.
    Unchanged,
    /// The replaced content, different from the original: it is what must
    /// be written back.
    Changed(String),
}

/// Applies the search/replace to one file's content and decides whether a
/// write is needed. The content is written back only when the replaced
/// text differs from the original; in particular, content without a match
/// of the pattern is always left unchanged.
pub fn rewrite_content(pat: &str, content: &str, rep: &str) -> (r: RewriteOutcome)
    ensures
        r is InvalidPattern <==> !regex_valid(pat@),
        regex_valid(pat@) ==> ((r is Unchanged) <==> regex_replaced(pat@, content@, rep@)
            == content@),
        r matches RewriteOutcome::Changed(s) ==> s@ == regex_replaced(pat@, content@, rep@)
            && s@ != content@,
        regex_valid(pat@) && !regex_matches(pat@, content@) ==> r is Unchanged,
{
    match regex_replace_all(pat, content, rep) {
        Option::None => RewriteOutcome::InvalidPattern,
        Option::Some(new_content) => {
            let original: String = content.to_owned();
            if new_content == original {
                RewriteOutcome::Unchanged
            } else {
                RewriteOutcome::Changed(new_content)
            }
        },
    }
}

} // verus!
