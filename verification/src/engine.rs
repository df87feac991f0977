//! The boundary to the `regex` crate.
//!
//! Nothing in this module is proved. Each item states, about one function of the
//! `regex` crate, what the rest of the library relies on. What a search finds is the
//! crate's work: it is given a name here, not a description.
//!
//! Every regex of this library comes from [`compile`], that is, from `Regex::new`
//! with the settings the crate starts with. What such a regex finds depends on the
//! pattern it was compiled from and on the text it searches, and on nothing else.

use crate::span::{first_span, valid_span, valid_spans, Span};
use regex::Regex;
use vstd::prelude::*;

verus! {

#[verifier::external_type_specification]
#[verifier::external_body]
pub struct ExRegex(regex::Regex);

/// The pattern that `Regex::new` compiled `re` from: for such a regex, what
/// `Regex::as_str` returns.
pub uninterp spec fn regex_source(re: Regex) -> Seq<char>;

/// The matches that `Regex::find_iter` yields, in the order in which it yields them,
/// when a regex compiled from `pattern` searches `haystack`. Each match is given as
/// the span from `Match::start` to `Match::end`, in bytes of the haystack.
pub uninterp spec fn regex_matches(pattern: Seq<char>, haystack: Seq<char>) -> Seq<Span>;

/// Calls `Regex::new` and takes the compiled regex out of its result.
///
/// Trusted: `Regex::new` accepts the DOI pattern, the only pattern admitted here, so
/// that there is a regex to take; and that regex has the pattern as its source.
#[verifier::external_body]
pub(crate) fn compile(pattern: &str) -> (re: Regex)
    requires
        pattern@ == crate::pattern::DOI_PATTERN@,
    ensures
        regex_source(re) == pattern@,
{
    Regex::new(pattern).unwrap()
}

/// Calls `Regex::find`.
///
/// Trusted: the match it returns is the first one that `Regex::find_iter` yields on
/// the same text, and it returns none exactly when `Regex::find_iter` yields none.
/// The offsets of a match lie within the text, the start not after the end, on
/// character boundaries.
#[verifier::external_body]
pub(crate) fn find_first(re: &Regex, text: &str) -> (found: Option<Span>)
    ensures
        found == first_span(regex_matches(regex_source(*re), text@)),
        found matches Some(span) ==> valid_span(text@, span),
{
    match re.find(text) {
        Some(m) => Some(Span { start: m.start(), end: m.end() }),
        None => None,
    }
}

/// Calls `Regex::find_iter` and collects the spans of the matches it yields.
///
/// Trusted: the offsets of each match lie within the text, the start not after the
/// end, on character boundaries; and the matches are successive and do not overlap,
/// so that each one ends before the next one starts.
#[verifier::external_body]
pub(crate) fn find_all(re: &Regex, text: &str) -> (found: Vec<Span>)
    ensures
        found@ == regex_matches(regex_source(*re), text@),
        valid_spans(text@, found@),
{
    let mut found = Vec::new();
    for m in re.find_iter(text) {
        found.push(Span { start: m.start(), end: m.end() });
    }
    found
}

} // verus!
