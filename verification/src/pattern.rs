//! The DOI pattern, and what it finds in a text.

use crate::engine::regex_matches;
use crate::error::ErrorView;
use crate::pieces::piece_or_error;
use crate::span::{first_span, span_text, texts_at, Span};
use vstd::prelude::*;

verus! {

/// The pattern of a DOI: a word boundary, the directory indicator `10.`, a registrant
/// code of four to nine digits, a slash, a suffix of one or more characters that are
/// not whitespace, and a word boundary.
pub const DOI_PATTERN: &'static str = r"\b10\.\d{4,9}/\S+\b";

/// The spans of the DOIs in `text`, from left to right.
pub open spec fn doi_spans(text: Seq<char>) -> Seq<Span> {
    regex_matches(DOI_PATTERN@, text)
}

/// `text` holds at least one DOI.
pub open spec fn contains_doi(text: Seq<char>) -> bool {
    doi_spans(text).len() > 0
}

/// The DOIs in `text`, each as the piece of text that was matched, from left to right.
pub open spec fn doi_texts(text: Seq<char>) -> Seq<Seq<char>> {
    texts_at(text, doi_spans(text))
}

/// What parsing `text` yields: the first DOI in it, or else an invalid-DOI error with
/// the text itself as the offender.
pub open spec fn parsed(text: Seq<char>) -> Result<Seq<char>, ErrorView> {
    piece_or_error(text, first_span(doi_spans(text)))
}

/// `s` is a DOI: the pattern matches exactly `s` somewhere in some text.
pub open spec fn is_doi(s: Seq<char>) -> bool {
    exists|text: Seq<char>, i: int|
        0 <= i < doi_spans(text).len() && #[trigger] span_text(text, doi_spans(text)[i]) == s
}

/// `s` is a DOI and nothing else: searched on its own, its first match is the whole of it.
pub open spec fn is_exact_doi(s: Seq<char>) -> bool {
    &&& contains_doi(s)
    &&& doi_spans(s)[0].start == 0
    &&& doi_spans(s)[0].end == vstd::utf8::encode_utf8(s).len()
}

} // verus!
