//! What holds of spans, of parsing and of extracting, for every text.

use crate::doi::{doi_views, Doi};
use crate::error::ErrorView;
use crate::pattern::{contains_doi, doi_spans, doi_texts, is_doi, is_exact_doi, parsed};
use crate::span::{
    char_offset, lemma_span_text_is_subrange, span_text, valid_span, valid_spans, Span,
};
use vstd::prelude::*;
use vstd::utf8::{
    encode_utf8, encode_utf8_decode_utf8, encode_utf8_valid_utf8, is_ascii_chars,
    is_ascii_chars_encode_utf8, is_char_boundary_iff_not_is_continuation_byte,
    is_char_boundary_start_end_of_seq,
};

verus! {

/// In a text of ASCII characters every byte is a character: offsets within the text
/// make a valid span, and its text is the subrange at those very offsets.
pub proof fn law_ascii_span(text: Seq<char>, span: Span)
    requires
        is_ascii_chars(text),
        span.start <= span.end <= text.len(),
    ensures
        valid_span(text, span),
        span_text(text, span) == text.subrange(span.start as int, span.end as int),
{
    let bytes = encode_utf8(text);
    let start = span.start as int;
    let end = span.end as int;
    let piece = text.subrange(start, end);
    encode_utf8_valid_utf8(text);
    is_ascii_chars_encode_utf8(text);
    is_char_boundary_start_end_of_seq(bytes);
    if start < bytes.len() {
        is_char_boundary_iff_not_is_continuation_byte(bytes, start);
    }
    if end < bytes.len() {
        is_char_boundary_iff_not_is_continuation_byte(bytes, end);
    }
    is_ascii_chars_encode_utf8(piece);
    assert(bytes.subrange(start, end) =~= encode_utf8(piece));
    encode_utf8_decode_utf8(piece);
}

/// From a text that holds a DOI, extraction yields at least one value, each value is
/// exactly the piece of text that was matched, and parsing yields the first of them.
pub proof fn law_text_with_doi(text: Seq<char>)
    requires
        contains_doi(text),
    ensures
        doi_texts(text).len() > 0,
        forall|i: int|
            0 <= i < doi_texts(text).len() ==> {
                &&& #[trigger] doi_texts(text)[i] == span_text(text, doi_spans(text)[i])
                &&& is_doi(doi_texts(text)[i])
            },
        parsed(text) == Ok::<Seq<char>, ErrorView>(doi_texts(text)[0]),
{
}

/// From a text that holds no DOI, extraction yields the empty sequence, and parsing
/// fails with an invalid-DOI error that carries the text itself.
pub proof fn law_text_without_doi(text: Seq<char>)
    requires
        !contains_doi(text),
    ensures
        doi_texts(text) == Seq::<Seq<char>>::empty(),
        parsed(text) == Err::<Seq<char>, ErrorView>(ErrorView::InvalidDoi(text)),
{
    assert(doi_texts(text) =~= Seq::<Seq<char>>::empty());
}

/// Extraction yields one value for each match, and the values stand in the text from
/// left to right: each is a contiguous piece of the text, and an earlier one ends
/// before a later one starts.
pub proof fn law_left_to_right(text: Seq<char>, i: int, j: int)
    requires
        valid_spans(text, doi_spans(text)),
        0 <= i < j < doi_spans(text).len(),
    ensures
        doi_texts(text).len() == doi_spans(text).len(),
        doi_texts(text)[i] == text.subrange(
            char_offset(text, doi_spans(text)[i].start as int),
            char_offset(text, doi_spans(text)[i].end as int),
        ),
        doi_texts(text)[j] == text.subrange(
            char_offset(text, doi_spans(text)[j].start as int),
            char_offset(text, doi_spans(text)[j].end as int),
        ),
        char_offset(text, doi_spans(text)[i].end as int) <= char_offset(
            text,
            doi_spans(text)[j].start as int,
        ),
{
    let earlier = doi_spans(text)[i];
    let later = doi_spans(text)[j];
    let gap = Span { start: earlier.end, end: later.start };
    lemma_span_text_is_subrange(text, earlier);
    lemma_span_text_is_subrange(text, later);
    lemma_span_text_is_subrange(text, gap);
}

/// Parsing a string that is a DOI and nothing else yields a DOI of the same characters.
/// `Doi::to_string` returns the characters of a DOI unchanged, so that showing the
/// parsed DOI gives back the input.
pub proof fn law_round_trip(doi: Seq<char>)
    requires
        is_exact_doi(doi),
    ensures
        parsed(doi) == Ok::<Seq<char>, ErrorView>(doi),
        is_doi(doi),
{
    let bytes = encode_utf8(doi);
    assert(bytes.subrange(0, bytes.len() as int) =~= bytes);
    encode_utf8_decode_utf8(doi);
    assert(span_text(doi, doi_spans(doi)[0]) == doi);
}

/// Extraction is a function of the text: two results for the same text have the same
/// length and hold equal DOIs at each place.
pub proof fn law_extract_is_a_function(text: Seq<char>, first: Seq<Doi>, second: Seq<Doi>)
    requires
        doi_views(first) == doi_texts(text),
        doi_views(second) == doi_texts(text),
    ensures
        first.len() == second.len(),
        forall|i: int| 0 <= i < first.len() ==> (#[trigger] first[i])@ == second[i]@,
{
    assert(doi_views(first).len() == first.len());
    assert(doi_views(second).len() == second.len());
    assert forall|i: int| 0 <= i < first.len() implies (#[trigger] first[i])@ == second[i]@ by {
        assert(doi_views(first)[i] == first[i]@);
        assert(doi_views(second)[i] == second[i]@);
    }
}

} // verus!
