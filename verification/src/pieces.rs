//! From what a search found to what is handed out.
//!
//! A search reports spans. These functions turn them into pieces of the text, or into
//! the error for a text in which nothing was found. They take the spans as an
//! argument, and say what they return for every text and every valid span.

use crate::error::{Error, ErrorView};
use crate::span::{slice, span_text, texts_at, valid_span, Span};
use vstd::prelude::*;

verus! {

/// What parsing `text` yields when the first match in it, if any, is `found`: the text
/// of that span, or else the text itself as the offender of an invalid-DOI error.
pub open spec fn piece_or_error(text: Seq<char>, found: Option<Span>) -> Result<
    Seq<char>,
    ErrorView,
> {
    match found {
        Some(span) => Ok(span_text(text, span)),
        None => Err(ErrorView::InvalidDoi(text)),
    }
}

/// What a piece of text, or the error in its place, stands for.
pub open spec fn piece_view(result: Result<&str, Error>) -> Result<Seq<char>, ErrorView> {
    match result {
        Ok(piece) => Ok(piece@),
        Err(error) => Err(error@),
    }
}

/// The characters of each piece of a sequence.
pub open spec fn piece_views(pieces: Seq<&str>) -> Seq<Seq<char>> {
    Seq::new(pieces.len(), |i: int| pieces[i]@)
}

/// The piece of `text` to build a DOI from, when the search for a first match came
/// back with `found`: the text of the span that was found, or else an invalid-DOI
/// error that carries `text` unchanged.
pub fn matched_piece<'a>(text: &'a str, found: Option<Span>) -> (result: Result<&'a str, Error>)
    requires
        found matches Some(span) ==> valid_span(text@, span),
    ensures
        piece_view(result) == piece_or_error(text@, found),
        result is Ok <==> found is Some,
{
    match found {
        Some(span) => Ok(slice(text, span)),
        None => Err(Error::InvalidDoi(text.to_owned())),
    }
}

/// The pieces of `text` to build DOIs from, when the search for all matches came back
/// with `found`: the text of each span, in the order of the spans.
pub fn matched_pieces<'a>(text: &'a str, found: &[Span]) -> (pieces: Vec<&'a str>)
    requires
        forall|i: int| 0 <= i < found@.len() ==> valid_span(text@, #[trigger] found@[i]),
    ensures
        piece_views(pieces@) == texts_at(text@, found@),
        pieces@.len() == found@.len(),
        forall|i: int|
            0 <= i < pieces@.len() ==> (#[trigger] pieces@[i])@ == span_text(text@, found@[i]),
{
    let mut pieces: Vec<&'a str> = Vec::new();
    let mut i: usize = 0;
    while i < found.len()
        invariant
            forall|k: int| 0 <= k < found@.len() ==> valid_span(text@, #[trigger] found@[k]),
            0 <= i <= found.len(),
            pieces@.len() == i,
            forall|k: int| 0 <= k < i ==> (#[trigger] pieces@[k])@ == span_text(text@, found@[k]),
        decreases found.len() - i,
    {
        pieces.push(slice(text, found[i]));
        i += 1;
    }
    assert(piece_views(pieces@) =~= texts_at(text@, found@));
    pieces
}

} // verus!
