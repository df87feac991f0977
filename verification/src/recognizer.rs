//! The DOI recognizer: the compiled DOI pattern, and the two searches it offers.
//!
//! A search has two halves. The first is the search proper, which finds the spans of
//! the matches. The second turns what was found into the pieces of text to hand out,
//! or into the error for a text without a match: that is the work of [`crate::pieces`].
//! Here the two are put together, and each piece becomes a [`Doi`].

use crate::doi::{doi_views, result_view, Doi};
use crate::engine::{compile, find_all, find_first, regex_source};
use crate::error::Error;
use crate::pattern::{contains_doi, doi_spans, doi_texts, parsed, DOI_PATTERN};
use crate::pieces::{matched_piece, matched_pieces};
use crate::span::{span_text, valid_span, valid_spans};
use regex::Regex;
use vstd::prelude::*;

verus! {

/// The compiled DOI pattern.
///
/// Compiling the pattern is costly next to a search. A caller with many texts builds
/// one recognizer and uses it for all of them; it is never changed by a search.
pub struct Recognizer {
    re: Regex,
}

impl View for Recognizer {
    type V = Seq<char>;

    /// The pattern that the recognizer was compiled from.
    closed spec fn view(&self) -> Seq<char> {
        regex_source(self.re)
    }
}

impl Recognizer {
    #[verifier::type_invariant]
    spec fn holds_doi_pattern(&self) -> bool {
        regex_source(self.re) == DOI_PATTERN@
    }

    /// Compiles the DOI pattern.
    pub fn new() -> (recognizer: Recognizer)
        ensures
            recognizer@ == DOI_PATTERN@,
    {
        Recognizer { re: compile(DOI_PATTERN) }
    }

    /// Builds a DOI from the first match of the DOI pattern in `text`.
    ///
    /// The match need not span the whole of `text`: the DOI holds the matched piece,
    /// not the input. Where nothing matches, the error carries `text` unchanged.
    pub fn parse(&self, text: &str) -> (result: Result<Doi, Error>)
        ensures
            result_view(result) == parsed(text@),
            result is Ok <==> contains_doi(text@),
            result is Ok ==> valid_span(text@, doi_spans(text@)[0]),
    {
        proof {
            use_type_invariant(self);
        }
        match matched_piece(text, find_first(&self.re, text)) {
            Ok(piece) => Ok(Doi::from_match(piece)),
            Err(error) => Err(error),
        }
    }

    /// Extracts the DOIs from `text`: one for each match of the DOI pattern, from left
    /// to right.
    ///
    /// The matches do not overlap, and a text without any yields an empty vector. The
    /// result depends on `text` alone: two calls on equal texts return equal DOIs.
    pub fn extract(&self, text: &str) -> (dois: Vec<Doi>)
        ensures
            doi_views(dois@) == doi_texts(text@),
            dois@.len() == doi_spans(text@).len(),
            dois@.len() > 0 <==> contains_doi(text@),
            forall|i: int|
                0 <= i < dois@.len() ==> (#[trigger] dois@[i])@ == span_text(
                    text@,
                    doi_spans(text@)[i],
                ),
            valid_spans(text@, doi_spans(text@)),
    {
        proof {
            use_type_invariant(self);
        }
        let found = find_all(&self.re, text);
        let pieces = matched_pieces(text, found.as_slice());
        let mut dois: Vec<Doi> = Vec::new();
        let mut i: usize = 0;
        while i < pieces.len()
            invariant
                pieces@.len() == doi_spans(text@).len(),
                forall|k: int|
                    0 <= k < pieces@.len() ==> (#[trigger] pieces@[k])@ == span_text(
                        text@,
                        doi_spans(text@)[k],
                    ),
                0 <= i <= pieces.len(),
                dois@.len() == i,
                forall|k: int|
                    0 <= k < i ==> (#[trigger] dois@[k])@ == span_text(
                        text@,
                        doi_spans(text@)[k],
                    ),
            decreases pieces.len() - i,
        {
            dois.push(Doi::from_match(pieces[i]));
            i += 1;
        }
        assert(doi_views(dois@) =~= doi_texts(text@));
        dois
    }
}

} // verus!
