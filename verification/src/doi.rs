//! Digital Object Identifiers (DOIs).
//!
//! A DOI is represented by the struct [`Doi`]. One is built from a string slice by
//! `Doi::parse`, or by `str::parse` through `FromStr`; a string slice is scanned for
//! zero or more DOIs by `Doi::extract`.

use crate::error::{Error, ErrorView};
use crate::pattern::{contains_doi, doi_spans, doi_texts, is_doi, parsed};
use crate::recognizer::Recognizer;
use crate::span::{span_text, valid_span, valid_spans};
use vstd::prelude::*;

verus! {

/// A single DOI.
///
/// The string inside is always a piece of text that the DOI pattern matched, with
/// nothing around it.
#[derive(Debug)]
pub struct Doi(String);

impl View for Doi {
    type V = Seq<char>;

    /// The characters of the DOI.
    closed spec fn view(&self) -> Seq<char> {
        self.0@
    }
}

/// The characters of each DOI of a sequence.
pub open spec fn doi_views(dois: Seq<Doi>) -> Seq<Seq<char>> {
    Seq::new(dois.len(), |i: int| dois[i]@)
}

/// What a parse result stands for.
pub open spec fn result_view(result: Result<Doi, Error>) -> Result<Seq<char>, ErrorView> {
    match result {
        Ok(doi) => Ok(doi@),
        Err(error) => Err(error@),
    }
}

impl Doi {
    #[verifier::type_invariant]
    spec fn matched_by_pattern(&self) -> bool {
        is_doi(self.0@)
    }

    /// Wraps a piece of text that the DOI pattern matched.
    pub(crate) fn from_match(matched: &str) -> (doi: Doi)
        requires
            is_doi(matched@),
        ensures
            doi@ == matched@,
    {
        Doi(matched.to_owned())
    }

    /// Builds a DOI from the first match of the DOI pattern in `text`.
    ///
    /// The match need not span the whole of `text`: the DOI holds the matched piece,
    /// not the input. Where nothing matches, the error carries `text` unchanged.
    pub fn parse(text: &str) -> (result: Result<Doi, Error>)
        ensures
            result_view(result) == parsed(text@),
            result is Ok <==> contains_doi(text@),
            result is Ok ==> valid_span(text@, doi_spans(text@)[0]),
    {
        Recognizer::new().parse(text)
    }

    /// Extracts the DOIs from a given string: one for each match of the DOI pattern,
    /// from left to right.
    ///
    /// The matches do not overlap, and a text without any yields an empty vector. The
    /// result depends on `text` alone: two calls on equal texts return equal DOIs.
    pub fn extract(text: &str) -> (dois: Vec<Doi>)
        ensures
            doi_views(dois@) == doi_texts(text@),
            dois@.len() == doi_spans(text@).len(),
            dois@.len() > 0 <==> contains_doi(text@),
            forall|i: int|
                0 <= i < dois@.len() ==> (#[trigger] dois@[i])@ == span_text(
                    text@,
                    doi_spans(text@)[i],
                ),
            valid_spans(text@, doi_spans(text@)),
    {
        Recognizer::new().extract(text)
    }

    /// The DOI as a string slice.
    pub fn as_str(&self) -> (text: &str)
        ensures
            text@ == self@,
            is_doi(self@),
    {
        proof {
            use_type_invariant(self);
        }
        self.0.as_str()
    }

    /// The DOI as a string of its own: exactly the text that was matched.
    pub fn to_string(&self) -> (text: String)
        ensures
            text@ == self@,
    {
        self.0.clone()
    }
}

impl Clone for Doi {
    fn clone(&self) -> (copy: Doi)
        ensures
            copy@ == self@,
    {
        proof {
            use_type_invariant(self);
        }
        Doi(self.0.clone())
    }
}

impl PartialEq for Doi {
    /// Two DOIs are equal exactly when their strings are.
    fn eq(&self, other: &Doi) -> (equal: bool) {
        self.0 == other.0
    }
}

impl vstd::std_specs::cmp::PartialEqSpecImpl for Doi {
    open spec fn obeys_eq_spec() -> bool {
        true
    }

    open spec fn eq_spec(&self, other: &Doi) -> bool {
        self@ == other@
    }
}

impl std::str::FromStr for Doi {
    type Err = Error;

    /// The same as `Doi::parse`.
    fn from_str(s: &str) -> (result: Result<Doi, Error>)
        ensures
            result_view(result) == parsed(s@),
    {
        Doi::parse(s)
    }
}

} // verus!
