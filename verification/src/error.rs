//! The error conditions of building an identifier.

use vstd::prelude::*;
use vstd::string::StringExecFns;

verus! {

/// The possible error conditions when initialising identifier types.
#[derive(Debug)]
pub enum Error {
    /// The given string did not conform to the standard DOI format. It is carried
    /// along unchanged.
    InvalidDoi(String),
}

/// What an [`Error`] stands for.
pub enum ErrorView {
    InvalidDoi(Seq<char>),
}

impl View for Error {
    type V = ErrorView;

    open spec fn view(&self) -> ErrorView {
        match self {
            Error::InvalidDoi(text) => ErrorView::InvalidDoi(text@),
        }
    }
}

/// The message of an error: the offending text, followed by what is wrong with it.
pub open spec fn message(error: ErrorView) -> Seq<char> {
    match error {
        ErrorView::InvalidDoi(text) => text + " is not a valid DOI"@,
    }
}

impl Error {
    /// A short description of the kind of error, without the offending text.
    pub fn description(&self) -> (text: &'static str)
        ensures
            text@ == "invalid DOI"@,
    {
        match self {
            Error::InvalidDoi(_) => "invalid DOI",
        }
    }

    /// The message to show for this error.
    pub fn to_string(&self) -> (text: String)
        ensures
            text@ == message(self@),
    {
        match self {
            Error::InvalidDoi(offender) => {
                String::from_str(offender.as_str()).concat(" is not a valid DOI")
            },
        }
    }
}

impl Clone for Error {
    fn clone(&self) -> (copy: Error)
        ensures
            copy@ == self@,
    {
        match self {
            Error::InvalidDoi(offender) => Error::InvalidDoi(offender.clone()),
        }
    }
}

impl PartialEq for Error {
    fn eq(&self, other: &Error) -> (equal: bool) {
        match (self, other) {
            (Error::InvalidDoi(a), Error::InvalidDoi(b)) => *a == *b,
        }
    }
}

impl vstd::std_specs::cmp::PartialEqSpecImpl for Error {
    open spec fn obeys_eq_spec() -> bool {
        true
    }

    open spec fn eq_spec(&self, other: &Error) -> bool {
        self@ == other@
    }
}

} // verus!
