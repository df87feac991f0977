//! A library for extracting scholarly identifiers from text.
//!
//! A [`Doi`] is a Digital Object Identifier found in a piece of text by the DOI
//! pattern. `Doi::parse` builds one from the first match in a string, and
//! `Doi::extract` collects every match of a text from left to right.
//!
//! ```ignore
//! use identifiers::Doi;
//!
//! let doi = Doi::parse("10.1234/foobar").unwrap();
//! let dois = Doi::extract("This article has a DOI of 10.1234/foobar");
//! ```
//!
//! The searches are made by the `regex` crate, behind the module [`engine`]. What is
//! proved here is what the library does with what a search finds: which piece of the
//! text each DOI holds, in which order the DOIs come, and when parsing fails and with
//! which error.

pub mod doi;
pub mod engine;
pub mod error;
pub mod laws;
pub mod pattern;
pub mod pieces;
pub mod recognizer;
pub mod span;

pub use doi::Doi;
pub use error::Error;
pub use recognizer::Recognizer;
pub use span::Span;
