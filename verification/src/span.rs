//! Byte spans of a text, and the piece of text that a span covers.
//!
//! A text is modelled as a `Seq<char>`. A span addresses it by byte offsets into
//! its UTF-8 encoding, as a search engine reports them.

use vstd::prelude::*;
use vstd::string::StringSliceAdditionalSpecFns;
use vstd::utf8::*;

verus! {

/// A half-open range of byte offsets, `start..end`, into the UTF-8 encoding of a text.
#[derive(Clone, Copy, Debug, PartialEq, Eq, Structural)]
pub struct Span {
    pub start: usize,
    pub end: usize,
}

/// The span lies within `text`, and both of its ends fall between two characters.
pub open spec fn valid_span(text: Seq<char>, span: Span) -> bool {
    &&& span.start <= span.end <= encode_utf8(text).len()
    &&& is_char_boundary(encode_utf8(text), span.start as int)
    &&& is_char_boundary(encode_utf8(text), span.end as int)
}

/// Every span is valid for `text`, and each one ends before the next one starts.
pub open spec fn valid_spans(text: Seq<char>, spans: Seq<Span>) -> bool {
    &&& forall|i: int| 0 <= i < spans.len() ==> valid_span(text, #[trigger] spans[i])
    &&& forall|i: int, j: int|
        0 <= i < j < spans.len() ==> (#[trigger] spans[i]).end <= (#[trigger] spans[j]).start
}

/// The characters of `text` whose encoding occupies the bytes `span.start..span.end`.
///
/// For a valid span they are a contiguous run of the characters of `text`; in a text
/// of ASCII characters they are the characters `span.start..span.end`.
pub open spec fn span_text(text: Seq<char>, span: Span) -> Seq<char> {
    decode_utf8(encode_utf8(text).subrange(span.start as int, span.end as int))
}

/// The text of each span of a sequence, in the same order.
pub open spec fn texts_at(text: Seq<char>, spans: Seq<Span>) -> Seq<Seq<char>> {
    Seq::new(spans.len(), |i: int| span_text(text, spans[i]))
}

/// The first span of a sequence of spans, if there is one.
pub open spec fn first_span(spans: Seq<Span>) -> Option<Span> {
    if spans.len() > 0 {
        Some(spans[0])
    } else {
        None
    }
}

/// The number of characters of `text` that are encoded before byte `offset`.
pub open spec fn char_offset(text: Seq<char>, offset: int) -> int {
    decode_utf8(encode_utf8(text).subrange(0, offset)).len() as int
}

/// A character boundary of a byte sequence is also one of each prefix that reaches it.
pub proof fn lemma_boundary_in_prefix(bytes: Seq<u8>, index: int, end: int)
    requires
        valid_utf8(bytes),
        0 <= index <= end <= bytes.len(),
        is_char_boundary(bytes, index),
        is_char_boundary(bytes, end),
    ensures
        valid_utf8(bytes.subrange(0, end)),
        is_char_boundary(bytes.subrange(0, end), index),
{
    let prefix = bytes.subrange(0, end);
    valid_utf8_split(bytes, end);
    if index == end {
        is_char_boundary_start_end_of_seq(prefix);
    } else {
        is_char_boundary_iff_not_is_continuation_byte(bytes, index);
        is_char_boundary_iff_not_is_continuation_byte(prefix, index);
    }
}

/// Read in characters, the text of a valid span is a contiguous piece of the text:
/// the characters from `char_offset(text, span.start)` up to `char_offset(text, span.end)`.
pub proof fn lemma_span_text_is_subrange(text: Seq<char>, span: Span)
    requires
        valid_span(text, span),
    ensures
        0 <= char_offset(text, span.start as int) <= char_offset(text, span.end as int)
            <= text.len(),
        span_text(text, span) == text.subrange(
            char_offset(text, span.start as int),
            char_offset(text, span.end as int),
        ),
{
    let bytes = encode_utf8(text);
    let start = span.start as int;
    let end = span.end as int;
    let head = bytes.subrange(0, end);
    encode_utf8_valid_utf8(text);
    encode_utf8_decode_utf8(text);
    lemma_boundary_in_prefix(bytes, start, end);
    decode_utf8_split(bytes, end);
    decode_utf8_split(head, start);
    assert(head.subrange(0, start) =~= bytes.subrange(0, start));
    assert(head.subrange(start, head.len() as int) =~= bytes.subrange(start, end));
    let before = decode_utf8(bytes.subrange(0, start));
    let middle = decode_utf8(bytes.subrange(start, end));
    let after = decode_utf8(bytes.subrange(end, bytes.len() as int));
    assert(decode_utf8(head) =~= before + middle);
    assert(text =~= before + middle + after);
    assert(middle =~= text.subrange(before.len() as int, (before.len() + middle.len()) as int));
}

/// Cuts the piece that `span` covers out of `text`.
pub fn slice<'a>(text: &'a str, span: Span) -> (piece: &'a str)
    requires
        valid_span(text@, span),
    ensures
        piece@ == span_text(text@, span),
{
    proof {
        encode_utf8_valid_utf8(text@);
        lemma_boundary_in_prefix(text.spec_bytes(), span.start as int, span.end as int);
    }
    let (head, _) = text.split_at(span.end);
    let (_, piece) = head.split_at(span.start);
    proof {
        assert(piece.spec_bytes() =~= text.spec_bytes().subrange(
            span.start as int,
            span.end as int,
        ));
        encode_utf8_decode_utf8(piece@);
    }
    piece
}

} // verus!
