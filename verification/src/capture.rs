//! The captures of a match, and the text that a captured node covers.

use vstd::prelude::*;
use crate::span::{NodeSpan, QueryMatch};
use crate::text::{slice_text, text_slice};

verus! {

/// The capture at `index` of a match, where it has one.
pub open spec fn capture_at(captures: Seq<NodeSpan>, index: int) -> Option<NodeSpan> {
    if 0 <= index < captures.len() {
        Some(captures[index])
    } else {
        None
    }
}

/// The text that a node covers. `None` where the node's byte offsets cut no
/// piece out of `text`.
pub open spec fn span_text(text: Seq<char>, span: NodeSpan) -> Option<Seq<char>> {
    text_slice(text, span.start_byte as int, span.end_byte as int)
}

/// The text under the capture at `index` of a match. `None` where the match
/// has no capture at `index`, or where that capture covers no piece of
/// `text`.
pub open spec fn capture_text(text: Seq<char>, captures: Seq<NodeSpan>, index: int) -> Option<
    Seq<char>,
> {
    match capture_at(captures, index) {
        Some(span) => span_text(text, span),
        None => None,
    }
}

impl QueryMatch {
    /// The capture at `index`, where the match has one.
    pub fn capture(&self, index: usize) -> (span: Option<NodeSpan>)
        ensures
            span == capture_at(self@, index as int),
    {
        if index < self.captures.len() {
            Some(self.captures[index])
        } else {
            None
        }
    }
}

/// Reads the text that a node covers.
pub fn span_piece<'a>(text: &'a str, span: NodeSpan) -> (piece: Option<&'a str>)
    ensures
        match piece {
            Some(s) => span_text(text@, span) == Some(s@),
            None => span_text(text@, span) is None,
        },
{
    slice_text(text, span.start_byte, span.end_byte)
}

/// Reads the text under the capture at `index` of `found`.
pub fn capture_piece<'a>(text: &'a str, found: &QueryMatch, index: usize) -> (piece: Option<
    &'a str,
>)
    ensures
        match piece {
            Some(s) => capture_text(text@, found@, index as int) == Some(s@),
            None => capture_text(text@, found@, index as int) is None,
        },
{
    match found.capture(index) {
        Some(span) => span_piece(text, span),
        None => None,
    }
}

} // verus!
