//! Positions and extents of syntax nodes, held as plain numbers.

use vstd::prelude::*;

verus! {

/// A zero-based row and column in a document.
#[derive(Clone, Copy, Debug, PartialEq, Eq, Structural)]
pub struct Point {
    pub row: usize,
    pub column: usize,
}

/// The extent of one syntax node: its byte offsets in the document and the
/// positions of its first character and of the character after its last.
#[derive(Clone, Copy, Debug, PartialEq, Eq, Structural)]
pub struct NodeSpan {
    pub start_byte: usize,
    pub end_byte: usize,
    pub start: Point,
    pub end: Point,
}

impl NodeSpan {
    /// The span with the given byte offsets and positions.
    pub fn new(
        start_byte: usize,
        end_byte: usize,
        start_row: usize,
        start_column: usize,
        end_row: usize,
        end_column: usize,
    ) -> (span: NodeSpan)
        ensures
            span == (NodeSpan {
                start_byte,
                end_byte,
                start: Point { row: start_row, column: start_column },
                end: Point { row: end_row, column: end_column },
            }),
    {
        NodeSpan {
            start_byte,
            end_byte,
            start: Point { row: start_row, column: start_column },
            end: Point { row: end_row, column: end_column },
        }
    }
}

/// One match of a pattern: the spans of its captured nodes, in the order in
/// which the pattern declares the captures.
#[derive(Clone, Debug)]
pub struct QueryMatch {
    pub captures: Vec<NodeSpan>,
}

impl View for QueryMatch {
    type V = Seq<NodeSpan>;

    open spec fn view(&self) -> Seq<NodeSpan> {
        self.captures@
    }
}

/// Whether every number of a span fits in 32 bits.
pub open spec fn fits_32_bits(span: NodeSpan) -> bool {
    &&& span.start_byte <= u32::MAX
    &&& span.end_byte <= u32::MAX
    &&& span.start.row <= u32::MAX
    &&& span.start.column <= u32::MAX
    &&& span.end.row <= u32::MAX
    &&& span.end.column <= u32::MAX
}

/// Whether every capture of every match of a list fits in 32 bits.
pub open spec fn all_fit_32_bits(matches: Seq<Seq<NodeSpan>>) -> bool {
    forall|i: int, j: int|
        0 <= i < matches.len() && 0 <= j < matches[i].len() ==> fits_32_bits(
            #[trigger] matches[i][j],
        )
}

/// The captures of each match of a list, in the list's order.
pub open spec fn match_views(matches: Seq<QueryMatch>) -> Seq<Seq<NodeSpan>> {
    Seq::new(matches.len(), |i: int| matches[i]@)
}

} // verus!
