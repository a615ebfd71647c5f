//! Pieces of a document addressed by byte offsets.

use vstd::prelude::*;
use vstd::utf8::*;
use vstd::string::*;

verus! {

/// The characters that the bytes `start..end` of the UTF-8 form of `text`
/// spell, where both offsets lie in the text, in order, each at the start of a
/// character or at the end of the text. `None` for any other pair of offsets.
pub open spec fn text_slice(text: Seq<char>, start: int, end: int) -> Option<Seq<char>> {
    let bytes = encode_utf8(text);
    if 0 <= start <= end <= bytes.len() && is_char_boundary(bytes, start) && is_char_boundary(
        bytes,
        end,
    ) {
        Some(decode_utf8(bytes.subrange(start, end)))
    } else {
        None
    }
}

/// A character boundary of a text that lies in a prefix cut at another
/// boundary is a boundary of that prefix.
proof fn lemma_boundary_in_prefix(bytes: Seq<u8>, start: int, end: int)
    requires
        valid_utf8(bytes),
        0 <= start <= end <= bytes.len(),
        is_char_boundary(bytes, start),
        is_char_boundary(bytes, end),
    ensures
        valid_utf8(bytes.subrange(0, end)),
        is_char_boundary(bytes.subrange(0, end), start),
{
    let head = bytes.subrange(0, end);
    valid_utf8_split(bytes, end);
    if start == end {
        is_char_boundary_start_end_of_seq(head);
    } else if start > 0 {
        is_char_boundary_iff_not_is_continuation_byte(bytes, start);
        is_char_boundary_iff_not_is_continuation_byte(head, start);
    }
}

/// Cuts the piece between two byte offsets out of `text`.
pub fn slice_text<'a>(text: &'a str, start: usize, end: usize) -> (piece: Option<&'a str>)
    ensures
        match piece {
            Some(s) => text_slice(text@, start as int, end as int) == Some(s@),
            None => text_slice(text@, start as int, end as int) is None,
        },
{
    proof {
        encode_utf8_valid_utf8(text@);
    }
    if start <= end && text.is_char_boundary(start) && text.is_char_boundary(end) {
        let ghost bytes = encode_utf8(text@);
        proof {
            lemma_boundary_in_prefix(bytes, start as int, end as int);
        }
        let (head, _) = text.split_at(end);
        let (_, piece) = head.split_at(start);
        proof {
            assert(piece.spec_bytes() =~= bytes.subrange(start as int, end as int));
            encode_utf8_decode_utf8(piece@);
        }
        Some(piece)
    } else {
        None
    }
}

/// Whether two texts hold the same characters.
pub fn same_text(a: &str, b: &str) -> (same: bool)
    ensures
        same == (a@ == b@),
{
    let x = a.as_bytes();
    let y = b.as_bytes();
    proof {
        encode_utf8_decode_utf8(a@);
        encode_utf8_decode_utf8(b@);
    }
    if x.len() != y.len() {
        return false;
    }
    let mut i: usize = 0;
    while i < x.len()
        invariant
            i <= x.len(),
            x.len() == y.len(),
            x@ == encode_utf8(a@),
            y@ == encode_utf8(b@),
            forall|k: int| 0 <= k < i ==> x@[k] == y@[k],
        decreases x.len() - i,
    {
        if x[i] != y[i] {
            return false;
        }
        i += 1;
    }
    proof {
        assert(x@ =~= y@);
    }
    true
}

} // verus!
