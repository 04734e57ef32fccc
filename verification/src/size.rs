//! The size column: a byte count in decimal, right-aligned in five columns.

use crate::digits::{decimal, decimal_text, decimal_value, lemma_decimal_value};
use vstd::prelude::*;

verus! {

/// The least width of the size column.
pub const SIZE_WIDTH: usize = 5;

/// `count` spaces.
pub open spec fn spaces(count: nat) -> Seq<char> {
    Seq::new(count, |i: int| ' ')
}

/// `text` moved to the right edge of a column of `width` characters. A text
/// that is wider than the column is left as it is.
pub open spec fn pad_left(text: Seq<char>, width: nat) -> Seq<char> {
    if text.len() >= width {
        text
    } else {
        spaces((width - text.len()) as nat) + text
    }
}

/// The size column of an entry of `size` bytes.
pub open spec fn size_text(size: u64) -> Seq<char> {
    pad_left(decimal_text(size as nat), SIZE_WIDTH as nat)
}

/// Renders the size column: `size` in decimal behind as many spaces as it
/// takes to fill five columns, and behind none where it has five digits or
/// more.
pub fn size_field(size: u64) -> (text: String)
    ensures
        text@ == size_text(size),
        text@.len() >= SIZE_WIDTH,
{
    let digits = decimal(size);
    let width = digits.as_str().unicode_len();
    let mut text = String::new();
    let mut filled: usize = width;
    while filled < SIZE_WIDTH
        invariant
            width <= filled,
            filled <= SIZE_WIDTH || filled == width,
            text@ == spaces((filled - width) as nat),
        decreases SIZE_WIDTH - filled,
    {
        text.append(" ");
        proof {
            reveal_strlit(" ");
            assert(text@ =~= spaces((filled + 1 - width) as nat));
        }
        filled = filled + 1;
    }
    text.append(digits.as_str());
    proof {
        assert(text@ =~= size_text(size));
    }
    text
}

/// The size column is at least five characters wide. It ends in the digits of
/// the size and holds only spaces before them. A size of five digits or more
/// is shown by its digits alone, whatever their number: none is cut off.
pub proof fn lemma_size_text_layout(size: u64)
    ensures
        size_text(size).len() >= SIZE_WIDTH,
        size_text(size).len() >= decimal_text(size as nat).len(),
        decimal_text(size as nat).len() >= SIZE_WIDTH ==> size_text(size) == decimal_text(
            size as nat,
        ),
        decimal_text(size as nat).len() < SIZE_WIDTH ==> size_text(size).len() == SIZE_WIDTH,
        size_text(size).subrange(
            size_text(size).len() - decimal_text(size as nat).len(),
            size_text(size).len() as int,
        ) == decimal_text(size as nat),
        forall|i: int|
            0 <= i < size_text(size).len() - decimal_text(size as nat).len() ==> size_text(
                size,
            )[i] == ' ',
        decimal_value(decimal_text(size as nat)) == size,
{
    let digits = decimal_text(size as nat);
    let text = size_text(size);
    assert(text.subrange(text.len() - digits.len(), text.len() as int) =~= digits);
    lemma_decimal_value(size as nat);
}

} // verus!
