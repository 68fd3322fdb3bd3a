//! The grid in which book cards are laid out.
use vstd::prelude::*;

verus! {

/// The width of a book card.
pub const ITEM_WIDTH: usize = 180;

/// The height of a book card.
pub const ITEM_HEIGHT: usize = 400;

/// The width that the cards can use: what the margin leaves of `width`, and
/// at least the width of one card.
pub open spec fn usable_width(width: int, margin: int) -> int {
    if width - margin >= ITEM_WIDTH as int {
        width - margin
    } else {
        ITEM_WIDTH as int
    }
}

/// The number of columns: one, and one more for each card and gap that fit
/// beside the first card.
pub open spec fn columns_of(width: int, margin: int, gap: int) -> int {
    (usable_width(width, margin) - ITEM_WIDTH) / (ITEM_WIDTH + gap) + 1
}

/// The space between two columns: what each column beside the first has of
/// the width beyond a card's, and nothing in a grid of one column.
pub open spec fn column_spacing_of(width: int, margin: int, gap: int) -> int {
    let beside = usable_width(width, margin) - ITEM_WIDTH;
    let more = beside / (ITEM_WIDTH + gap);
    if more == 0 {
        0
    } else if beside / more >= ITEM_WIDTH as int {
        beside / more - ITEM_WIDTH
    } else {
        0
    }
}

/// The columns of the grid and the space between them, for a view of the
/// given width, the margin around the grid and the smallest gap between two
/// cards.  The space is returned in sixteen bits, as the grid takes it.
pub fn grid_columns(width: usize, margin: u16, gap: u16) -> (grid: (usize, u16))
    ensures
        grid.0 == columns_of(width as int, margin as int, gap as int),
        grid.1 == column_spacing_of(width as int, margin as int, gap as int) as u16,
        grid.0 >= 1,
{
    let left: usize = if width >= margin as usize {
        width - margin as usize
    } else {
        0
    };
    let usable: usize = if left >= ITEM_WIDTH {
        left
    } else {
        ITEM_WIDTH
    };
    let beside: usize = usable - ITEM_WIDTH;
    let step: usize = ITEM_WIDTH + gap as usize;
    let more: usize = beside / step;
    assert(more <= beside) by (nonlinear_arith)
        requires
            more == beside / step,
            step >= 1,
    ;
    let columns: usize = more + 1;
    let spacing: usize = if more == 0 {
        0
    } else {
        let each: usize = beside / more;
        if each >= ITEM_WIDTH {
            each - ITEM_WIDTH
        } else {
            0
        }
    };
    (columns, #[verifier::truncate] (spacing as u16))
}

} // verus!
