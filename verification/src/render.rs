//! The text form of a grid.
//!
//! The rows come top row first, each row's cells left to right, one glyph per
//! cell. A row separator follows every row and nothing stands before the
//! first, so a grid of `h` rows and `w` columns renders as `h * (w + 1)`
//! characters, and a grid without rows as the empty text.

use vstd::prelude::*;
use crate::grid::Grid;

verus! {

/// The glyph of a dead cell: a white large square.
pub const DEAD_GLYPH: char = '\u{2B1C}';

/// The glyph of a live cell: a black large square.
pub const LIVE_GLYPH: char = '\u{2B1B}';

/// The character that ends every row.
pub const ROW_SEPARATOR: char = '\n';

/// The glyph that shows a cell in the given state.
pub open spec fn glyph(alive: bool) -> char {
    if alive {
        LIVE_GLYPH
    } else {
        DEAD_GLYPH
    }
}

/// The glyphs of one row, leftmost cell first.
pub open spec fn row_glyphs(row: Seq<bool>) -> Seq<char> {
    Seq::new(row.len(), |column: int| glyph(row[column]))
}

impl Grid {
    /// The text of the first `n` rows: for each row in turn, the row's
    /// glyphs and then a separator.
    pub open spec fn rows_text(self, n: nat) -> Seq<char>
        decreases n,
    {
        if n == 0 {
            Seq::empty()
        } else {
            self.rows_text((n - 1) as nat) + row_glyphs(self.cells[n - 1]) + seq![ROW_SEPARATOR]
        }
    }

    /// The text of the whole grid: the text of all its rows.
    pub open spec fn rendered(self) -> Seq<char> {
        self.rows_text(self.height())
    }
}

} // verus!
