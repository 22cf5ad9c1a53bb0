//! The mathematical model of a grid and of one generation step.
//!
//! A [`Grid`] is a rectangle of cells, each alive or dead. Its edges are hard:
//! a position outside the rectangle holds no cell, and counts as dead wherever
//! neighbours are counted. Nothing wraps around.

use vstd::prelude::*;

verus! {

/// A rectangle of cells: `cells[row][column]` is `true` for a live cell.
/// Row 0 is the top row, column 0 the leftmost column.
#[verifier::ext_equal]
pub struct Grid {
    pub width: nat,
    pub cells: Seq<Seq<bool>>,
}

impl Grid {
    /// The number of rows.
    pub open spec fn height(self) -> nat {
        self.cells.len()
    }

    /// Every row holds exactly `width` cells.
    pub open spec fn wf(self) -> bool {
        forall|row: int| 0 <= row < self.cells.len() ==> (#[trigger] self.cells[row]).len() == self.width
    }

    /// The grid of the given size in which every cell is dead.
    pub open spec fn dead(width: nat, height: nat) -> Grid {
        Grid { width, cells: Seq::new(height, |row: int| Seq::new(width, |column: int| false)) }
    }

    /// Whether `(column, row)` is a position of this grid.
    pub open spec fn contains(self, column: int, row: int) -> bool {
        0 <= column < self.width && 0 <= row < self.height()
    }

    /// Whether a live cell stands at `(column, row)`. A position outside the
    /// grid holds no cell, so nothing is alive there.
    pub open spec fn alive(self, column: int, row: int) -> bool {
        self.contains(column, row) && self.cells[row][column]
    }

    /// 1 where a live cell stands at `(column, row)`, else 0.
    pub open spec fn live(self, column: int, row: int) -> nat {
        if self.alive(column, row) {
            1
        } else {
            0
        }
    }

    /// How many of the eight positions around `(column, row)` hold a live
    /// cell. Positions beyond an edge contribute nothing.
    pub open spec fn live_neighbours(self, column: int, row: int) -> nat {
        self.live(column - 1, row - 1) + self.live(column, row - 1) + self.live(column + 1, row - 1)
            + self.live(column - 1, row) + self.live(column + 1, row)
            + self.live(column - 1, row + 1) + self.live(column, row + 1)
            + self.live(column + 1, row + 1)
    }

    /// The state of the cell at `(column, row)` one generation later: a live
    /// cell survives with two or three live neighbours, a dead cell comes to
    /// life with exactly three.
    pub open spec fn next_state(self, column: int, row: int) -> bool {
        let n = self.live_neighbours(column, row);
        if self.alive(column, row) {
            n == 2 || n == 3
        } else {
            n == 3
        }
    }

    /// The next generation: every cell takes its `next_state`, all of them
    /// computed from this grid.
    pub open spec fn next_gen(self) -> Grid {
        Grid {
            width: self.width,
            cells: Seq::new(
                self.height(),
                |row: int| Seq::new(self.width, |column: int| self.next_state(column, row)),
            ),
        }
    }

    /// This grid with the cell at `(column, row)` flipped.
    pub open spec fn toggled(self, column: int, row: int) -> Grid
        recommends
            self.contains(column, row),
    {
        Grid {
            width: self.width,
            cells: self.cells.update(row, self.cells[row].update(column, !self.cells[row][column])),
        }
    }

    /// 1 where `(column, row)` is a position of this grid, else 0.
    pub open spec fn position(self, column: int, row: int) -> nat {
        if self.contains(column, row) {
            1
        } else {
            0
        }
    }

    /// How many of the eight positions around `(column, row)` lie on the
    /// grid: the most live neighbours the cell there can have.
    pub open spec fn neighbour_positions(self, column: int, row: int) -> nat {
        self.position(column - 1, row - 1) + self.position(column, row - 1) + self.position(
            column + 1,
            row - 1,
        ) + self.position(column - 1, row) + self.position(column + 1, row) + self.position(
            column - 1,
            row + 1,
        ) + self.position(column, row + 1) + self.position(column + 1, row + 1)
    }

    /// `column` is the leftmost or the rightmost column.
    pub open spec fn on_side_edge(self, column: int) -> bool {
        column == 0 || column == self.width - 1
    }

    /// `row` is the top or the bottom row.
    pub open spec fn on_end_edge(self, row: int) -> bool {
        row == 0 || row == self.height() - 1
    }

    /// `(column, row)` is one of the corner cells.
    pub open spec fn is_corner(self, column: int, row: int) -> bool {
        self.contains(column, row) && self.on_side_edge(column) && self.on_end_edge(row)
    }

    /// `(column, row)` lies on an edge, but in no corner.
    pub open spec fn is_edge(self, column: int, row: int) -> bool {
        self.contains(column, row) && (self.on_side_edge(column) != self.on_end_edge(row))
    }

    /// `(column, row)` is a cell that touches no edge.
    pub open spec fn is_interior(self, column: int, row: int) -> bool {
        self.contains(column, row) && !self.on_side_edge(column) && !self.on_end_edge(row)
    }

    /// Every cell of the grid is alive.
    pub open spec fn all_alive(self) -> bool {
        forall|column: int, row: int|
            self.contains(column, row) ==> #[trigger] self.cells[row][column]
    }

    /// The live cells are exactly those of the rectangle of columns `left`
    /// to `right` and rows `top` to `bottom`, bounds included.
    pub open spec fn alive_exactly_in(self, left: int, top: int, right: int, bottom: int) -> bool {
        forall|column: int, row: int|
            self.contains(column, row) ==> (#[trigger] self.cells[row][column] <==> (left <= column
                <= right && top <= row <= bottom))
    }
}

} // verus!
