//! Patterns: named templates of cell offsets, and what stamping one onto a
//! grid does.
//!
//! Stamping toggles. Each offset of the pattern flips one cell, so an offset
//! listed twice leaves its cell as it was, and stamping the same pattern a
//! second time undoes the first.

use vstd::prelude::*;
use crate::grid::Grid;

verus! {

/// A position on a grid, or an offset between two positions: `x` counts
/// columns from the left edge, `y` counts rows from the top edge.
#[derive(Clone, Copy, Debug, PartialEq, Eq, Structural)]
pub struct Coord {
    pub x: usize,
    pub y: usize,
}

/// A named pattern: the offsets of its cells in order, and optionally the
/// anchor from which the offsets are taken. Without an anchor the offsets are
/// taken from the grid's origin.
#[derive(Debug, PartialEq, Eq)]
pub struct Spaceship {
    pub name: String,
    pub coords: Vec<Coord>,
    pub starting_coord: Option<Coord>,
}

/// Why a pattern cannot be stamped: the offset at `index`, the first such
/// one, would land outside the grid.
#[derive(Clone, Copy, Debug, PartialEq, Eq, Structural)]
pub struct OutOfBounds {
    pub index: usize,
}

impl Clone for Spaceship {
    fn clone(&self) -> (copy: Spaceship)
        ensures
            copy.name@ == self.name@,
            copy.coords@ == self.coords@,
            copy.starting_coord == self.starting_coord,
    {
        Spaceship {
            name: self.name.clone(),
            coords: self.coords.clone(),
            starting_coord: self.starting_coord,
        }
    }
}

impl Spaceship {
    /// The position from which the offsets are taken: the starting
    /// coordinate where the pattern has one, else the grid's origin.
    pub open spec fn spec_anchor(&self) -> Coord {
        match self.starting_coord {
            Some(c) => c,
            None => Coord { x: 0, y: 0 },
        }
    }

    /// The positions `(column, row)` that stamping this pattern toggles, in
    /// the order of its offsets: anchor plus offset, as unbounded integers.
    pub open spec fn targets(&self) -> Seq<(int, int)> {
        Seq::new(
            self.coords@.len(),
            |i: int| (self.anchor().x + self.coords@[i].x, self.anchor().y + self.coords@[i].y),
        )
    }

    /// The position from which the offsets are taken: the starting
    /// coordinate where the pattern has one, else the grid's origin.
    #[verifier::when_used_as_spec(spec_anchor)]
    pub fn anchor(&self) -> (c: Coord)
        ensures
            c == self.spec_anchor(),
    {
        match self.starting_coord {
            Some(c) => c,
            None => Coord { x: 0, y: 0 },
        }
    }
}

/// How many times `(column, row)` occurs among `targets`.
pub open spec fn hits(targets: Seq<(int, int)>, column: int, row: int) -> nat
    decreases targets.len(),
{
    if targets.len() == 0 {
        0
    } else {
        hits(targets.drop_last(), column, row) + if targets.last() == (column, row) {
            1nat
        } else {
            0nat
        }
    }
}

impl Grid {
    /// Every target is a position of this grid.
    pub open spec fn admits(self, targets: Seq<(int, int)>) -> bool {
        forall|i: int| 0 <= i < targets.len() ==> self.contains((#[trigger] targets[i]).0, targets[i].1)
    }

    /// This grid after each target has been toggled once per occurrence: a
    /// cell ends up flipped exactly when it is hit an odd number of times.
    pub open spec fn stamped(self, targets: Seq<(int, int)>) -> Grid {
        Grid {
            width: self.width,
            cells: Seq::new(
                self.height(),
                |row: int|
                    Seq::new(
                        self.width,
                        |column: int| self.cells[row][column] != (hits(targets, column, row) % 2 == 1),
                    ),
            ),
        }
    }
}

/// One more target adds one hit at its own position and none elsewhere.
pub proof fn lemma_hits_push(targets: Seq<(int, int)>, target: (int, int), column: int, row: int)
    ensures
        hits(targets.push(target), column, row) == hits(targets, column, row) + if target == (
            column,
            row,
        ) {
            1nat
        } else {
            0nat
        },
{
    assert(targets.push(target).drop_last() =~= targets);
}

/// Stamping nothing changes nothing.
pub proof fn lemma_stamped_empty(grid: Grid)
    requires
        grid.wf(),
    ensures
        grid.stamped(Seq::<(int, int)>::empty()) == grid,
{
    assert(grid.stamped(Seq::<(int, int)>::empty()) =~~= grid);
}

/// Stamping one more target is toggling its cell after the others have been
/// stamped.
pub proof fn lemma_stamped_push(grid: Grid, targets: Seq<(int, int)>, target: (int, int))
    requires
        grid.wf(),
        grid.contains(target.0, target.1),
    ensures
        grid.stamped(targets.push(target)) == grid.stamped(targets).toggled(target.0, target.1),
{
    let left = grid.stamped(targets.push(target));
    let right = grid.stamped(targets).toggled(target.0, target.1);
    assert forall|row: int, column: int|
        0 <= row < grid.height() && 0 <= column < grid.width implies left.cells[row][column]
        == right.cells[row][column] by {
        lemma_hits_push(targets, target, column, row);
    }
    assert(left =~~= right);
}

} // verus!
