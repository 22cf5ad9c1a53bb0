//! What holds of every grid: the properties of the model that users of the
//! engine can rely on, each proved from the definitions.

use vstd::prelude::*;
use crate::grid::Grid;
use crate::render::{glyph, ROW_SEPARATOR};

verus! {

/// The next generation has the size of the grid it came from, and is well
/// formed.
pub proof fn law_next_gen_keeps_shape(grid: Grid)
    ensures
        grid.next_gen().width == grid.width,
        grid.next_gen().height() == grid.height(),
        grid.next_gen().wf(),
{
}

/// A live cell with exactly two or three live neighbours is alive in the
/// next generation; with any other count it is dead.
pub proof fn law_live_cell(grid: Grid, column: int, row: int)
    requires
        grid.alive(column, row),
    ensures
        grid.next_gen().alive(column, row) <==> (grid.live_neighbours(column, row) == 2
            || grid.live_neighbours(column, row) == 3),
{
}

/// A dead cell with exactly three live neighbours is alive in the next
/// generation; with any other count it stays dead.
pub proof fn law_dead_cell(grid: Grid, column: int, row: int)
    requires
        grid.contains(column, row),
        !grid.alive(column, row),
    ensures
        grid.next_gen().alive(column, row) <==> grid.live_neighbours(column, row) == 3,
{
}

/// A cell never has more live neighbours than it has neighbouring positions,
/// and never more than eight.
pub proof fn law_neighbours_bounded(grid: Grid, column: int, row: int)
    ensures
        grid.live_neighbours(column, row) <= grid.neighbour_positions(column, row) <= 8,
{
}

/// A corner cell has at most three neighbouring positions, and exactly
/// three once the grid has two rows and two columns.
pub proof fn law_corner_positions(grid: Grid, column: int, row: int)
    requires
        grid.is_corner(column, row),
    ensures
        grid.neighbour_positions(column, row) <= 3,
        grid.live_neighbours(column, row) <= 3,
        grid.width >= 2 && grid.height() >= 2 ==> grid.neighbour_positions(column, row) == 3,
{
}

/// A cell on an edge but in no corner has at most five neighbouring
/// positions, and exactly five once the grid has two rows and two columns.
pub proof fn law_edge_positions(grid: Grid, column: int, row: int)
    requires
        grid.is_edge(column, row),
    ensures
        grid.neighbour_positions(column, row) <= 5,
        grid.live_neighbours(column, row) <= 5,
        grid.width >= 2 && grid.height() >= 2 ==> grid.neighbour_positions(column, row) == 5,
{
}

/// A cell that touches no edge has exactly eight neighbouring positions.
pub proof fn law_interior_positions(grid: Grid, column: int, row: int)
    requires
        grid.is_interior(column, row),
    ensures
        grid.neighbour_positions(column, row) == 8,
{
}

/// Where every cell is alive, a cell has as many live neighbours as it has
/// neighbouring positions.
pub proof fn law_all_alive_counts_positions(grid: Grid, column: int, row: int)
    requires
        grid.wf(),
        grid.all_alive(),
    ensures
        grid.live_neighbours(column, row) == grid.neighbour_positions(column, row),
{
    assert forall|x: int, y: int| grid.live(x, y) == grid.position(x, y) by {
        if grid.contains(x, y) {
            assert(grid.cells[y][x]);
        }
    }
}

/// A block, two by two live cells with every other cell dead, is a still
/// life: the next generation is the same grid. This holds wherever the block
/// stands, also against an edge.
pub proof fn law_block_is_still(grid: Grid, column: int, row: int)
    requires
        grid.wf(),
        grid.contains(column, row),
        grid.contains(column + 1, row + 1),
        grid.alive_exactly_in(column, row, column + 1, row + 1),
    ensures
        grid.next_gen() == grid,
{
    assert forall|x: int, y: int| grid.contains(x, y) implies grid.next_state(x, y)
        == grid.cells[y][x] by {
        lemma_live_in_rectangle(grid, column, row, column + 1, row + 1, x, y);
    }
    assert(grid.next_gen() =~~= grid);
}

/// A row of three live cells with every other cell dead, and with a free
/// row above and below it, becomes a column of three through the same
/// middle cell.
pub proof fn law_blinker_turns_upright(grid: Grid, column: int, row: int)
    requires
        grid.wf(),
        grid.contains(column - 1, row - 1),
        grid.contains(column + 1, row + 1),
        grid.alive_exactly_in(column - 1, row, column + 1, row),
    ensures
        grid.next_gen().alive_exactly_in(column, row - 1, column, row + 1),
{
    assert forall|x: int, y: int| grid.contains(x, y) implies (grid.next_state(x, y) <==> (x
        == column && row - 1 <= y <= row + 1)) by {
        lemma_live_in_rectangle(grid, column - 1, row, column + 1, row, x, y);
    }
}

/// A column of three live cells with every other cell dead, and with a free
/// column on either side, becomes a row of three through the same middle
/// cell.
pub proof fn law_blinker_turns_flat(grid: Grid, column: int, row: int)
    requires
        grid.wf(),
        grid.contains(column - 1, row - 1),
        grid.contains(column + 1, row + 1),
        grid.alive_exactly_in(column, row - 1, column, row + 1),
    ensures
        grid.next_gen().alive_exactly_in(column - 1, row, column + 1, row),
{
    assert forall|x: int, y: int| grid.contains(x, y) implies (grid.next_state(x, y) <==> (y
        == row && column - 1 <= x <= column + 1)) by {
        lemma_live_in_rectangle(grid, column, row - 1, column, row + 1, x, y);
    }
}

/// The blinker has period two: a row of three live cells with every other
/// cell dead, and with a free row above and below it, is back after two
/// generations.
pub proof fn law_blinker_period_two(grid: Grid, column: int, row: int)
    requires
        grid.wf(),
        grid.contains(column - 1, row - 1),
        grid.contains(column + 1, row + 1),
        grid.alive_exactly_in(column - 1, row, column + 1, row),
    ensures
        grid.next_gen().next_gen() == grid,
        grid.next_gen() != grid,
{
    let upright = grid.next_gen();
    law_blinker_turns_upright(grid, column, row);
    law_blinker_turns_flat(upright, column, row);
    let back = upright.next_gen();
    assert forall|x: int, y: int| grid.contains(x, y) implies back.cells[y][x]
        == grid.cells[y][x] by {
        assert(back.contains(x, y));
    }
    assert(back =~~= grid);
    assert(upright.cells[row - 1][column]);
    assert(!grid.cells[row - 1][column]);
}

/// Stamping the same targets a second time undoes the first stamping.
pub proof fn law_stamp_twice_restores(grid: Grid, targets: Seq<(int, int)>)
    requires
        grid.wf(),
    ensures
        grid.stamped(targets).stamped(targets) == grid,
{
    assert(grid.stamped(targets).stamped(targets) =~~= grid);
}

/// Toggling the same cell a second time undoes the first toggle.
pub proof fn law_toggle_twice_restores(grid: Grid, column: int, row: int)
    requires
        grid.wf(),
        grid.contains(column, row),
    ensures
        grid.toggled(column, row).toggled(column, row) == grid,
{
    assert(grid.toggled(column, row).toggled(column, row) =~~= grid);
}

/// The text of a grid of `h` rows and `w` columns has `h * (w + 1)`
/// characters.
pub proof fn law_rendered_len(grid: Grid)
    requires
        grid.wf(),
    ensures
        grid.rendered().len() == grid.height() * (grid.width + 1),
{
    lemma_rows_text_len(grid, grid.height());
}

/// A row separator ends each row of the text: it stands at index
/// `row * (w + 1) + w` for every row of the grid, and the last character of
/// the text is the separator of the bottom row.
pub proof fn law_rendered_separator(grid: Grid, row: int)
    requires
        grid.wf(),
        0 <= row < grid.height(),
    ensures
        0 <= row * (grid.width + 1) + grid.width < grid.rendered().len(),
        grid.rendered()[row * (grid.width + 1) + grid.width] == ROW_SEPARATOR,
        row == grid.height() - 1 ==> row * (grid.width + 1) + grid.width == grid.rendered().len()
            - 1,
{
    lemma_rows_text_len(grid, grid.height());
    lemma_rows_text_at(grid, grid.height(), row, 0);
    assert((row + 1) * (grid.width + 1) == row * (grid.width + 1) + (grid.width + 1))
        by (nonlinear_arith);
}

/// The text lists the rows from the top and each row's cells from the left:
/// the glyph of the cell at `(column, row)` stands at index
/// `row * (w + 1) + column`, so the text begins with the glyph of the top
/// left cell.
pub proof fn law_rendered_glyph(grid: Grid, column: int, row: int)
    requires
        grid.wf(),
        grid.contains(column, row),
    ensures
        0 <= row * (grid.width + 1) + column < grid.rendered().len() - 1,
        grid.rendered()[row * (grid.width + 1) + column] == glyph(grid.cells[row][column]),
{
    lemma_rows_text_len(grid, grid.height());
    lemma_rows_text_at(grid, grid.height(), row, column);
}

/// The length of the text of the first `n` rows.
proof fn lemma_rows_text_len(grid: Grid, n: nat)
    requires
        grid.wf(),
        n <= grid.height(),
    ensures
        grid.rows_text(n).len() == n * (grid.width + 1),
    decreases n,
{
    if n > 0 {
        let m = (n - 1) as nat;
        lemma_rows_text_len(grid, m);
        assert(n * (grid.width + 1) == m * (grid.width + 1) + (grid.width + 1))
            by (nonlinear_arith)
            requires
                n == m + 1,
        ;
    }
}

/// What stands in the text of the first `n` rows where the cell at `column`
/// of row `row` is shown, and where that row ends.
proof fn lemma_rows_text_at(grid: Grid, n: nat, row: int, column: int)
    requires
        grid.wf(),
        n <= grid.height(),
        0 <= row < n,
        0 <= column <= grid.width,
    ensures
        0 <= row * (grid.width + 1),
        row * (grid.width + 1) + grid.width < grid.rows_text(n).len(),
        grid.rows_text(n)[row * (grid.width + 1) + grid.width] == ROW_SEPARATOR,
        column < grid.width ==> grid.rows_text(n)[row * (grid.width + 1) + column] == glyph(
            grid.cells[row][column],
        ),
    decreases n,
{
    let stride = grid.width + 1;
    let m = (n - 1) as nat;
    lemma_rows_text_len(grid, m);
    lemma_rows_text_len(grid, n);
    assert(n * stride == m * stride + stride) by (nonlinear_arith)
        requires
            n == m + 1,
    ;
    if row < m {
        lemma_rows_text_at(grid, m, row, column);
    } else {
        assert(row * stride == m * stride);
    }
}

/// In a grid whose live cells are exactly those of a rectangle, a position
/// holds a live cell exactly when it lies in the rectangle.
proof fn lemma_live_in_rectangle(
    grid: Grid,
    left: int,
    top: int,
    right: int,
    bottom: int,
    x: int,
    y: int,
)
    requires
        grid.wf(),
        grid.contains(left, top),
        grid.contains(right, bottom),
        grid.alive_exactly_in(left, top, right, bottom),
    ensures
        forall|dx: int, dy: int|
            -1 <= dx <= 1 && -1 <= dy <= 1 ==> (#[trigger] grid.alive(x + dx, y + dy) <==> (left
                <= x + dx <= right && top <= y + dy <= bottom)),
{
    assert forall|dx: int, dy: int| -1 <= dx <= 1 && -1 <= dy <= 1 implies (#[trigger] grid.alive(
        x + dx,
        y + dy,
    ) <==> (left <= x + dx <= right && top <= y + dy <= bottom)) by {
        if grid.contains(x + dx, y + dy) {
            let cell = grid.cells[y + dy][x + dx];
        }
    }
}

} // verus!
