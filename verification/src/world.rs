//! The engine: a grid held in memory, with the operations that read it,
//! edit it and advance it by one generation.

use vstd::prelude::*;
use crate::grid::Grid;
use crate::pattern::{lemma_stamped_empty, lemma_stamped_push, OutOfBounds, Spaceship};
use crate::render::row_glyphs;

verus! {

/// A world of cells of fixed width and height, together with the patterns
/// that have been added to it.
pub struct World {
    matrice: Vec<Vec<bool>>,
    width: usize,
    spaceships: Vec<Spaceship>,
}

impl View for World {
    type V = Grid;

    /// The grid this world holds.
    closed spec fn view(&self) -> Grid {
        Grid {
            width: self.width as nat,
            cells: Seq::new(
                self.matrice@.len(),
                |row: int| Seq::new(self.width as nat, |column: int| self.matrice@[row]@[column]),
            ),
        }
    }
}

impl World {
    #[verifier::type_invariant]
    spec fn rectangular(self) -> bool {
        forall|row: int|
            0 <= row < self.matrice@.len() ==> (#[trigger] self.matrice@[row])@.len() == self.width
    }

    /// The patterns added so far, oldest first.
    pub closed spec fn recorded(&self) -> Seq<Spaceship> {
        self.spaceships@
    }

    /// The grid of any world is well formed.
    pub proof fn lemma_view_wf(self)
        ensures
            self@.wf(),
    {
    }

    /// A world of `width` columns and `height` rows in which every cell is
    /// dead and to which no pattern has been added.
    pub fn new(width: usize, height: usize) -> (world: World)
        ensures
            world@ == Grid::dead(width as nat, height as nat),
            world.recorded() == Seq::<Spaceship>::empty(),
    {
        let world = World { matrice: vec![vec![false; width]; height], width, spaceships: vec![] };
        assert(world@ =~~= Grid::dead(width as nat, height as nat));
        world
    }

    /// The number of columns.
    pub fn width(&self) -> (width: usize)
        ensures
            width == self@.width,
    {
        self.width
    }

    /// The number of rows.
    pub fn height(&self) -> (height: usize)
        ensures
            height == self@.height(),
    {
        self.matrice.len()
    }

    /// Whether the cell at `column` of row `line` is alive.
    pub fn get_cel_value(&self, column: usize, line: usize) -> (value: bool)
        requires
            self@.contains(column as int, line as int),
        ensures
            value == self@.cells[line as int][column as int],
            value == self@.alive(column as int, line as int),
    {
        proof {
            use_type_invariant(self);
        }
        self.matrice[line][column]
    }

    /// Flips the cell at `column` of row `line`: a live cell dies, a dead one
    /// comes to life. Nothing else changes.
    pub fn set_cel_value(&mut self, column: usize, line: usize)
        requires
            old(self)@.contains(column as int, line as int),
        ensures
            final(self)@ == old(self)@.toggled(column as int, line as int),
            final(self).recorded() == old(self).recorded(),
    {
        proof {
            use_type_invariant(&*self);
        }
        let mut matrice: Vec<Vec<bool>> = Vec::new();
        std::mem::swap(&mut matrice, &mut self.matrice);
        let value = matrice[line][column];
        matrice[line][column] = !value;
        self.matrice = matrice;
        assert(self@ =~~= old(self)@.toggled(column as int, line as int));
    }

    /// The number of live cells among the up to eight positions around
    /// `column` of row `line`. The edges are hard: a position beyond an edge
    /// is skipped, the grid does not wrap around.
    pub fn get_amount_of_neighbours(&self, column: usize, line: usize) -> (count: u8)
        requires
            self@.contains(column as int, line as int),
        ensures
            count == self@.live_neighbours(column as int, line as int),
            count <= self@.neighbour_positions(column as int, line as int) <= 8,
    {
        let last_column: usize = self.width - 1;
        let last_line: usize = self.matrice.len() - 1;
        let mut neighbours_counter: u8 = 0;

        if line != 0 {
            if column != 0 && self.get_cel_value(column - 1, line - 1) {
                neighbours_counter += 1;
            }
            if self.get_cel_value(column, line - 1) {
                neighbours_counter += 1;
            }
            if column != last_column && self.get_cel_value(column + 1, line - 1) {
                neighbours_counter += 1;
            }
        }
        if column != 0 && self.get_cel_value(column - 1, line) {
            neighbours_counter += 1;
        }
        if column != last_column && self.get_cel_value(column + 1, line) {
            neighbours_counter += 1;
        }
        if line != last_line {
            if column != 0 && self.get_cel_value(column - 1, line + 1) {
                neighbours_counter += 1;
            }
            if self.get_cel_value(column, line + 1) {
                neighbours_counter += 1;
            }
            if column != last_column && self.get_cel_value(column + 1, line + 1) {
                neighbours_counter += 1;
            }
        }
        neighbours_counter
    }

    /// Whether the cell at `column` of row `line` changes state in the next
    /// generation: a live cell unless it has two or three live neighbours, a
    /// dead cell if it has exactly three.
    pub fn should_switch(&self, column: usize, line: usize) -> (switch: bool)
        requires
            self@.contains(column as int, line as int),
        ensures
            switch == (self@.next_state(column as int, line as int) != self@.alive(
                column as int,
                line as int,
            )),
    {
        match self.get_cel_value(column, line) {
            true => match self.get_amount_of_neighbours(column, line) {
                2 | 3 => false,
                _ => true,
            },
            false => match self.get_amount_of_neighbours(column, line) {
                3 => true,
                _ => false,
            },
        }
    }

    /// Advances the world by one generation. Every cell's next state is
    /// decided from the grid as it stood before the call; the new states are
    /// written into a fresh matrix of the same size, which then replaces the
    /// old one.
    pub fn goto_next_gen(&mut self)
        ensures
            final(self)@ == old(self)@.next_gen(),
            final(self).recorded() == old(self).recorded(),
    {
        let ghost before = self@;
        let height: usize = self.matrice.len();
        let width: usize = self.width;
        let mut new_matrice: Vec<Vec<bool>> = vec![vec![false; width]; height];

        let mut id_line: usize = 0;
        while id_line < height
            invariant
                id_line <= height,
                self@ == before,
                before.width == width,
                before.height() == height,
                new_matrice@.len() == height,
                forall|row: int| 0 <= row < height ==> (#[trigger] new_matrice@[row])@.len() == width,
                forall|row: int, column: int|
                    0 <= row < id_line && 0 <= column < width ==> (#[trigger] new_matrice@[row]@[column])
                        == before.next_state(column, row),
            decreases height - id_line,
        {
            let mut id_column: usize = 0;
            while id_column < width
                invariant
                    id_line < height,
                    id_column <= width,
                    self@ == before,
                    before.width == width,
                    before.height() == height,
                    new_matrice@.len() == height,
                    forall|row: int|
                        0 <= row < height ==> (#[trigger] new_matrice@[row])@.len() == width,
                    forall|row: int, column: int|
                        0 <= row < id_line && 0 <= column < width ==> (
                        #[trigger] new_matrice@[row]@[column]) == before.next_state(column, row),
                    forall|column: int|
                        0 <= column < id_column ==> (#[trigger] new_matrice@[id_line as int]@[column])
                            == before.next_state(column, id_line as int),
                decreases width - id_column,
            {
                let value = match self.should_switch(id_column, id_line) {
                    true => !self.get_cel_value(id_column, id_line),
                    false => self.get_cel_value(id_column, id_line),
                };
                new_matrice[id_line][id_column] = value;
                id_column += 1;
            }
            id_line += 1;
        }
        self.matrice = new_matrice;
        assert(self@ =~~= before.next_gen());
    }

    /// The world as text: for each row from the top, one glyph per cell from
    /// the left, followed by a line break. Nothing stands before the first
    /// row.
    pub fn display(&self) -> (map: String)
        ensures
            map@ == self@.rendered(),
    {
        let height: usize = self.matrice.len();
        let width: usize = self.width;
        let mut map = String::new();

        let mut line: usize = 0;
        while line < height
            invariant
                line <= height,
                self@.height() == height,
                self@.width == width,
                map@ == self@.rows_text(line as nat),
            decreases height - line,
        {
            let ghost row = row_glyphs(self@.cells[line as int]);
            assert(map@ =~= self@.rows_text(line as nat) + row.take(0));
            let mut column: usize = 0;
            while column < width
                invariant
                    line < height,
                    column <= width,
                    self@.height() == height,
                    self@.width == width,
                    row == row_glyphs(self@.cells[line as int]),
                    map@ == self@.rows_text(line as nat) + row.take(column as int),
                decreases width - column,
            {
                let cel_val = self.get_cel_value(column, line);
                map.append(
                    match cel_val {
                        false => "\u{2B1C}",
                        true => "\u{2B1B}",
                    },
                );
                proof {
                    reveal_strlit("\u{2B1C}");
                    reveal_strlit("\u{2B1B}");
                    assert(map@ =~= self@.rows_text(line as nat) + row.take(column + 1));
                }
                column += 1;
            }
            map.append("\n");
            proof {
                reveal_strlit("\n");
                assert(row.take(width as int) =~= row);
                assert(map@ =~= self@.rows_text((line + 1) as nat));
            }
            line += 1;
        }
        map
    }

    /// Whether every cell that `spaceship` would toggle lies on the grid. If
    /// not, the error names the first offset that falls outside.
    pub fn check_spaceship(&self, spaceship: &Spaceship) -> (outcome: Result<(), OutOfBounds>)
        ensures
            outcome is Ok <==> self@.admits(spaceship.targets()),
            outcome matches Err(e) ==> {
                &&& e.index < spaceship.targets().len()
                &&& !self@.contains(
                    spaceship.targets()[e.index as int].0,
                    spaceship.targets()[e.index as int].1,
                )
                &&& self@.admits(spaceship.targets().take(e.index as int))
            },
    {
        let anchor = spaceship.anchor();
        let height: usize = self.matrice.len();
        let width: usize = self.width;
        let ghost targets = spaceship.targets();
        let mut index: usize = 0;
        while index < spaceship.coords.len()
            invariant
                index <= spaceship.coords@.len(),
                targets == spaceship.targets(),
                anchor == spaceship.anchor(),
                self@.height() == height,
                self@.width == width,
                self@.admits(targets.take(index as int)),
            decreases spaceship.coords@.len() - index,
        {
            let coord = spaceship.coords[index];
            let column_fits = anchor.x < width && coord.x < width - anchor.x;
            let line_fits = anchor.y < height && coord.y < height - anchor.y;
            if !(column_fits && line_fits) {
                assert(!self@.contains(targets[index as int].0, targets[index as int].1));
                return Err(OutOfBounds { index });
            }
            assert(targets.take(index + 1) =~= targets.take(index as int).push(
                targets[index as int],
            ));
            index += 1;
        }
        assert(targets.take(index as int) =~= targets);
        Ok(())
    }

    /// Stamps `spaceship` onto the grid: each of its offsets, in order, flips
    /// the cell at anchor plus offset. A cell named an even number of times
    /// ends as it began; one named an odd number of times ends flipped.
    pub fn draw_spaceship(&mut self, spaceship: &Spaceship)
        requires
            old(self)@.admits(spaceship.targets()),
        ensures
            final(self)@ == old(self)@.stamped(spaceship.targets()),
            final(self).recorded() == old(self).recorded(),
    {
        let anchor = spaceship.anchor();
        let height: usize = self.matrice.len();
        let ghost before = self@;
        let ghost record = self.recorded();
        let ghost targets = spaceship.targets();
        proof {
            self.lemma_view_wf();
            lemma_stamped_empty(before);
            assert(targets.take(0) =~= Seq::<(int, int)>::empty());
        }
        let mut index: usize = 0;
        while index < spaceship.coords.len()
            invariant
                index <= spaceship.coords@.len(),
                targets == spaceship.targets(),
                anchor == spaceship.anchor(),
                before.wf(),
                before.height() == height,
                before.admits(targets),
                self@ == before.stamped(targets.take(index as int)),
                self.recorded() == record,
            decreases spaceship.coords@.len() - index,
        {
            let coord = spaceship.coords[index];
            proof {
                assert(before.contains(targets[index as int].0, targets[index as int].1));
                lemma_stamped_push(before, targets.take(index as int), targets[index as int]);
                assert(targets.take(index + 1) =~= targets.take(index as int).push(
                    targets[index as int],
                ));
            }
            self.set_cel_value(anchor.x + coord.x, anchor.y + coord.y);
            index += 1;
        }
        assert(targets.take(index as int) =~= targets);
    }

    /// Adds `spaceship` to the world: stamps it onto the grid, as
    /// `draw_spaceship` does, and records it. A pattern that does not fit is
    /// refused: the world stays as it was, and the error names the first
    /// offset that falls outside.
    pub fn add_spaceship(&mut self, spaceship: Spaceship) -> (outcome: Result<(), OutOfBounds>)
        ensures
            outcome is Ok <==> old(self)@.admits(spaceship.targets()),
            outcome is Ok ==> {
                &&& final(self)@ == old(self)@.stamped(spaceship.targets())
                &&& final(self).recorded() == old(self).recorded().push(spaceship)
            },
            outcome matches Err(e) ==> {
                &&& final(self)@ == old(self)@
                &&& final(self).recorded() == old(self).recorded()
                &&& e.index < spaceship.targets().len()
                &&& !old(self)@.contains(
                    spaceship.targets()[e.index as int].0,
                    spaceship.targets()[e.index as int].1,
                )
                &&& old(self)@.admits(spaceship.targets().take(e.index as int))
            },
    {
        match self.check_spaceship(&spaceship) {
            Ok(()) => {
                self.draw_spaceship(&spaceship);
                proof {
                    use_type_invariant(&*self);
                }
                let mut spaceships: Vec<Spaceship> = Vec::new();
                std::mem::swap(&mut spaceships, &mut self.spaceships);
                spaceships.push(spaceship);
                self.spaceships = spaceships;
                Ok(())
            },
            Err(outside) => Err(outside),
        }
    }

    /// The patterns added so far, oldest first.
    pub fn spaceships(&self) -> (list: &Vec<Spaceship>)
        ensures
            list@ == self.recorded(),
    {
        &self.spaceships
    }
}

} // verus!
