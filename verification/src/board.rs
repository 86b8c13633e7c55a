use crate::error::BoardError;
use crate::grid::{
    draw_gives_life,
    glyph,
    lemma_index_in_bounds,
    lemma_index_round_trip,
    lemma_position_is_stored,
    Grid,
    ALIVE_GLYPH,
    DEAD_GLYPH,
};
use crate::trusted::{push_char, random_draw};
use vstd::prelude::*;

verus! {

/// Decides from a random draw whether a cell starts alive: it does when the
/// draw modulo 100 exceeds 50.
pub fn draw_is_alive(draw: usize) -> (alive: bool)
    ensures
        alive == draw_gives_life(draw),
    no_unwind
{
    draw % 100 > 50
}

/// A Game of Life board with two generation buffers.
///
/// Reads see the current generation; writes go to a scratch buffer and become
/// visible when they are committed. The view of a board is its [`Grid`], and
/// every board is well-formed in the sense of [`Grid::wf`].
///
/// A board is created unseeded. Seeding it means writing a first generation
/// into the scratch buffer, at random with [`Board::configure`] or cell by
/// cell with [`Board::set_new`], and committing it. From its first commit on
/// the board is ready; until then every operation that reads the current
/// generation fails with [`BoardError::NotReady`].
///
/// Coordinates count from 0. Row 0 and column 0 are a border that the game
/// itself never writes; the interior runs from `(1, 1)` to `(rows, cols)`.
/// A cell state is the number `0` (dead) or `1` (alive).
#[derive(Debug)]
pub struct Board {
    current: Vec<bool>,
    next: Vec<bool>,
    width: usize,
    height: usize,
    ready: bool,
}

/// The state of a cell as a number: `1` for alive, `0` for dead.
spec fn state(alive: bool) -> usize {
    if alive {
        1
    } else {
        0
    }
}

/// The states of a buffer of cells.
spec fn states(cells: Seq<bool>) -> Seq<usize> {
    cells.map_values(|alive: bool| state(alive))
}

impl View for Board {
    type V = Grid;

    closed spec fn view(&self) -> Grid {
        Grid {
            rows: (self.height - 1) as nat,
            cols: (self.width - 1) as nat,
            current: states(self.current@),
            next: states(self.next@),
            ready: self.ready,
        }
    }
}

impl Board {
    #[verifier::type_invariant]
    spec fn inv(self) -> bool {
        &&& self.width >= 2
        &&& self.height >= 2
        &&& self@.wf()
    }

    /// Creates a board with `rows` x `cols` interior cells, all of them dead,
    /// and nothing committed yet.
    ///
    /// Fails with `InvalidDimension` exactly when a dimension is zero or the
    /// padded storage of `(rows + 1) * (cols + 1)` cells cannot be addressed.
    pub fn new(rows: usize, cols: usize) -> (res: Result<Board, BoardError>)
        ensures
            res is Err <==> rows == 0 || cols == 0 || (rows + 1) * (cols + 1) > usize::MAX,
            res matches Err(e) ==> e == BoardError::InvalidDimension,
            res matches Ok(board) ==> board@ == Grid::blank(rows as nat, cols as nat) && board@.wf(),
    {
        if rows == 0 || cols == 0 {
            return Err(BoardError::InvalidDimension);
        }
        let height: usize = match rows.checked_add(1) {
            Some(h) => h,
            None => {
                assert((rows + 1) * (cols + 1) > usize::MAX) by (nonlinear_arith)
                    requires
                        rows + 1 > usize::MAX,
                        cols >= 1,
                ;
                return Err(BoardError::InvalidDimension);
            },
        };
        let width: usize = match cols.checked_add(1) {
            Some(w) => w,
            None => {
                assert((rows + 1) * (cols + 1) > usize::MAX) by (nonlinear_arith)
                    requires
                        cols + 1 > usize::MAX,
                        rows >= 1,
                ;
                return Err(BoardError::InvalidDimension);
            },
        };
        let size: usize = match height.checked_mul(width) {
            Some(s) => s,
            None => {
                return Err(BoardError::InvalidDimension);
            },
        };
        let board = Board {
            current: vec![false; size],
            next: vec![false; size],
            width,
            height,
            ready: false,
        };
        assert(board@.current =~= Grid::blank(rows as nat, cols as nat).current);
        assert(board@.next =~= Grid::blank(rows as nat, cols as nat).next);
        Ok(board)
    }

    /// Number of interior rows. Like the other two getters, this one also
    /// tells a verified caller that the board is well-formed.
    pub fn rows(&self) -> (rows: usize)
        ensures
            rows == self@.rows,
            self@.wf(),
        no_unwind
    {
        proof {
            use_type_invariant(self);
        }
        self.height - 1
    }

    /// Number of interior columns.
    pub fn cols(&self) -> (cols: usize)
        ensures
            cols == self@.cols,
            self@.wf(),
        no_unwind
    {
        proof {
            use_type_invariant(self);
        }
        self.width - 1
    }

    /// Whether a first generation has been committed.
    pub fn is_ready(&self) -> (ready: bool)
        ensures
            ready == self@.ready,
            self@.wf(),
        no_unwind
    {
        proof {
            use_type_invariant(self);
        }
        self.ready
    }

    /// Reads the cell `(row, col)` of the current generation.
    ///
    /// Fails with `NotReady` before the first commit, and otherwise with
    /// `OutOfRange` exactly when `row > rows + 1` or `col > cols + 1`. The
    /// cells just past the last row and the last column read as dead.
    pub fn get_old(&self, row: usize, col: usize) -> (res: Result<usize, BoardError>)
        ensures
            res == self@.read(row as int, col as int),
        no_unwind
    {
        proof {
            use_type_invariant(self);
        }
        if !self.ready {
            return Err(BoardError::NotReady);
        }
        if row > self.height || col > self.width {
            return Err(BoardError::OutOfRange);
        }
        Ok(self.peek(row, col))
    }

    /// Writes the cell state `val` to the cell `(row, col)` of the scratch
    /// buffer. A write to a cell that is not stored (`row > rows` or
    /// `col > cols`) is dropped without an error.
    pub fn set_new(&mut self, row: usize, col: usize, val: usize)
        requires
            val <= 1,
        ensures
            final(self)@ == old(self)@.with_pending(row as int, col as int, val),
            final(self)@.wf(),
        no_unwind
    {
        proof {
            use_type_invariant(&*self);
        }
        if row < self.height && col < self.width {
            proof {
                self.lemma_position(row, col);
            }
            let index: usize = self.width * row + col;
            self.next[index] = val == 1;
            assert(self@.next =~= old(self)@.next.update(index as int, val));
        }
    }

    /// Commits the scratch buffer: it becomes the current generation. The
    /// scratch buffer keeps its contents, and the board is ready afterwards.
    pub fn copy_board(&mut self)
        ensures
            final(self)@ == old(self)@.committed(),
            final(self)@.wf(),
        no_unwind
    {
        proof {
            use_type_invariant(&*self);
        }
        let size: usize = self.next.len();
        let mut i: usize = 0;
        while i < size
            invariant
                self.inv(),
                i <= size,
                size == self.next.len(),
                size == self.current.len(),
                self.next == old(self).next,
                self.width == old(self).width,
                self.height == old(self).height,
                self.ready == old(self).ready,
                forall|k: int| 0 <= k < i ==> self.current[k] == self.next[k],
            decreases size - i,
        {
            let alive: bool = self.next[i];
            self.current[i] = alive;
            i += 1;
        }
        self.ready = true;
        assert(self@.current =~= old(self)@.next);
    }

    /// Counts the live cells among the eight neighbours of `(row, col)` in
    /// the current generation.
    ///
    /// Fails with `NotReady` before the first commit, and otherwise with
    /// `OutOfRange` exactly when `(row, col)` is not an interior cell: all
    /// eight neighbours of an interior cell can be read, those of any other
    /// cell cannot.
    pub fn count_neighbors(&self, row: usize, col: usize) -> (res: Result<usize, BoardError>)
        ensures
            res == self@.count(row as int, col as int),
            res matches Ok(count) ==> count <= 8,
        no_unwind
    {
        proof {
            use_type_invariant(self);
        }
        if !self.ready {
            return Err(BoardError::NotReady);
        }
        if row == 0 || col == 0 || row >= self.height || col >= self.width {
            return Err(BoardError::OutOfRange);
        }
        Ok(self.neighbors(row, col))
    }

    /// Advances the board by one generation: computes the next state of
    /// every interior cell from the current generation into the scratch
    /// buffer, then commits it.
    ///
    /// Fails with `NotReady`, and changes nothing, before the first commit.
    pub fn evolve(&mut self) -> (res: Result<(), BoardError>)
        ensures
            res is Err <==> !old(self)@.ready,
            res matches Err(e) ==> e == BoardError::NotReady && final(self)@ == old(self)@,
            res is Ok ==> final(self)@ == old(self)@.stepped(),
            final(self)@.wf(),
        no_unwind
    {
        proof {
            use_type_invariant(&*self);
        }
        if !self.ready {
            return Err(BoardError::NotReady);
        }
        self.step();
        Ok(())
    }

    /// Seeds one cell from a random draw: the cell `(row, col)` of the
    /// scratch buffer becomes alive if the draw gives life, and is left as
    /// it is otherwise.
    pub fn seed_cell(&mut self, row: usize, col: usize, draw: usize)
        ensures
            final(self)@ == if draw_gives_life(draw) {
                old(self)@.with_pending(row as int, col as int, 1)
            } else {
                old(self)@
            },
            final(self)@.wf(),
        no_unwind
    {
        proof {
            use_type_invariant(&*self);
        }
        if draw_is_alive(draw) {
            self.set_new(row, col, 1);
        }
    }

    /// Seeds the board at random and commits the seed: one number is drawn
    /// for every interior cell, row by row, and the cell is seeded from it
    /// as [`Board::seed_cell`] does. On a new board this makes each interior
    /// cell alive with a chance of 49 in 100.
    ///
    /// Whatever is drawn, only interior cells of the scratch buffer change,
    /// and they change only from dead to alive. The generator is the only
    /// source of seeds: a board cannot be loaded from a file.
    pub fn configure(&mut self)
        ensures
            final(self)@.seeded_from(old(self)@),
            final(self)@.wf(),
    {
        proof {
            use_type_invariant(&*self);
        }
        let ghost before = self@;
        let height: usize = self.height;
        let width: usize = self.width;
        let mut row: usize = 1;
        while row < height
            invariant
                before.wf(),
                height == before.height(),
                width == before.width(),
                1 <= row <= height,
                self@.rows == before.rows,
                self@.cols == before.cols,
                self@.next.len() == before.next.len(),
                forall|i: int|
                    0 <= i < before.size() ==> #[trigger] self@.next[i] == before.next[i] || (
                    self@.next[i] == 1 && before.interior(before.row_of(i), before.col_of(i))),
            decreases height - row,
        {
            let mut col: usize = 1;
            while col < width
                invariant
                    before.wf(),
                    height == before.height(),
                    width == before.width(),
                    1 <= row < height,
                    1 <= col <= width,
                    self@.rows == before.rows,
                    self@.cols == before.cols,
                    self@.next.len() == before.next.len(),
                    forall|i: int|
                        0 <= i < before.size() ==> #[trigger] self@.next[i] == before.next[i] || (
                        self@.next[i] == 1 && before.interior(before.row_of(i), before.col_of(i))),
                decreases width - col,
            {
                let draw: usize = random_draw();
                proof {
                    lemma_index_in_bounds(before, row as int, col as int);
                    lemma_index_round_trip(before, row as int, col as int);
                }
                self.seed_cell(row, col, draw);
                col += 1;
            }
            row += 1;
        }
        self.copy_board();
    }

    /// Tells whether any cell of the current generation is alive: `false`
    /// exactly when every cell is dead.
    ///
    /// Fails with `NotReady` before the first commit.
    pub fn has_live_cells(&self) -> (res: Result<bool, BoardError>)
        ensures
            res is Err <==> !self@.ready,
            res matches Err(e) ==> e == BoardError::NotReady,
            res matches Ok(live) ==> live == self@.has_live(),
            res matches Ok(live) ==> !live == self@.all_dead(),
        no_unwind
    {
        if !self.ready {
            return Err(BoardError::NotReady);
        }
        Ok(self.any_live())
    }

    /// Renders one row of the current generation: one glyph for every
    /// interior column of the interior row `row`, counted from 1.
    ///
    /// Fails with `NotReady` before the first commit, and otherwise with
    /// `OutOfRange` exactly when `row` is not an interior row.
    pub fn render_row(&self, row: usize) -> (res: Result<Vec<char>, BoardError>)
        ensures
            !self@.ready ==> res == Err::<Vec<char>, BoardError>(BoardError::NotReady),
            self@.ready && !(1 <= row <= self@.rows) ==> res == Err::<Vec<char>, BoardError>(
                BoardError::OutOfRange,
            ),
            self@.ready && 1 <= row <= self@.rows ==> res is Ok,
            res matches Ok(line) ==> line@ == self@.rendered()[row - 1],
    {
        proof {
            use_type_invariant(self);
        }
        if !self.ready {
            return Err(BoardError::NotReady);
        }
        if row == 0 || row >= self.height {
            return Err(BoardError::OutOfRange);
        }
        Ok(self.line(row))
    }

    /// Renders the current generation: one row of glyphs for every interior
    /// row, from the first to the last, with one glyph for every interior
    /// column.
    ///
    /// Fails with `NotReady` before the first commit.
    pub fn render(&self) -> (res: Result<Vec<Vec<char>>, BoardError>)
        ensures
            res is Err <==> !self@.ready,
            res matches Err(e) ==> e == BoardError::NotReady,
            res matches Ok(rows) ==> rows.deep_view() == self@.rendered(),
    {
        proof {
            use_type_invariant(self);
        }
        if !self.ready {
            return Err(BoardError::NotReady);
        }
        let height: usize = self.height;
        let mut rows: Vec<Vec<char>> = Vec::new();
        let mut row: usize = 1;
        while row < height
            invariant
                height == self@.height(),
                1 <= row <= height,
                rows.len() == row - 1,
                forall|r: int| 0 <= r < rows.len() ==> #[trigger] rows[r]@ == self@.rendered()[r],
            decreases height - row,
        {
            let line: Vec<char> = self.line(row);
            rows.push(line);
            row += 1;
        }
        assert(rows.deep_view() =~~= self@.rendered());
        Ok(rows)
    }

    /// Renders the current generation as text: one line for every interior
    /// row, and in it one glyph for every interior column. Each glyph is
    /// followed by a space, each line is ended by a line feed.
    ///
    /// Fails with `NotReady` before the first commit.
    pub fn to_text(&self) -> (res: Result<String, BoardError>)
        ensures
            res is Err <==> !self@.ready,
            res matches Err(e) ==> e == BoardError::NotReady,
            res matches Ok(text) ==> text@ == self@.text(self@.rows),
    {
        proof {
            use_type_invariant(self);
        }
        if !self.ready {
            return Err(BoardError::NotReady);
        }
        let height: usize = self.height;
        let width: usize = self.width;
        let mut text: String = String::new();
        let mut row: usize = 1;
        while row < height
            invariant
                height == self@.height(),
                width == self@.width(),
                1 <= row <= height,
                text@ == self@.text((row - 1) as nat),
            decreases height - row,
        {
            let ghost above: Seq<char> = text@;
            let mut col: usize = 1;
            while col < width
                invariant
                    height == self@.height(),
                    width == self@.width(),
                    1 <= row < height,
                    1 <= col <= width,
                    text@ == above + self@.row_text(row as int, (col - 1) as nat),
                decreases width - col,
            {
                let cell: usize = self.peek(row, col);
                push_char(
                    &mut text,
                    if cell == 1 {
                        ALIVE_GLYPH
                    } else {
                        DEAD_GLYPH
                    },
                );
                push_char(&mut text, ' ');
                col += 1;
            }
            push_char(&mut text, '\n');
            row += 1;
        }
        Ok(text)
    }

    /// Reads a cell of the current generation that may be read.
    fn peek(&self, row: usize, col: usize) -> (cell: usize)
        requires
            self@.readable(row as int, col as int),
        ensures
            cell == self@.cell(row as int, col as int),
            cell <= 1,
        no_unwind
    {
        proof {
            use_type_invariant(self);
        }
        if row < self.height && col < self.width {
            proof {
                self.lemma_position(row, col);
            }
            if self.current[self.width * row + col] {
                1
            } else {
                0
            }
        } else {
            0
        }
    }

    /// Sums the eight cells around an interior cell.
    fn neighbors(&self, row: usize, col: usize) -> (count: usize)
        requires
            self@.interior(row as int, col as int),
        ensures
            count == self@.live_neighbors(row as int, col as int),
            count <= 8,
        no_unwind
    {
        proof {
            use_type_invariant(self);
        }
        let above: usize = row - 1;
        let below: usize = row + 1;
        let left: usize = col - 1;
        let right: usize = col + 1;
        self.peek(above, left) + self.peek(above, col) + self.peek(above, right) + self.peek(
            row,
            left,
        ) + self.peek(row, right) + self.peek(below, left) + self.peek(below, col) + self.peek(
            below,
            right,
        )
    }

    /// Computes the next generation of a ready board and commits it.
    pub(crate) fn step(&mut self)
        requires
            old(self)@.ready,
        ensures
            final(self)@ == old(self)@.stepped(),
            final(self)@.wf(),
        no_unwind
    {
        proof {
            use_type_invariant(&*self);
        }
        let ghost before = self@;
        let height: usize = self.height;
        let width: usize = self.width;
        let mut row: usize = 1;
        while row < height
            invariant
                before.wf(),
                height == before.height(),
                width == before.width(),
                1 <= row <= height,
                self@.rows == before.rows,
                self@.cols == before.cols,
                self@.ready == before.ready,
                self@.current == before.current,
                self@.next == partly_stepped(before, row as int, 1),
            decreases height - row,
        {
            let mut col: usize = 1;
            while col < width
                invariant
                    before.wf(),
                    height == before.height(),
                    width == before.width(),
                    1 <= row < height,
                    1 <= col <= width,
                    self@.rows == before.rows,
                    self@.cols == before.cols,
                    self@.ready == before.ready,
                    self@.current == before.current,
                    self@.next == partly_stepped(before, row as int, col as int),
                decreases width - col,
            {
                let neighbors: usize = self.neighbors(row, col);
                let cell: usize = self.peek(row, col);
                let alive: bool = (cell == 0 && neighbors == 3) || (cell == 1 && (neighbors == 2
                    || neighbors == 3));
                proof {
                    lemma_partly_stepped_advance(before, row as int, col as int);
                }
                if alive {
                    self.set_new(row, col, 1);
                } else {
                    self.set_new(row, col, 0);
                }
                col += 1;
            }
            row += 1;
        }
        proof {
            lemma_partly_stepped_end(before);
        }
        self.copy_board();
    }

    /// Looks for a live cell in the current generation.
    pub(crate) fn any_live(&self) -> (live: bool)
        ensures
            live == self@.has_live(),
            !live == self@.all_dead(),
        no_unwind
    {
        proof {
            use_type_invariant(self);
        }
        let size: usize = self.current.len();
        let mut i: usize = 0;
        while i < size
            invariant
                i <= size,
                size == self.current.len(),
                size == self@.size(),
                forall|k: int| 0 <= k < i ==> self@.current[k] == 0,
            decreases size - i,
        {
            if self.current[i] {
                assert(self@.current[i as int] == 1);
                return true;
            }
            i += 1;
        }
        false
    }

    /// The glyphs of one interior row.
    fn line(&self, row: usize) -> (line: Vec<char>)
        requires
            1 <= row <= self@.rows,
        ensures
            line@ == self@.rendered()[row - 1],
    {
        proof {
            use_type_invariant(self);
        }
        let width: usize = self.width;
        let mut line: Vec<char> = Vec::new();
        let mut col: usize = 1;
        while col < width
            invariant
                width == self@.width(),
                1 <= row <= self@.rows,
                1 <= col <= width,
                line.len() == col - 1,
                forall|c: int|
                    0 <= c < line.len() ==> #[trigger] line[c] == glyph(
                        self@.cell(row as int, c + 1),
                    ),
            decreases width - col,
        {
            let cell: usize = self.peek(row, col);
            line.push(
                if cell == 1 {
                    ALIVE_GLYPH
                } else {
                    DEAD_GLYPH
                },
            );
            col += 1;
        }
        line
    }

    /// The position of a stored cell, as the executable code computes it,
    /// is the one the model speaks of and lies inside the buffers.
    proof fn lemma_position(self, row: usize, col: usize)
        requires
            self.inv(),
            row < self.height,
            col < self.width,
        ensures
            self.width * row + col == self@.index(row as int, col as int),
            0 <= self.width * row + col < self.current.len(),
            self.current.len() == self.next.len(),
            self@.stored(row as int, col as int),
    {
        lemma_index_in_bounds(self@, row as int, col as int);
        assert(self.width * row == row * self.width) by (nonlinear_arith);
    }
}

/// The scratch buffer of `g` while a generation is being computed, when all
/// interior cells that come before `(row, col)` in row-major order have been
/// written.
spec fn partly_stepped(g: Grid, row: int, col: int) -> Seq<usize> {
    Seq::new(
        g.size(),
        |i: int|
            if g.interior(g.row_of(i), g.col_of(i)) && (g.row_of(i) < row || (g.row_of(i) == row
                && g.col_of(i) < col)) {
                g.next_cell(g.row_of(i), g.col_of(i))
            } else {
                g.next[i]
            },
    )
}

/// Writing the next state of `(row, col)` moves the computation of a
/// generation on by one cell.
proof fn lemma_partly_stepped_advance(g: Grid, row: int, col: int)
    requires
        g.wf(),
        g.interior(row, col),
    ensures
        partly_stepped(g, row, col).update(g.index(row, col), g.next_cell(row, col))
            == partly_stepped(g, row, col + 1),
{
    let index: int = g.index(row, col);
    lemma_index_in_bounds(g, row, col);
    lemma_index_round_trip(g, row, col);
    let written = partly_stepped(g, row, col).update(index, g.next_cell(row, col));
    let target = partly_stepped(g, row, col + 1);
    assert forall|i: int| 0 <= i < g.size() implies written[i] == target[i] by {
        if i != index {
            lemma_position_is_stored(g, i);
        }
    }
}

/// When all rows are done, the scratch buffer holds the new generation.
proof fn lemma_partly_stepped_end(g: Grid)
    requires
        g.wf(),
    ensures
        partly_stepped(g, g.height() as int, 1) == g.stepped_buffer(),
{
}

} // verus!
