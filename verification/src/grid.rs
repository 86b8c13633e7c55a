use crate::error::BoardError;
use vstd::arithmetic::div_mod::{
    lemma_fundamental_div_mod,
    lemma_fundamental_div_mod_converse,
};
use vstd::prelude::*;

verus! {

/// Glyph shown for a live cell.
pub const ALIVE_GLYPH: char = '\u{1F60E}';

/// Glyph shown for a dead cell.
pub const DEAD_GLYPH: char = '\u{1F480}';

/// The survival rule: a dead cell with exactly three live neighbours is
/// born, a live cell with two or three live neighbours stays alive, and
/// every other cell is dead in the next generation.
pub open spec fn rule(cell: usize, neighbors: int) -> usize {
    if (cell == 0 && neighbors == 3) || (cell == 1 && (neighbors == 2 || neighbors == 3)) {
        1
    } else {
        0
    }
}

/// Whether a random draw makes a cell alive: its last two decimal digits
/// must exceed 50, which 49 of the 100 possible endings do.
pub open spec fn draw_gives_life(draw: usize) -> bool {
    draw % 100 > 50
}

/// The glyph that stands for a cell state on a display.
pub open spec fn glyph(cell: usize) -> char {
    if cell == 1 {
        ALIVE_GLYPH
    } else {
        DEAD_GLYPH
    }
}

/// The mathematical model of a board.
///
/// Cells are stored row by row, with one extra row and one extra column
/// (row 0 and column 0) in front of the `rows` x `cols` interior, so both
/// buffers hold `(rows + 1) * (cols + 1)` cells. A cell is `0` (dead) or
/// `1` (alive).
pub struct Grid {
    /// Number of interior rows.
    pub rows: nat,
    /// Number of interior columns.
    pub cols: nat,
    /// The generation that reads see.
    pub current: Seq<usize>,
    /// The scratch buffer that writes go to until they are committed.
    pub next: Seq<usize>,
    /// Whether a first generation has been committed.
    pub ready: bool,
}

impl Grid {
    /// Number of stored columns, the border column included.
    pub open spec fn width(self) -> nat {
        self.cols + 1
    }

    /// Number of stored rows, the border row included.
    pub open spec fn height(self) -> nat {
        self.rows + 1
    }

    /// Number of cells in each buffer.
    pub open spec fn size(self) -> nat {
        self.height() * self.width()
    }

    /// Position of the cell `(row, col)` in a buffer.
    pub open spec fn index(self, row: int, col: int) -> int {
        row * self.width() + col
    }

    /// Row of the cell stored at position `i`.
    pub open spec fn row_of(self, i: int) -> int {
        i / (self.width() as int)
    }

    /// Column of the cell stored at position `i`.
    pub open spec fn col_of(self, i: int) -> int {
        i % (self.width() as int)
    }

    /// The cell `(row, col)` has a place in the buffers.
    pub open spec fn stored(self, row: int, col: int) -> bool {
        0 <= row <= self.rows && 0 <= col <= self.cols
    }

    /// The cell `(row, col)` belongs to the `rows` x `cols` interior.
    pub open spec fn interior(self, row: int, col: int) -> bool {
        1 <= row <= self.rows && 1 <= col <= self.cols
    }

    /// The cell `(row, col)` can be read: it is stored, or it lies on the
    /// ring of dead cells just past the last row and the last column.
    pub open spec fn readable(self, row: int, col: int) -> bool {
        0 <= row <= self.rows + 1 && 0 <= col <= self.cols + 1
    }

    /// Well-formedness: at least one interior cell, buffers of the right
    /// size, and nothing but dead and alive cells in them.
    pub open spec fn wf(self) -> bool {
        &&& self.rows >= 1
        &&& self.cols >= 1
        &&& self.current.len() == self.size()
        &&& self.next.len() == self.size()
        &&& forall|i: int| 0 <= i < self.size() ==> self.current[i] <= 1
        &&& forall|i: int| 0 <= i < self.size() ==> self.next[i] <= 1
    }

    /// The board right after construction: every cell dead, nothing committed.
    pub open spec fn blank(rows: nat, cols: nat) -> Grid {
        let size = (rows + 1) * (cols + 1);
        Grid {
            rows,
            cols,
            current: Seq::new(size, |i: int| 0usize),
            next: Seq::new(size, |i: int| 0usize),
            ready: false,
        }
    }

    /// State of the cell `(row, col)` in the current generation. Cells
    /// without a place in the buffer are dead.
    pub open spec fn cell(self, row: int, col: int) -> usize {
        if self.stored(row, col) {
            self.current[self.index(row, col)]
        } else {
            0
        }
    }

    /// State of the cell `(row, col)` in the scratch buffer.
    pub open spec fn pending(self, row: int, col: int) -> usize {
        if self.stored(row, col) {
            self.next[self.index(row, col)]
        } else {
            0
        }
    }

    /// Row 0 and column 0 are dead in both buffers.
    pub open spec fn border_dead(self) -> bool {
        &&& forall|i: int|
            0 <= i < self.size() && !self.interior(self.row_of(i), self.col_of(i))
                ==> self.current[i] == 0
        &&& forall|i: int|
            0 <= i < self.size() && !self.interior(self.row_of(i), self.col_of(i))
                ==> self.next[i] == 0
    }

    /// Some cell of the current generation is alive.
    pub open spec fn has_live(self) -> bool {
        exists|i: int| 0 <= i < self.size() && self.current[i] == 1
    }

    /// Every cell of the current generation is dead.
    pub open spec fn all_dead(self) -> bool {
        forall|i: int| 0 <= i < self.size() ==> self.current[i] == 0
    }

    /// What a read of `(row, col)` yields.
    pub open spec fn read(self, row: int, col: int) -> Result<usize, BoardError> {
        if !self.ready {
            Err(BoardError::NotReady)
        } else if !self.readable(row, col) {
            Err(BoardError::OutOfRange)
        } else {
            Ok(self.cell(row, col))
        }
    }

    /// Number of live cells among the eight cells around `(row, col)`.
    pub open spec fn live_neighbors(self, row: int, col: int) -> int {
        self.cell(row - 1, col - 1) + self.cell(row - 1, col) + self.cell(row - 1, col + 1)
            + self.cell(row, col - 1) + self.cell(row, col + 1) + self.cell(row + 1, col - 1)
            + self.cell(row + 1, col) + self.cell(row + 1, col + 1)
    }

    /// What counting the live neighbours of `(row, col)` yields. The count
    /// reads all eight neighbours, so it is defined for interior cells only.
    pub open spec fn count(self, row: int, col: int) -> Result<usize, BoardError> {
        if !self.ready {
            Err(BoardError::NotReady)
        } else if !self.interior(row, col) {
            Err(BoardError::OutOfRange)
        } else {
            Ok(self.live_neighbors(row, col) as usize)
        }
    }

    /// State of the cell `(row, col)` one generation later.
    pub open spec fn next_cell(self, row: int, col: int) -> usize {
        rule(self.cell(row, col), self.live_neighbors(row, col))
    }

    /// The grid after a write of `val` to `(row, col)`: the write lands in
    /// the scratch buffer if the cell is stored and is dropped otherwise.
    pub open spec fn with_pending(self, row: int, col: int, val: usize) -> Grid {
        if self.stored(row, col) {
            Grid { next: self.next.update(self.index(row, col), val), ..self }
        } else {
            self
        }
    }

    /// The grid after a commit: the scratch buffer becomes the current
    /// generation, and the grid is ready from then on.
    pub open spec fn committed(self) -> Grid {
        Grid { current: self.next, ready: true, ..self }
    }

    /// The buffer that one generation produces: every interior cell follows
    /// the rule, applied to the current generation; the other cells are
    /// those of the scratch buffer.
    pub open spec fn stepped_buffer(self) -> Seq<usize> {
        Seq::new(
            self.size(),
            |i: int|
                if self.interior(self.row_of(i), self.col_of(i)) {
                    self.next_cell(self.row_of(i), self.col_of(i))
                } else {
                    self.next[i]
                },
        )
    }

    /// The grid one generation later: both buffers hold the new generation.
    pub open spec fn stepped(self) -> Grid {
        Grid { current: self.stepped_buffer(), next: self.stepped_buffer(), ..self }
    }

    /// `self` may come out of a random seeding of `before`: every interior
    /// cell of the scratch buffer was made alive or left as it was, no other
    /// cell was touched, and the result was committed.
    pub open spec fn seeded_from(self, before: Grid) -> bool {
        &&& self.rows == before.rows
        &&& self.cols == before.cols
        &&& self.ready
        &&& self.current == self.next
        &&& self.next.len() == before.next.len()
        &&& forall|i: int|
            0 <= i < self.size() ==> #[trigger] self.next[i] == before.next[i] || (self.next[i] == 1
                && self.interior(self.row_of(i), self.col_of(i)))
    }

    /// The text of the cells `1` to `upto` of the row `row`: each glyph is
    /// followed by a space.
    pub open spec fn row_text(self, row: int, upto: nat) -> Seq<char>
        decreases upto,
    {
        if upto == 0 {
            Seq::empty()
        } else {
            self.row_text(row, (upto - 1) as nat).push(glyph(self.cell(row, upto as int))).push(' ')
        }
    }

    /// The text of the rows `1` to `upto`: the text of each row is followed
    /// by a line feed.
    pub open spec fn text(self, upto: nat) -> Seq<char>
        decreases upto,
    {
        if upto == 0 {
            Seq::empty()
        } else {
            self.text((upto - 1) as nat) + self.row_text(upto as int, self.cols).push('\n')
        }
    }

    /// The display rows: one row of glyphs for each interior row, one glyph
    /// for each interior column.
    pub open spec fn rendered(self) -> Seq<Seq<char>> {
        Seq::new(
            self.rows,
            |r: int| Seq::new(self.cols, |c: int| glyph(self.cell(r + 1, c + 1))),
        )
    }
}

/// A stored cell has a position inside the buffers.
pub proof fn lemma_index_in_bounds(g: Grid, row: int, col: int)
    requires
        g.stored(row, col),
    ensures
        0 <= g.index(row, col) < g.size(),
{
    assert(0 <= row * g.width() <= g.rows * g.width()) by (nonlinear_arith)
        requires
            0 <= row <= g.rows,
            g.width() >= 1,
    ;
    assert(g.size() == g.rows * g.width() + g.width()) by (nonlinear_arith)
        requires
            g.size() == (g.rows + 1) * g.width(),
    ;
}

/// The position of a stored cell gives back its row and its column.
pub proof fn lemma_index_round_trip(g: Grid, row: int, col: int)
    requires
        g.stored(row, col),
    ensures
        g.row_of(g.index(row, col)) == row,
        g.col_of(g.index(row, col)) == col,
{
    lemma_fundamental_div_mod_converse(g.index(row, col), g.width() as int, row, col);
}

/// Every position inside the buffers is that of exactly one stored cell.
pub proof fn lemma_position_is_stored(g: Grid, i: int)
    requires
        0 <= i < g.size(),
    ensures
        g.stored(g.row_of(i), g.col_of(i)),
        g.index(g.row_of(i), g.col_of(i)) == i,
{
    let w: int = g.width() as int;
    let q: int = i / w;
    lemma_fundamental_div_mod(i, w);
    assert(0 <= q <= g.rows) by (nonlinear_arith)
        requires
            0 <= i < (g.rows + 1) * w,
            i == q * w + i % w,
            0 <= i % w < w,
    ;
}

} // verus!
