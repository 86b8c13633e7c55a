use crate::error::BoardError;
use crate::grid::{lemma_index_in_bounds, lemma_index_round_trip, Grid};
use crate::simulation::{Action, Run};
use vstd::prelude::*;

verus! {

/// A blank grid is well-formed, not ready, and dead everywhere.
pub proof fn law_blank_is_valid(rows: nat, cols: nat)
    requires
        rows >= 1,
        cols >= 1,
    ensures
        Grid::blank(rows, cols).wf(),
        Grid::blank(rows, cols).border_dead(),
        Grid::blank(rows, cols).all_dead(),
        !Grid::blank(rows, cols).ready,
{
}

/// Constructing a grid and seeding it at random gives a ready grid in
/// which every interior cell is dead or alive and every border cell is dead.
pub proof fn law_fresh_seed_is_valid(rows: nat, cols: nat, seeded: Grid)
    requires
        rows >= 1,
        cols >= 1,
        seeded.seeded_from(Grid::blank(rows, cols)),
    ensures
        seeded.wf(),
        seeded.ready,
        seeded.border_dead(),
        forall|row: int, col: int|
            seeded.interior(row, col) ==> seeded.cell(row, col) == 0 || seeded.cell(row, col) == 1,
        forall|row: int, col: int|
            seeded.stored(row, col) && !seeded.interior(row, col) ==> seeded.cell(row, col) == 0,
{
    assert forall|row: int, col: int|
        seeded.stored(row, col) && !seeded.interior(row, col) implies seeded.cell(row, col)
        == 0 by {
        lemma_index_in_bounds(seeded, row, col);
        lemma_index_round_trip(seeded, row, col);
    }
    assert forall|row: int, col: int| seeded.interior(row, col) implies seeded.cell(row, col) == 0
        || seeded.cell(row, col) == 1 by {
        lemma_index_in_bounds(seeded, row, col);
    }
}

/// Seeding keeps a grid well-formed, and keeps its border dead.
pub proof fn law_seed_keeps_valid(before: Grid, seeded: Grid)
    requires
        before.wf(),
        seeded.seeded_from(before),
    ensures
        seeded.wf(),
        before.border_dead() ==> seeded.border_dead(),
{
}

/// A write keeps a grid well-formed. It keeps the border dead unless it
/// makes a border cell alive.
pub proof fn law_write_keeps_valid(g: Grid, row: int, col: int, val: usize)
    requires
        g.wf(),
        val <= 1,
    ensures
        g.with_pending(row, col, val).wf(),
        g.border_dead() && (val == 0 || g.interior(row, col) || !g.stored(row, col))
            ==> g.with_pending(row, col, val).border_dead(),
{
    if g.stored(row, col) {
        lemma_index_in_bounds(g, row, col);
        lemma_index_round_trip(g, row, col);
    }
}

/// A commit keeps a grid well-formed and its border dead, and makes it ready.
pub proof fn law_commit_keeps_valid(g: Grid)
    requires
        g.wf(),
    ensures
        g.committed().wf(),
        g.committed().ready,
        g.border_dead() ==> g.committed().border_dead(),
{
}

/// A commit is idempotent: a second commit with no write in between changes
/// nothing.
pub proof fn law_commit_is_idempotent(g: Grid)
    ensures
        g.committed().committed() == g.committed(),
{
}

/// A generation keeps a grid well-formed and its border dead, and leaves
/// the two buffers equal.
pub proof fn law_step_keeps_valid(g: Grid)
    requires
        g.wf(),
    ensures
        g.stepped().wf(),
        g.stepped().ready == g.ready,
        g.stepped().current == g.stepped().next,
        g.border_dead() ==> g.stepped().border_dead(),
{
}

/// One generation, cell by cell: an interior cell follows the rule, applied
/// to the generation before; any other stored cell takes what the scratch
/// buffer held.
pub proof fn law_step_cell(g: Grid, row: int, col: int)
    requires
        g.wf(),
        g.stored(row, col),
    ensures
        g.interior(row, col) ==> g.stepped().cell(row, col) == g.next_cell(row, col),
        !g.interior(row, col) ==> g.stepped().cell(row, col) == g.pending(row, col),
{
    lemma_index_in_bounds(g, row, col);
    lemma_index_round_trip(g, row, col);
}

/// A generation is a function of the current generation: two grids of the
/// same shape that agree on it agree on every interior cell one generation
/// later, and agree on the whole new generation exactly when their scratch
/// buffers agree outside the interior, as they do whenever both borders are
/// dead.
pub proof fn law_step_depends_on_current(a: Grid, b: Grid)
    requires
        a.wf(),
        b.wf(),
        a.rows == b.rows,
        a.cols == b.cols,
        a.current == b.current,
    ensures
        forall|row: int, col: int|
            a.interior(row, col) ==> a.stepped().cell(row, col) == b.stepped().cell(row, col),
        a.stepped().current == b.stepped().current <==> (forall|i: int|
            0 <= i < a.size() && !a.interior(a.row_of(i), a.col_of(i)) ==> a.next[i] == b.next[i]),
        a.border_dead() && b.border_dead() ==> a.stepped().current == b.stepped().current,
{
    assert forall|row: int, col: int| a.interior(row, col) implies a.stepped().cell(row, col)
        == b.stepped().cell(row, col) by {
        law_step_cell(a, row, col);
        law_step_cell(b, row, col);
    }
    let agree = forall|i: int|
        0 <= i < a.size() && !a.interior(a.row_of(i), a.col_of(i)) ==> a.next[i] == b.next[i];
    if agree {
        assert(a.stepped().current =~= b.stepped().current);
    }
    if a.stepped().current == b.stepped().current {
        assert forall|i: int|
            0 <= i < a.size() && !a.interior(a.row_of(i), a.col_of(i)) implies a.next[i]
            == b.next[i] by {
            assert(b.stepped().current[i] == b.next[i]);
        }
    }
}

/// Two generations in a row, with no write in between: the second one is
/// determined by the generation that the first one produced.
pub proof fn law_second_step_is_determined(a: Grid, b: Grid)
    requires
        a.wf(),
        b.wf(),
        a.rows == b.rows,
        a.cols == b.cols,
        a.stepped().current == b.stepped().current,
    ensures
        a.stepped().stepped().current == b.stepped().stepped().current,
{
}

/// A committed write can be read back: after a write to a stored cell and a
/// commit, a read of that cell yields the value written. A write to a cell
/// that is not stored changes nothing, before or after a commit.
pub proof fn law_write_commit_read(g: Grid, row: int, col: int, val: usize)
    requires
        g.wf(),
        val <= 1,
    ensures
        g.stored(row, col) ==> g.with_pending(row, col, val).committed().read(row, col) == Ok::<
            usize,
            BoardError,
        >(val),
        !g.stored(row, col) ==> g.with_pending(row, col, val) == g,
        !g.stored(row, col) ==> g.with_pending(row, col, val).committed() == g.committed(),
{
    if g.stored(row, col) {
        lemma_index_in_bounds(g, row, col);
    }
}

/// A committed write leaves every other stored cell as the scratch buffer
/// had it.
pub proof fn law_write_is_local(g: Grid, row: int, col: int, val: usize, r: int, c: int)
    requires
        g.wf(),
        g.stored(r, c),
        (r, c) != (row, col),
    ensures
        g.with_pending(row, col, val).committed().cell(r, c) == g.pending(r, c),
{
    if g.stored(row, col) {
        lemma_index_round_trip(g, row, col);
        lemma_index_round_trip(g, r, c);
        lemma_index_in_bounds(g, r, c);
        lemma_index_in_bounds(g, row, col);
    }
}

/// A grid has a live cell exactly when not all of its cells are dead.
pub proof fn law_live_or_all_dead(g: Grid)
    requires
        g.wf(),
    ensures
        g.has_live() <==> !g.all_dead(),
{
}

/// Counting around an interior cell reads no cell that cannot be read: on a
/// ready grid it succeeds for every interior cell, and the count lies
/// between 0 and 8.
pub proof fn law_count_succeeds_in_interior(g: Grid, row: int, col: int)
    requires
        g.wf(),
        g.interior(row, col),
    ensures
        forall|r: int, c: int|
            row - 1 <= r <= row + 1 && col - 1 <= c <= col + 1 ==> g.readable(r, c),
        0 <= g.live_neighbors(row, col) <= 8,
        g.count(row, col) is Ok <==> g.ready,
{
    assert forall|r: int, c: int| g.cell(r, c) <= 1 by {
        if g.stored(r, c) {
            lemma_index_in_bounds(g, r, c);
        }
    }
}

/// With a dead border, every cell outside the interior reads as dead, so
/// only interior neighbours add to a count. Around the corner `(1, 1)`
/// these are the three cells `(1, 2)`, `(2, 1)` and `(2, 2)`.
pub proof fn law_border_adds_nothing(g: Grid)
    requires
        g.wf(),
        g.border_dead(),
    ensures
        forall|r: int, c: int| !g.interior(r, c) ==> g.cell(r, c) == 0,
        g.live_neighbors(1, 1) == g.cell(1, 2) + g.cell(2, 1) + g.cell(2, 2),
{
    assert forall|r: int, c: int| !g.interior(r, c) implies g.cell(r, c) == 0 by {
        if g.stored(r, c) {
            lemma_index_in_bounds(g, r, c);
            lemma_index_round_trip(g, r, c);
        }
    }
}

/// A run of zero generations is over at once: it shows no frame and does
/// not touch the grid.
pub proof fn law_empty_run_shows_nothing(grid: Grid)
    ensures
        Run::start(grid, 0).action() == Action::Finished,
        Run::start(grid, 0).advanced().grid == grid,
        Run::start(grid, 0).advanced().shown == 0,
        Run::start(grid, 0).advanced().halted,
{
}

/// A run stays well-formed, never shows more generations than it may, and
/// labels the frames it shows 1, 2, 3 and so on.
pub proof fn law_run_counts_its_frames(run: Run)
    requires
        run.wf(),
        run.generations <= usize::MAX,
    ensures
        run.advanced().wf(),
        run.advanced().generations == run.generations,
        run.advanced().shown <= run.generations,
        run.action() matches Action::Render(label) ==> label == run.shown + 1
            && run.advanced().shown == label,
        !(run.action() is Render) ==> run.advanced().shown == run.shown && run.advanced().halted,
        run.halted ==> run.advanced() == run,
{
}

} // verus!
