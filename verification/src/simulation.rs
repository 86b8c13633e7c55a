use crate::board::Board;
use crate::error::BoardError;
use crate::grid::Grid;
use vstd::prelude::*;

verus! {

/// What the driver of a run has to do next.
#[derive(Debug, Clone, Copy, PartialEq, Eq, Structural)]
pub enum Action {
    /// Show the board under the given generation label, then pause.
    Render(usize),
    /// Report that no live cell is left, then stop.
    Extinct,
    /// Stop: the run is over.
    Finished,
}

/// The mathematical model of a run.
pub struct Run {
    /// The grid of the run.
    pub grid: Grid,
    /// How many generations the run may show.
    pub generations: nat,
    /// How many generations have been shown.
    pub shown: nat,
    /// Whether the run is over.
    pub halted: bool,
}

impl Run {
    /// A run at its start.
    pub open spec fn start(grid: Grid, generations: nat) -> Run {
        Run { grid, generations, shown: 0, halted: false }
    }

    /// Well-formedness: a well-formed, ready grid, and no more generations
    /// shown than the run may show.
    pub open spec fn wf(self) -> bool {
        &&& self.grid.wf()
        &&& self.grid.ready
        &&& self.shown <= self.generations
    }

    /// The next action of the run.
    ///
    /// Before the first frame, the run shows generation 1 if it may show
    /// any. After a frame it stops if no cell is alive; otherwise the grid
    /// moves on by one generation, which is shown if the run may show
    /// another one. A run that has stopped stays stopped.
    pub open spec fn action(self) -> Action {
        if self.halted {
            Action::Finished
        } else if self.shown == 0 {
            if self.generations == 0 {
                Action::Finished
            } else {
                Action::Render(1)
            }
        } else if !self.grid.has_live() {
            Action::Extinct
        } else if self.shown < self.generations {
            Action::Render((self.shown + 1) as usize)
        } else {
            Action::Finished
        }
    }

    /// The run after its next action.
    pub open spec fn advanced(self) -> Run {
        if self.halted {
            self
        } else if self.shown == 0 {
            if self.generations == 0 {
                Run { halted: true, ..self }
            } else {
                Run { shown: 1, ..self }
            }
        } else if !self.grid.has_live() {
            Run { halted: true, ..self }
        } else if self.shown < self.generations {
            Run { grid: self.grid.stepped(), shown: self.shown + 1, ..self }
        } else {
            Run { grid: self.grid.stepped(), halted: true, ..self }
        }
    }
}

/// A bounded run of the game: a board, and the count of generations shown.
///
/// The run does not display anything and does not wait. It tells its driver
/// what to do next, and moves the board on between two frames.
#[derive(Debug)]
pub struct Simulation {
    board: Board,
    generations: usize,
    shown: usize,
    halted: bool,
}

impl View for Simulation {
    type V = Run;

    closed spec fn view(&self) -> Run {
        Run {
            grid: self.board@,
            generations: self.generations as nat,
            shown: self.shown as nat,
            halted: self.halted,
        }
    }
}

impl Simulation {
    #[verifier::type_invariant]
    spec fn inv(self) -> bool {
        self@.wf()
    }

    /// Starts a run of at most `generations` generations on a new board of
    /// `rows` x `cols` interior cells, seeded at random.
    ///
    /// Fails with `InvalidDimension` exactly when the board cannot be
    /// constructed.
    pub fn new(generations: usize, rows: usize, cols: usize) -> (res: Result<
        Simulation,
        BoardError,
    >)
        ensures
            res is Err <==> rows == 0 || cols == 0 || (rows + 1) * (cols + 1) > usize::MAX,
            res matches Err(e) ==> e == BoardError::InvalidDimension,
            res matches Ok(run) ==> {
                &&& run@ == Run::start(run@.grid, generations as nat)
                &&& run@.grid.seeded_from(Grid::blank(rows as nat, cols as nat))
                &&& run@.grid.border_dead()
                &&& run@.wf()
            },
    {
        match Board::new(rows, cols) {
            Err(e) => Err(e),
            Ok(mut board) => {
                board.configure();
                Ok(Simulation { board, generations, shown: 0, halted: false })
            },
        }
    }

    /// Starts a run of at most `generations` generations on a board that
    /// has been seeded already.
    ///
    /// Fails with `NotReady` exactly when nothing was committed to the board.
    pub fn with_board(board: Board, generations: usize) -> (res: Result<Simulation, BoardError>)
        ensures
            res is Err <==> !board@.ready,
            res matches Err(e) ==> e == BoardError::NotReady,
            res matches Ok(run) ==> run@ == Run::start(board@, generations as nat) && run@.wf(),
    {
        if !board.is_ready() {
            return Err(BoardError::NotReady);
        }
        Ok(Simulation { board, generations, shown: 0, halted: false })
    }

    /// The board of the run.
    pub fn board(&self) -> (board: &Board)
        ensures
            board@ == self@.grid,
    {
        &self.board
    }

    /// How many generations have been shown.
    pub fn shown(&self) -> (shown: usize)
        ensures
            shown == self@.shown,
    {
        self.shown
    }

    /// Decides the next action of the run and moves the run on to it.
    pub fn advance(&mut self) -> (action: Action)
        ensures
            action == old(self)@.action(),
            final(self)@ == old(self)@.advanced(),
            final(self)@.wf(),
        no_unwind
    {
        proof {
            use_type_invariant(&*self);
        }
        if self.halted {
            return Action::Finished;
        }
        if self.shown == 0 {
            if self.generations == 0 {
                self.halted = true;
                return Action::Finished;
            }
            self.shown = 1;
            return Action::Render(1);
        }
        if !self.board.any_live() {
            self.halted = true;
            return Action::Extinct;
        }
        self.board.step();
        if self.shown < self.generations {
            self.shown = self.shown + 1;
            Action::Render(self.shown)
        } else {
            self.halted = true;
            Action::Finished
        }
    }
}

} // verus!
