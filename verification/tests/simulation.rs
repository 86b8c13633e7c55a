use game_of_life::board::Board;
use game_of_life::error::BoardError;
use game_of_life::simulation::{Action, Simulation};

/// A committed board with exactly the given interior cells alive.
fn seeded(rows: usize, cols: usize, live: &[(usize, usize)]) -> Board {
    let mut board = Board::new(rows, cols).unwrap();
    for &(row, col) in live {
        board.set_new(row, col, 1);
    }
    board.copy_board();
    board
}

/// The interior cells of the run's board that are alive.
fn alive_in(run: &Simulation) -> Vec<(usize, usize)> {
    let board = run.board();
    let mut live = Vec::new();
    for row in 1..=board.rows() {
        for col in 1..=board.cols() {
            if board.get_old(row, col).unwrap() == 1 {
                live.push((row, col));
            }
        }
    }
    live
}

#[test]
fn a_run_of_zero_generations_shows_nothing_and_steps_nothing() {
    let blinker = [(2, 2), (2, 3), (2, 4)];
    let mut run = Simulation::with_board(seeded(5, 5, &blinker), 0).unwrap();
    assert_eq!(run.advance(), Action::Finished);
    assert_eq!(run.shown(), 0);
    assert_eq!(alive_in(&run), blinker.to_vec());
    assert_eq!(run.advance(), Action::Finished);
    assert_eq!(alive_in(&run), blinker.to_vec());
}

#[test]
fn a_random_run_of_zero_generations_finishes_at_once() {
    let mut run = Simulation::new(0, 10, 10).unwrap();
    let before = alive_in(&run);
    assert_eq!(run.advance(), Action::Finished);
    assert_eq!(run.shown(), 0);
    assert_eq!(alive_in(&run), before);
}

#[test]
fn a_run_shows_the_seed_first() {
    let blinker = [(2, 2), (2, 3), (2, 4)];
    let mut run = Simulation::with_board(seeded(5, 5, &blinker), 3).unwrap();
    assert_eq!(run.advance(), Action::Render(1));
    assert_eq!(run.shown(), 1);
    assert_eq!(alive_in(&run), blinker.to_vec());
}

#[test]
fn a_run_steps_between_two_frames() {
    let mut run = Simulation::with_board(seeded(5, 5, &[(2, 2), (2, 3), (2, 4)]), 3).unwrap();
    assert_eq!(run.advance(), Action::Render(1));
    assert_eq!(run.advance(), Action::Render(2));
    assert_eq!(alive_in(&run), vec![(1, 3), (2, 3), (3, 3)]);
    assert_eq!(run.advance(), Action::Render(3));
    assert_eq!(alive_in(&run), vec![(2, 2), (2, 3), (2, 4)]);
    assert_eq!(run.shown(), 3);
}

#[test]
fn a_run_steps_once_more_after_its_last_frame() {
    let mut run = Simulation::with_board(seeded(5, 5, &[(2, 2), (2, 3), (2, 4)]), 1).unwrap();
    assert_eq!(run.advance(), Action::Render(1));
    assert_eq!(run.advance(), Action::Finished);
    assert_eq!(run.shown(), 1);
    assert_eq!(alive_in(&run), vec![(1, 3), (2, 3), (3, 3)]);
    assert_eq!(run.advance(), Action::Finished);
    assert_eq!(alive_in(&run), vec![(1, 3), (2, 3), (3, 3)]);
}

#[test]
fn a_run_stops_when_no_cell_is_left() {
    let mut run = Simulation::with_board(seeded(4, 4, &[(2, 2)]), 10).unwrap();
    assert_eq!(run.advance(), Action::Render(1));
    assert_eq!(run.advance(), Action::Render(2));
    assert_eq!(alive_in(&run), Vec::new());
    assert_eq!(run.advance(), Action::Extinct);
    assert_eq!(run.shown(), 2);
    assert_eq!(run.advance(), Action::Finished);
    assert_eq!(run.advance(), Action::Finished);
}

#[test]
fn a_run_on_a_dead_board_shows_one_frame() {
    let mut run = Simulation::with_board(seeded(4, 4, &[]), 10).unwrap();
    assert_eq!(run.advance(), Action::Render(1));
    assert_eq!(run.advance(), Action::Extinct);
    assert_eq!(run.advance(), Action::Finished);
}

#[test]
fn a_run_counts_its_frames_from_one() {
    let block = [(1, 1), (1, 2), (2, 1), (2, 2)];
    let mut run = Simulation::with_board(seeded(3, 3, &block), 5).unwrap();
    for label in 1..=5 {
        assert_eq!(run.advance(), Action::Render(label));
        assert_eq!(run.shown(), label);
    }
    assert_eq!(run.advance(), Action::Finished);
    assert_eq!(run.shown(), 5);
    assert_eq!(alive_in(&run), block.to_vec());
}

#[test]
fn a_run_needs_a_seeded_board() {
    let board = Board::new(3, 3).unwrap();
    assert_eq!(Simulation::with_board(board, 4).err(), Some(BoardError::NotReady));
}

#[test]
fn a_run_needs_valid_dimensions() {
    assert_eq!(Simulation::new(3, 0, 10).err(), Some(BoardError::InvalidDimension));
    assert_eq!(Simulation::new(3, 10, 0).err(), Some(BoardError::InvalidDimension));
    assert_eq!(Simulation::new(3, usize::MAX, 2).err(), Some(BoardError::InvalidDimension));
}

#[test]
fn a_random_run_starts_on_a_ready_board() {
    let run = Simulation::new(3, 4, 9).unwrap();
    assert!(run.board().is_ready());
    assert_eq!(run.board().rows(), 4);
    assert_eq!(run.board().cols(), 9);
    assert_eq!(run.shown(), 0);
    assert_eq!(run.board().render().unwrap().len(), 4);
    assert_eq!(run.board().render().unwrap()[0].len(), 9);
}
