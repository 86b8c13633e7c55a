use vstd::prelude::*;

verus! {

/// Why an operation on a board was refused.
#[derive(Debug, Clone, Copy, PartialEq, Eq, Structural)]
pub enum BoardError {
    /// A board needs at least one row and one column, and its padded
    /// storage must be addressable.
    InvalidDimension,
    /// The board has not been seeded yet.
    NotReady,
    /// A coordinate lies beyond the ring of dead cells around the board.
    OutOfRange,
}

} // verus!
