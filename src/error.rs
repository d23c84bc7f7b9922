use vstd::prelude::*;

verus! {

/// Why an operation on a game was rejected.
#[derive(Clone, Copy, Debug, PartialEq, Eq, Structural)]
pub enum ContractError {
    /// Both player identifiers of a new game are the same.
    InvalidConfiguration,
    /// The row or the column lies outside `0..=2`.
    OutOfBounds,
    /// The game already has an outcome.
    GameOver,
    /// The actor is neither of the two players.
    UnknownPlayer,
    /// The actor is a player, but it is the other player's turn.
    NotYourTurn,
    /// The target cell already holds a mark.
    CellOccupied,
}

} // verus!
