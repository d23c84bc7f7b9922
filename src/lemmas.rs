use vstd::prelude::*;
use crate::error::ContractError;
use crate::state::{
    cell_at, count_marked, game_over, move_error, moved, other_turn, outcome_of, wins, GameView,
    GridCell, Outcome, Turn,
};

verus! {

/// After any accepted move, the two marks never both fill a line: a move
/// adds only the mover's mark, on a board where nobody had won yet.
pub proof fn lemma_never_two_winners(s: GameView, actor: Seq<char>, row: int, col: int, ns: GameView)
    requires
        move_error(s, actor, row, col) is None,
        moved(s, row, col, ns),
    ensures
        !(wins(ns.board, GridCell::X) && wins(ns.board, GridCell::O)),
{
}

/// An accepted move is made on a running turn; afterwards the turn has
/// passed to the other player, unless the board now has an outcome, and
/// then the turn is ended.
pub proof fn lemma_turn_alternation(s: GameView, actor: Seq<char>, row: int, col: int, ns: GameView)
    requires
        move_error(s, actor, row, col) is None,
        moved(s, row, col, ns),
    ensures
        s.next_turn != Turn::Ended,
        ns.next_turn == Turn::Ended <==> outcome_of(ns.board) != Outcome::InProgress,
        ns.next_turn != Turn::Ended ==> ns.next_turn == other_turn(s.next_turn) && ns.next_turn
            != s.next_turn,
{
}

/// Once a game is over, every move is rejected, with `GameOver` whatever the
/// actor or the in-bounds target; a rejected move leaves the game as it was,
/// so the game stays over.
pub proof fn lemma_game_over_is_final(s: GameView, actor: Seq<char>, row: int, col: int)
    requires
        game_over(s),
    ensures
        move_error(s, actor, row, col) is Some,
        0 <= row <= 2 && 0 <= col <= 2 ==> move_error(s, actor, row, col) == Some(
            ContractError::GameOver,
        ),
{
}

/// Each accepted move marks exactly one more cell; no cell is ever cleared.
pub proof fn lemma_occupancy_grows(s: GameView, actor: Seq<char>, row: int, col: int, ns: GameView)
    requires
        move_error(s, actor, row, col) is None,
        moved(s, row, col, ns),
    ensures
        count_marked(ns.board) == count_marked(s.board) + 1,
        forall|i: int, j: int|
            0 <= i < 3 && 0 <= j < 3 && #[trigger] cell_at(s.board, i, j) != GridCell::Empty
                ==> cell_at(ns.board, i, j) == cell_at(s.board, i, j),
{
}

} // verus!
