use vstd::prelude::*;
use crate::error::ContractError;
use crate::lemmas::lemma_never_two_winners;
use crate::msg::{ExecuteMsg, GetStateResponse, InstantiateMsg, QueryMsg};
use crate::state::{
    evaluate, is_initial_game, move_error, moved, opt_view, well_formed, winner_of, Board,
    GameView, GridCell, Outcome, State, Turn,
};

verus! {

/// What a move request does to a game: on a failed check the error and the
/// game unchanged, else success and the game after the move.
pub open spec fn move_outcome(
    before: GameView,
    after: GameView,
    actor: Seq<char>,
    row: int,
    col: int,
    r: Result<(), ContractError>,
) -> bool {
    match move_error(before, actor, row, col) {
        Some(e) => r == Err::<(), ContractError>(e) && after == before,
        None => r is Ok && moved(before, row, col, after),
    }
}

/// Opens a game between `sender`, who moves first, and `msg.opponent`.
/// A player cannot play itself.
pub fn instantiate(sender: &String, msg: InstantiateMsg) -> (r: Result<State, ContractError>)
    ensures
        sender@ == msg.opponent@ ==> r == Err::<State, ContractError>(ContractError::InvalidConfiguration),
        sender@ != msg.opponent@ ==> r is Ok && is_initial_game(r->Ok_0@, sender@, msg.opponent@),
        r is Ok ==> well_formed(r->Ok_0@),
{
    if *sender == msg.opponent {
        return Err(ContractError::InvalidConfiguration);
    }
    let state = State {
        players: [sender.clone(), msg.opponent],
        board: [[GridCell::Empty; 3]; 3],
        next_turn: Turn::Player0,
        winner: None,
    };
    Ok(state)
}

/// Carries out a request to change the game.
pub fn execute(state: &mut State, sender: &String, msg: ExecuteMsg) -> (r: Result<(), ContractError>)
    ensures
        match msg {
            ExecuteMsg::Move { row, col } => move_outcome(
                old(state)@,
                final(state)@,
                sender@,
                row as int,
                col as int,
                r,
            ),
        },
        well_formed(old(state)@) ==> well_formed(final(state)@),
{
    match msg {
        ExecuteMsg::Move { row, col } => try_move(state, sender, row, col),
    }
}

/// Places the mark of `sender` at `row`, `col` when every check passes, and
/// then recomputes the outcome. On a failed check the game is left exactly
/// as it was.
pub fn try_move(state: &mut State, sender: &String, row: u8, col: u8) -> (r: Result<(), ContractError>)
    ensures
        move_outcome(old(state)@, final(state)@, sender@, row as int, col as int, r),
        r is Err ==> *final(state) == *old(state),
        well_formed(old(state)@) ==> well_formed(final(state)@),
{
    if row > 2 || col > 2 {
        return Err(ContractError::OutOfBounds);
    }
    if state.next_turn == Turn::Ended || evaluate(&state.board) != Outcome::InProgress {
        return Err(ContractError::GameOver);
    }
    let is_player0 = *sender == state.players[0];
    let is_player1 = *sender == state.players[1];
    if !is_player0 && !is_player1 {
        return Err(ContractError::UnknownPlayer);
    }
    let (on_turn, mark) = match state.next_turn {
        Turn::Player0 => (is_player0, GridCell::X),
        _ => (is_player1, GridCell::O),
    };
    if !on_turn {
        return Err(ContractError::NotYourTurn);
    }
    let r: usize = row as usize;
    let c: usize = col as usize;
    if state.board[r][c] != GridCell::Empty {
        return Err(ContractError::CellOccupied);
    }
    let ghost before = state@;
    let mut board = state.board;
    let mut line = board[r];
    line[c] = mark;
    board[r] = line;
    let outcome = evaluate(&board);
    let winner = check_winner(&board, &state.players);
    state.board = board;
    state.winner = winner;
    state.next_turn = if outcome != Outcome::InProgress {
        Turn::Ended
    } else if mark == GridCell::X {
        Turn::Player1
    } else {
        Turn::Player0
    };
    proof {
        lemma_never_two_winners(before, sender@, r as int, c as int, state@);
    }
    Ok(())
}

/// The winner's identifier, if a line of the board is filled by one mark.
pub fn check_winner(board: &Board, players: &[String; 2]) -> (r: Option<String>)
    ensures
        opt_view(r) == winner_of(players[0]@, players[1]@, *board),
{
    match evaluate(board) {
        Outcome::WinnerA => Some(players[0].clone()),
        Outcome::WinnerB => Some(players[1].clone()),
        _ => None,
    }
}

/// Answers a request to read the game.
pub fn query(state: &State, msg: QueryMsg) -> (r: GetStateResponse)
    ensures
        r.state == *state,
{
    match msg {
        QueryMsg::GetState {} => query_state(state),
    }
}

/// A copy of the whole game; the game itself is only read.
pub fn query_state(state: &State) -> (r: GetStateResponse)
    ensures
        r.state == *state,
{
    let winner = match &state.winner {
        Some(w) => Some(w.clone()),
        None => None,
    };
    let players = [state.players[0].clone(), state.players[1].clone()];
    assert(players =~= state.players);
    GetStateResponse {
        state: State { players, board: state.board, next_turn: state.next_turn, winner },
    }
}

} // verus!
