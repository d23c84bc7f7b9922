use tic_tac_toe::contract::{check_winner, execute, instantiate, query, query_state, try_move};
use tic_tac_toe::error::ContractError;
use tic_tac_toe::msg::{ExecuteMsg, InstantiateMsg, QueryMsg};
use tic_tac_toe::state::{evaluate, has_line, is_full, GridCell, Outcome, State, Turn};
use tic_tac_toe::state::GridCell::{Empty as E, O, X};

fn s(x: &str) -> String {
    x.to_string()
}

fn new_game(a: &str, b: &str) -> State {
    instantiate(&s(a), InstantiateMsg { opponent: s(b) }).unwrap()
}

fn same(a: &State, b: &State) -> bool {
    a.players == b.players && a.board == b.board && a.next_turn == b.next_turn && a.winner == b.winner
}

fn play(state: &mut State, moves: &[(&str, u8, u8)]) {
    for (who, row, col) in moves {
        try_move(state, &s(who), *row, *col).unwrap();
    }
}

#[test]
fn proper_initialization() {
    let state = instantiate(&s("player0"), InstantiateMsg { opponent: s("player1") }).unwrap();
    assert_eq!(Turn::Player0, state.next_turn);

    let res = query(&state, QueryMsg::GetState {});
    assert_eq!(s("player1"), res.state.players[1]);
}

#[test]
fn test_move() {
    let mut state = new_game("player0", "player1");
    let msg = ExecuteMsg::Move { row: 0, col: 0 };
    execute(&mut state, &s("player0"), msg).unwrap();

    let res = query(&state, QueryMsg::GetState {});
    // the first player places its own mark
    assert_eq!(GridCell::X, res.state.board[0][0]);
}

#[test]
fn first_move_marks_and_passes_turn() {
    let mut state = new_game("p0", "p1");
    try_move(&mut state, &s("p0"), 0, 0).unwrap();
    assert_eq!(GridCell::X, state.board[0][0]);
    assert_eq!(Turn::Player1, state.next_turn);
    assert_eq!(Outcome::InProgress, evaluate(&state.board));
    assert_eq!(None, state.winner);
}

#[test]
fn occupied_cell_is_rejected() {
    let mut state = new_game("p0", "p1");
    try_move(&mut state, &s("p0"), 0, 0).unwrap();
    let before = query_state(&state).state;
    assert_eq!(Err(ContractError::CellOccupied), try_move(&mut state, &s("p1"), 0, 0));
    assert!(same(&before, &state));
}

#[test]
fn row_win_ends_game() {
    let mut state = new_game("p0", "p1");
    play(&mut state, &[("p0", 0, 0), ("p1", 1, 0), ("p0", 0, 1), ("p1", 1, 1), ("p0", 0, 2)]);
    assert_eq!(Outcome::WinnerA, evaluate(&state.board));
    assert_eq!(Turn::Ended, state.next_turn);
    assert_eq!(Some(s("p0")), state.winner);
}

#[test]
fn diagonal_win_before_board_fills() {
    let mut state = new_game("p0", "p1");
    play(
        &mut state,
        &[
            ("p0", 0, 0),
            ("p1", 0, 1),
            ("p0", 0, 2),
            ("p1", 1, 0),
            ("p0", 1, 1),
            ("p1", 1, 2),
            ("p0", 2, 0),
        ],
    );
    assert_eq!(Outcome::WinnerA, evaluate(&state.board));
    assert_eq!(Turn::Ended, state.next_turn);
    assert_eq!(Err(ContractError::GameOver), try_move(&mut state, &s("p1"), 2, 1));
}

#[test]
fn draw_ends_game() {
    let mut state = new_game("p0", "p1");
    play(
        &mut state,
        &[
            ("p0", 0, 0),
            ("p1", 0, 1),
            ("p0", 0, 2),
            ("p1", 1, 1),
            ("p0", 1, 0),
            ("p1", 1, 2),
            ("p0", 2, 1),
            ("p1", 2, 0),
            ("p0", 2, 2),
        ],
    );
    assert_eq!(Outcome::Draw, evaluate(&state.board));
    assert_eq!(Turn::Ended, state.next_turn);
    assert_eq!(None, state.winner);
}

#[test]
fn moves_after_end_are_game_over() {
    let mut state = new_game("p0", "p1");
    play(&mut state, &[("p0", 0, 0), ("p1", 1, 0), ("p0", 0, 1), ("p1", 1, 1), ("p0", 0, 2)]);
    let before = query_state(&state).state;
    for who in ["p0", "p1", "stranger"] {
        for (row, col) in [(2, 2), (0, 0), (1, 2)] {
            assert_eq!(Err(ContractError::GameOver), try_move(&mut state, &s(who), row, col));
        }
    }
    assert!(same(&before, &state));
}

#[test]
fn same_players_are_invalid() {
    let r = instantiate(&s("p0"), InstantiateMsg { opponent: s("p0") });
    assert!(matches!(r, Err(ContractError::InvalidConfiguration)));
}

#[test]
fn out_of_bounds_comes_first() {
    let mut state = new_game("p0", "p1");
    assert_eq!(Err(ContractError::OutOfBounds), try_move(&mut state, &s("stranger"), 3, 0));
    assert_eq!(Err(ContractError::OutOfBounds), try_move(&mut state, &s("p1"), 0, 255));
    assert!(same(&new_game("p0", "p1"), &state));
}

#[test]
fn unknown_player_is_rejected() {
    let mut state = new_game("p0", "p1");
    assert_eq!(Err(ContractError::UnknownPlayer), try_move(&mut state, &s("p2"), 1, 1));
    assert!(same(&new_game("p0", "p1"), &state));
}

#[test]
fn not_your_turn_is_rejected() {
    let mut state = new_game("p0", "p1");
    assert_eq!(Err(ContractError::NotYourTurn), try_move(&mut state, &s("p1"), 1, 1));
    try_move(&mut state, &s("p0"), 1, 1).unwrap();
    assert_eq!(Err(ContractError::NotYourTurn), try_move(&mut state, &s("p0"), 0, 0));
    assert_eq!(1, state.board.iter().flatten().filter(|c| **c != GridCell::Empty).count());
}

#[test]
fn turns_alternate_and_cells_fill_one_by_one() {
    let mut state = new_game("p0", "p1");
    let moves = [("p0", 1, 1), ("p1", 0, 0), ("p0", 2, 2), ("p1", 0, 2), ("p0", 0, 1)];
    for (k, (who, row, col)) in moves.iter().enumerate() {
        let expected_turn = if k % 2 == 0 { Turn::Player0 } else { Turn::Player1 };
        assert_eq!(expected_turn, state.next_turn);
        try_move(&mut state, &s(who), *row, *col).unwrap();
        let marked = state.board.iter().flatten().filter(|c| **c != GridCell::Empty).count();
        assert_eq!(k + 1, marked);
    }
    assert_eq!(Turn::Player1, state.next_turn);
}

#[test]
fn second_player_wins_on_column() {
    let mut state = new_game("p0", "p1");
    play(
        &mut state,
        &[("p0", 0, 0), ("p1", 0, 2), ("p0", 1, 0), ("p1", 1, 2), ("p0", 2, 1), ("p1", 2, 2)],
    );
    assert_eq!(GridCell::O, state.board[2][2]);
    assert_eq!(Outcome::WinnerB, evaluate(&state.board));
    assert_eq!(Turn::Ended, state.next_turn);
    assert_eq!(Some(s("p1")), state.winner);
}

#[test]
fn read_twice_is_identical() {
    let mut state = new_game("p0", "p1");
    try_move(&mut state, &s("p0"), 2, 0).unwrap();
    let kept = query_state(&state).state;
    let first = query_state(&state).state;
    let second = query_state(&first).state;
    assert!(same(&first, &second));
    assert!(same(&kept, &state));
}

#[test]
fn evaluate_finds_every_line() {
    assert_eq!(Outcome::InProgress, evaluate(&[[E; 3]; 3]));
    assert_eq!(Outcome::WinnerA, evaluate(&[[E, E, X], [E, X, E], [X, O, O]]));
    assert_eq!(Outcome::WinnerB, evaluate(&[[X, O, E], [X, O, E], [E, O, X]]));
    assert_eq!(Outcome::WinnerB, evaluate(&[[E, E, E], [X, X, E], [O, O, O]]));
    assert_eq!(Outcome::WinnerA, evaluate(&[[X, O, O], [E, X, E], [E, E, X]]));
    assert_eq!(Outcome::Draw, evaluate(&[[X, O, X], [X, O, O], [O, X, X]]));
    assert_eq!(Outcome::InProgress, evaluate(&[[X, O, X], [X, O, O], [O, X, E]]));
    assert!(has_line(&[[O, O, O], [E; 3], [E; 3]], GridCell::O));
    assert!(!has_line(&[[E; 3]; 3], GridCell::Empty));
    assert!(is_full(&[[X, O, X], [X, O, O], [O, X, X]]));
    assert!(!is_full(&[[X, O, X], [X, E, O], [O, X, X]]));
}

#[test]
fn check_winner_names_the_player() {
    let players = [s("a"), s("b")];
    assert_eq!(Some(s("a")), check_winner(&[[X, X, X], [O, O, E], [E; 3]], &players));
    assert_eq!(Some(s("b")), check_winner(&[[X, X, O], [X, O, E], [O, E, E]], &players));
    assert_eq!(None, check_winner(&[[X, X, O], [E; 3], [E; 3]], &players));
}

#[test]
fn turn_text() {
    assert_eq!("X", Turn::Player0.to_string());
    assert_eq!("O", Turn::Player1.to_string());
    assert_eq!("invalid", Turn::Ended.to_string());
}
