use vstd::prelude::*;
use crate::error::ContractError;

verus! {

/// One cell of the board: empty, or the mark of the first (`X`) or the
/// second (`O`) player.
#[derive(Clone, Copy, Debug, PartialEq, Eq, Structural)]
pub enum GridCell {
    Empty,
    X,
    O,
}

/// Whose move is next, or `Ended` once the game has an outcome.
#[derive(Clone, Copy, Debug, PartialEq, Eq, Structural)]
pub enum Turn {
    Player0,
    Player1,
    Ended,
}

/// The result of a board, derived from its cells alone.
#[derive(Clone, Copy, Debug, PartialEq, Eq, Structural)]
pub enum Outcome {
    InProgress,
    WinnerA,
    WinnerB,
    Draw,
}

pub type Board = [[GridCell; 3]; 3];

/// A game: the two players (slot 0 moves first), the board, whose turn it
/// is, and the winner once there is one.
pub struct State {
    pub players: [String; 2],
    pub board: Board,
    pub next_turn: Turn,
    pub winner: Option<String>,
}

/// The mathematical value of a `State`.
pub struct GameView {
    pub player0: Seq<char>,
    pub player1: Seq<char>,
    pub board: Board,
    pub next_turn: Turn,
    pub winner: Option<Seq<char>>,
}

impl View for State {
    type V = GameView;

    open spec fn view(&self) -> GameView {
        GameView {
            player0: self.players[0]@,
            player1: self.players[1]@,
            board: self.board,
            next_turn: self.next_turn,
            winner: opt_view(self.winner),
        }
    }
}

/// The cell at row `r`, column `c`.
pub open spec fn cell_at(b: Board, r: int, c: int) -> GridCell {
    b[r][c]
}

/// The three cells `(r0, c0)`, `(r1, c1)`, `(r2, c2)` all hold mark `m`.
pub open spec fn line_of(b: Board, m: GridCell, r0: int, c0: int, r1: int, c1: int, r2: int, c2: int) -> bool {
    cell_at(b, r0, c0) == m && cell_at(b, r1, c1) == m && cell_at(b, r2, c2) == m
}

/// Mark `m` fills one of the eight lines: a row, a column or a diagonal.
pub open spec fn wins(b: Board, m: GridCell) -> bool {
    m != GridCell::Empty && (
        line_of(b, m, 0, 0, 0, 1, 0, 2)
        || line_of(b, m, 1, 0, 1, 1, 1, 2)
        || line_of(b, m, 2, 0, 2, 1, 2, 2)
        || line_of(b, m, 0, 0, 1, 0, 2, 0)
        || line_of(b, m, 0, 1, 1, 1, 2, 1)
        || line_of(b, m, 0, 2, 1, 2, 2, 2)
        || line_of(b, m, 0, 0, 1, 1, 2, 2)
        || line_of(b, m, 0, 2, 1, 1, 2, 0)
    )
}

/// 1 where the cell holds a mark, 0 where it is empty.
pub open spec fn marked(c: GridCell) -> nat {
    if c == GridCell::Empty { 0 } else { 1 }
}

/// The number of marked cells in a row.
pub open spec fn row_count(row: [GridCell; 3]) -> nat {
    marked(row[0]) + marked(row[1]) + marked(row[2])
}

/// The number of marked cells on the board.
pub open spec fn count_marked(b: Board) -> nat {
    row_count(b[0]) + row_count(b[1]) + row_count(b[2])
}

/// The outcome of a board: a line of `X` wins for the first player, a line of
/// `O` for the second; with no line, a full board is a draw.
pub open spec fn outcome_of(b: Board) -> Outcome {
    if wins(b, GridCell::X) {
        Outcome::WinnerA
    } else if wins(b, GridCell::O) {
        Outcome::WinnerB
    } else if count_marked(b) == 9 {
        Outcome::Draw
    } else {
        Outcome::InProgress
    }
}

fn line_exec(b: &Board, m: GridCell, r0: usize, c0: usize, r1: usize, c1: usize, r2: usize, c2: usize) -> (r: bool)
    requires
        r0 < 3, c0 < 3, r1 < 3, c1 < 3, r2 < 3, c2 < 3,
    ensures
        r == line_of(*b, m, r0 as int, c0 as int, r1 as int, c1 as int, r2 as int, c2 as int),
{
    b[r0][c0] == m && b[r1][c1] == m && b[r2][c2] == m
}

/// Whether mark `m` fills a row, a column or a diagonal of `b`.
pub fn has_line(b: &Board, m: GridCell) -> (r: bool)
    ensures
        r == wins(*b, m),
{
    if m == GridCell::Empty {
        return false;
    }
    line_exec(b, m, 0, 0, 0, 1, 0, 2)
        || line_exec(b, m, 1, 0, 1, 1, 1, 2)
        || line_exec(b, m, 2, 0, 2, 1, 2, 2)
        || line_exec(b, m, 0, 0, 1, 0, 2, 0)
        || line_exec(b, m, 0, 1, 1, 1, 2, 1)
        || line_exec(b, m, 0, 2, 1, 2, 2, 2)
        || line_exec(b, m, 0, 0, 1, 1, 2, 2)
        || line_exec(b, m, 0, 2, 1, 1, 2, 0)
}

/// Whether no cell of `b` is empty.
pub fn is_full(b: &Board) -> (r: bool)
    ensures
        r == (count_marked(*b) == 9),
{
    let mut r: usize = 0;
    while r < 3
        invariant
            r <= 3,
            forall|i: int, j: int| 0 <= i < r && 0 <= j < 3 ==> b[i][j] != GridCell::Empty,
        decreases 3 - r,
    {
        let mut c: usize = 0;
        while c < 3
            invariant
                r < 3,
                c <= 3,
                forall|j: int| 0 <= j < c ==> b[r as int][j] != GridCell::Empty,
            decreases 3 - c,
        {
            if b[r][c] == GridCell::Empty {
                return false;
            }
            c = c + 1;
        }
        r = r + 1;
    }
    true
}

/// The outcome of `board`, computed from all eight lines and the count of
/// empty cells.
pub fn evaluate(board: &Board) -> (r: Outcome)
    ensures
        r == outcome_of(*board),
{
    if has_line(board, GridCell::X) {
        Outcome::WinnerA
    } else if has_line(board, GridCell::O) {
        Outcome::WinnerB
    } else if is_full(board) {
        Outcome::Draw
    } else {
        Outcome::InProgress
    }
}

} // verus!

verus! {

/// The view of an optional identifier.
pub open spec fn opt_view(o: Option<String>) -> Option<Seq<char>> {
    match o {
        Some(w) => Some(w@),
        None => None,
    }
}

/// The mark that the player whose turn it is places.
pub open spec fn mark_of(t: Turn) -> GridCell {
    match t {
        Turn::Player0 => GridCell::X,
        Turn::Player1 => GridCell::O,
        Turn::Ended => GridCell::Empty,
    }
}

/// The other player's turn.
pub open spec fn other_turn(t: Turn) -> Turn {
    match t {
        Turn::Player0 => Turn::Player1,
        Turn::Player1 => Turn::Player0,
        Turn::Ended => Turn::Ended,
    }
}

/// The winner's identifier, if the board has one.
pub open spec fn winner_of(p0: Seq<char>, p1: Seq<char>, b: Board) -> Option<Seq<char>> {
    match outcome_of(b) {
        Outcome::WinnerA => Some(p0),
        Outcome::WinnerB => Some(p1),
        _ => None,
    }
}

/// A fresh game between `p0`, who moves first, and `p1`: every cell empty,
/// first player's turn, no winner.
pub open spec fn is_initial_game(g: GameView, p0: Seq<char>, p1: Seq<char>) -> bool {
    &&& g.player0 == p0
    &&& g.player1 == p1
    &&& forall|i: int, j: int| 0 <= i < 3 && 0 <= j < 3 ==> #[trigger] cell_at(g.board, i, j) == GridCell::Empty
    &&& g.next_turn == Turn::Player0
    &&& g.winner is None
}

/// The game accepts no more moves.
pub open spec fn game_over(s: GameView) -> bool {
    s.next_turn == Turn::Ended || outcome_of(s.board) != Outcome::InProgress
}

/// The identifier of the player whose turn it is (only while the game runs).
pub open spec fn turn_player(s: GameView) -> Seq<char> {
    if s.next_turn == Turn::Player0 { s.player0 } else { s.player1 }
}

/// The first check that a move by `actor` at `row`, `col` fails, if any, in
/// the order: bounds, end of game, membership, turn, occupied cell.
pub open spec fn move_error(s: GameView, actor: Seq<char>, row: int, col: int) -> Option<ContractError> {
    if !(0 <= row <= 2 && 0 <= col <= 2) {
        Some(ContractError::OutOfBounds)
    } else if game_over(s) {
        Some(ContractError::GameOver)
    } else if actor != s.player0 && actor != s.player1 {
        Some(ContractError::UnknownPlayer)
    } else if actor != turn_player(s) {
        Some(ContractError::NotYourTurn)
    } else if cell_at(s.board, row, col) != GridCell::Empty {
        Some(ContractError::CellOccupied)
    } else {
        None
    }
}

/// `ns` is `s` after the mark of the player whose turn it is was placed at
/// `row`, `col`: the other cells and the players stay, the turn passes to
/// the other player or ends with the outcome, and the winner is recomputed.
pub open spec fn moved(s: GameView, row: int, col: int, ns: GameView) -> bool {
    &&& ns.player0 == s.player0
    &&& ns.player1 == s.player1
    &&& forall|i: int, j: int|
        0 <= i < 3 && 0 <= j < 3 ==> #[trigger] cell_at(ns.board, i, j) == if i == row && j == col {
            mark_of(s.next_turn)
        } else {
            cell_at(s.board, i, j)
        }
    &&& ns.next_turn == if outcome_of(ns.board) != Outcome::InProgress {
        Turn::Ended
    } else {
        other_turn(s.next_turn)
    }
    &&& ns.winner == winner_of(ns.player0, ns.player1, ns.board)
}

/// The state of a game that play can reach: two distinct players, never
/// two winners, the turn ended exactly when the board has an outcome, and
/// the winner recorded as the board shows it.
pub open spec fn well_formed(s: GameView) -> bool {
    &&& s.player0 != s.player1
    &&& !(wins(s.board, GridCell::X) && wins(s.board, GridCell::O))
    &&& (s.next_turn == Turn::Ended <==> outcome_of(s.board) != Outcome::InProgress)
    &&& s.winner == winner_of(s.player0, s.player1, s.board)
}

} // verus!

verus! {

/// The text that stands for a turn: the mark of the player on turn.
pub open spec fn turn_label(t: Turn) -> Seq<char> {
    match t {
        Turn::Player0 => "X"@,
        Turn::Player1 => "O"@,
        Turn::Ended => "invalid"@,
    }
}

impl Turn {
    /// The text for this turn: `X`, `O`, or `invalid` once the game ended.
    pub fn to_string(&self) -> (r: String)
        ensures
            r@ == turn_label(*self),
    {
        let item = match self {
            Turn::Player0 => "X",
            Turn::Player1 => "O",
            Turn::Ended => "invalid",
        };
        String::from_str(item)
    }
}

} // verus!
