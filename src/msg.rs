use vstd::prelude::*;
use crate::state::State;

verus! {

/// The request that opens a game: the opponent of the sender, who moves
/// second.
pub struct InstantiateMsg {
    pub opponent: String,
}

/// A request to change a game.
#[derive(Clone, Copy, Debug, PartialEq, Eq, Structural)]
pub enum ExecuteMsg {
    /// Place the sender's mark at `row`, `col`.
    Move { row: u8, col: u8 },
}

/// A request to read a game.
#[derive(Clone, Copy, Debug, PartialEq, Eq, Structural)]
pub enum QueryMsg {
    /// The whole state of the game.
    GetState {},
}

/// The answer to `QueryMsg::GetState`.
pub struct GetStateResponse {
    pub state: State,
}

} // verus!
