use vstd::prelude::*;

verus! {

/// Errors that the Chainstrike instructions return.
#[derive(Clone, Copy, Debug, PartialEq, Eq, Structural)]
pub enum ChainstrikeError {
    /// Unable to join a game that ended.
    GameEnded,
    /// Player is not part of this game.
    PlayerNotFound,
    /// Energy is not a valid value.
    NotValidEnergy,
    /// Unable to move into a not empty cell.
    MovingIntoNotEmptyCell,
    /// This movement is not valid.
    InvalidMovement,
}

} // verus!
