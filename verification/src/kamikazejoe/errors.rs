use vstd::prelude::*;
use solana_program::program_error::ProgramError;

verus! {

/// Errors of the Kamikaze Joe program itself.
#[derive(Clone, Copy, Debug, PartialEq, Eq, Structural)]
pub enum KamikazeJoeError {
    /// The game has a winner already.
    GameEnded,
    /// The player is not part of this game.
    PlayerNotFound,
    /// The player has no energy left.
    NotValidEnergy,
    /// The cell to join on is not free.
    InvalidJoin,
    /// The arena has neither columns nor rows.
    InvalidSize,
    /// The signer is not the user.
    InvalidUser,
    /// The user account or the receiver does not belong to the authority.
    InvalidAuthority,
    /// The prize cannot be claimed.
    InvalidClaim,
    /// A lamport balance would leave the range of `u64`.
    Overflow,
}

#[verifier::external_type_specification]
#[verifier::external_body]
pub struct ExProgramError(ProgramError);

/// Every way a Kamikaze Joe instruction can fail.
#[derive(Debug)]
pub enum InstructionError {
    /// An error of the program.
    Program(KamikazeJoeError),
    /// The session token does not authorize the signer (`SessionError::InvalidToken`
    /// of the session program).
    InvalidSessionToken,
    /// An account is not the one expected (`ProgramError::InvalidArgument`).
    InvalidArgument,
    /// The clock could not be read.
    Sysvar(ProgramError),
    /// Another program refused a call, with this error.
    Cpi(ProgramError),
}

} // verus!
