//! Recording the scoring program's accounts for this game.

use vstd::prelude::*;
use crate::address::Address;
use crate::kamikazejoe::states::leaderboard::Leaderboard;

verus! {

/// The leaderboard account that names the scoring program's `game`,
/// `leaderboard` and `top_entries` accounts.
pub fn handler(game: Address, leaderboard: Address, top_entries: Address) -> (r: Leaderboard)
    ensures
        r.game == game,
        r.leaderboard == leaderboard,
        r.top_entries == top_entries,
{
    let mut leaderboard_object = Leaderboard::default();
    leaderboard_object.game = game;
    leaderboard_object.leaderboard = leaderboard;
    leaderboard_object.top_entries = top_entries;
    leaderboard_object
}

} // verus!
