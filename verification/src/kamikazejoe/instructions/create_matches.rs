//! Creating the list of recent games.

use vstd::prelude::*;
use crate::kamikazejoe::states::matches::Matches;

verus! {

/// The list of recent games, empty.
pub fn handler() -> (r: Matches)
    ensures
        r.active_games@.len() == 0,
{
    Matches::default()
}

} // verus!
