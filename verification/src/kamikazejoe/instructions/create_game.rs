//! Creating a game: the creator picks the arena's size and seed and the
//! ticket price, or leaves the defaults.

use vstd::prelude::*;
use crate::address::Address;
use crate::kamikazejoe::errors::KamikazeJoeError;
use crate::kamikazejoe::states::game::{DEFAULT_SIDE, DEFAULT_TICKET_PRICE, Game};
use crate::kamikazejoe::states::matches::{Matches, registered};
use crate::kamikazejoe::states::user::User;

verus! {

/// `o`'s value, or `d` where `o` is `None`.
pub open spec fn or_default<T>(o: Option<T>, d: T) -> T {
    match o {
        Some(v) => v,
        None => d,
    }
}

/// Creates the game `game_key` of `creator`, whose account is `user`, and
/// lists it in `matches` when that account is given. Returns the new game.
pub fn handler(
    creator: &Address,
    game_key: &Address,
    user: &mut User,
    matches: &mut Option<Matches>,
    width: Option<u8>,
    height: Option<u8>,
    arena_seed: Option<u8>,
    price_pool_lamports: Option<u64>,
) -> (r: Result<Game, KamikazeJoeError>)
    requires
        or_default(width, DEFAULT_SIDE) > 0 || or_default(height, DEFAULT_SIDE) > 0 ==> old(
            user,
        ).games < u32::MAX,
    ensures
        if or_default(width, DEFAULT_SIDE) == 0 && or_default(height, DEFAULT_SIDE) == 0 {
            r == Err::<Game, KamikazeJoeError>(KamikazeJoeError::InvalidSize) && *final(user)
                == *old(user) && *final(matches) == *old(matches)
        } else {
            &&& r matches Ok(g) && {
                &&& g.id == 0
                &&& g.width == or_default(width, DEFAULT_SIDE)
                &&& g.height == or_default(height, DEFAULT_SIDE)
                &&& g.seed == or_default(arena_seed, 0u8)
                &&& g.ticket_price == or_default(price_pool_lamports, DEFAULT_TICKET_PRICE)
                &&& !g.prize_claimed
                &&& g.owner@ == creator@
                &&& g.game_state is Waiting
                &&& g.players@.len() == 0
            }
            &&& final(user).games == old(user).games + 1
            &&& final(user).authority == old(user).authority
            &&& final(user).won == old(user).won
            &&& (*final(matches) is Some) == (*old(matches) is Some)
            &&& *old(matches) matches Some(m) ==> final(matches)->0.active_games@ == registered(
                m.active_games@,
                *game_key,
            )
        },
{
    let mut game_object = Game::default();
    game_object.owner = *creator;
    if let Some(w) = width {
        game_object.width = w;
    }
    if let Some(h) = height {
        game_object.height = h;
    }
    if let Some(s) = arena_seed {
        game_object.seed = s;
    }
    if let Some(p) = price_pool_lamports {
        game_object.ticket_price = p;
    }
    if game_object.width == 0 && game_object.height == 0 {
        return Err(KamikazeJoeError::InvalidSize);
    }
    user.increment_games();
    if let Some(m) = matches {
        m.register_game(*game_key);
    }
    Ok(game_object)
}

} // verus!
