//! Retiming: the authority resets the registration and game periods before the game.

use vstd::prelude::*;
use crate::constants::{MAX_GAME_DAYS, MAX_REGISTRATION_HOURS, SECONDS_PER_DAY, SECONDS_PER_HOUR};
use crate::error::GorbageError;
use crate::identity::Identity;
use crate::state::season::Season;

verus! {

/// The end of a registration period of `hours` hours, counted from `now` where
/// registration has begun, and from its start where it has not.
pub open spec fn new_registration_end(season: Season, now: int, hours: int) -> int {
    if now >= season.registration_start {
        now + hours * 3600
    } else {
        season.registration_start + hours * 3600
    }
}

/// The end of a game of `days` days that begins when registration ends.
pub open spec fn new_season_end(season: Season, now: int, hours: int, days: int) -> int {
    new_registration_end(season, now, hours) + days * 86400
}

/// Why a retiming is refused, if it is. The conditions are tested in this order:
/// the caller, a game that has not begun, both durations in range, timestamps that
/// fit.
pub open spec fn refusal(
    season: Season,
    caller: Identity,
    now: int,
    hours: int,
    days: int,
) -> Option<GorbageError> {
    if caller != season.authority {
        Some(GorbageError::Unauthorized)
    } else if now >= season.registration_end {
        Some(GorbageError::StateConflict)
    } else if hours < 1 || hours > 72 || days < 1 || days > 30 {
        Some(GorbageError::InvalidParameter)
    } else if new_season_end(season, now, hours, days) > i64::MAX {
        Some(GorbageError::ArithmeticOverflow)
    } else {
        None
    }
}

/// Rewrites the season's windows: registration lasts `registration_hours` (1 to 72)
/// and the game `game_duration_days` (1 to 30) after it. The start of registration
/// stays; the new windows are again strictly ordered. A refusal changes nothing.
pub fn handler(
    season: &mut Season,
    caller: &Identity,
    now: i64,
    registration_hours: u32,
    game_duration_days: u32,
) -> (result: Result<(), GorbageError>)
    ensures
        match refusal(
            *old(season),
            *caller,
            now as int,
            registration_hours as int,
            game_duration_days as int,
        ) {
            Some(e) => result == Err::<(), GorbageError>(e) && *final(season) == *old(season),
            None => {
                &&& result is Ok
                &&& *final(season) == (Season {
                    registration_end: new_registration_end(
                        *old(season),
                        now as int,
                        registration_hours as int,
                    ) as i64,
                    season_end: new_season_end(
                        *old(season),
                        now as int,
                        registration_hours as int,
                        game_duration_days as int,
                    ) as i64,
                    ..*old(season)
                })
                &&& final(season).registration_start < final(season).registration_end
                    < final(season).season_end
            },
        },
{
    if !season.is_authority(caller) {
        return Err(GorbageError::Unauthorized);
    }
    if now >= season.registration_end {
        return Err(GorbageError::StateConflict);
    }
    if registration_hours < 1 || registration_hours > MAX_REGISTRATION_HOURS
        || game_duration_days < 1 || game_duration_days > MAX_GAME_DAYS {
        return Err(GorbageError::InvalidParameter);
    }
    let registration_duration: i64 = (registration_hours as i64) * SECONDS_PER_HOUR;
    let game_duration: i64 = (game_duration_days as i64) * SECONDS_PER_DAY;
    let base: i64 = if now >= season.registration_start {
        now
    } else {
        season.registration_start
    };
    let registration_end: i64 = match base.checked_add(registration_duration) {
        Some(end) => end,
        None => { return Err(GorbageError::ArithmeticOverflow); },
    };
    let season_end: i64 = match registration_end.checked_add(game_duration) {
        Some(end) => end,
        None => { return Err(GorbageError::ArithmeticOverflow); },
    };
    season.registration_end = registration_end;
    season.season_end = season_end;
    Ok(())
}

} // verus!
