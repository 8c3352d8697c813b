//! Limits and basis-point tables shared by the whole crate.

use vstd::prelude::*;

verus! {

/// Largest number of ranked winners a season can have.
pub const MAX_WINNERS: usize = 3;

/// Longest season name, in characters.
pub const MAX_SEASON_NAME_LEN: usize = 32;

/// Largest capacity a season can be created with.
pub const MAX_PARTICIPANTS: u32 = 4444;

/// One hundred percent, in basis points.
pub const BPS_DENOMINATOR: u64 = 10000;

/// Share of the pool skimmed as the platform fee, in basis points.
pub const PLATFORM_FEE_BPS: u64 = 2000;

/// Share of a sole winner.
pub const SOLE_WINNER_BPS: u64 = 10000;

/// Shares of the first and second of two winners.
pub const PAIR_FIRST_BPS: u64 = 6000;

pub const PAIR_SECOND_BPS: u64 = 4000;

/// Shares of the first, second and third of three winners.
pub const FIRST_PLACE_BPS: u64 = 5000;

pub const SECOND_PLACE_BPS: u64 = 3000;

pub const THIRD_PLACE_BPS: u64 = 2000;

/// Longest registration period that a retiming may set, in hours.
pub const MAX_REGISTRATION_HOURS: u32 = 72;

/// Longest game period that a retiming may set, in days.
pub const MAX_GAME_DAYS: u32 = 30;

pub const SECONDS_PER_HOUR: i64 = 3600;

pub const SECONDS_PER_DAY: i64 = 86400;

} // verus!
