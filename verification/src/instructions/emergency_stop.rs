//! Emergency stop: the authority opens the refund path.

use vstd::prelude::*;
use crate::error::GorbageError;
use crate::identity::Identity;
use crate::state::season::{Season, SeasonStatus};

verus! {

/// Why an emergency stop is refused, if it is. The conditions are tested in this
/// order: the caller, a season that is not over for good, a stop not yet in force.
pub open spec fn refusal(season: Season, caller: Identity) -> Option<GorbageError> {
    if caller != season.authority {
        Some(GorbageError::Unauthorized)
    } else if season.status == SeasonStatus::Finalized {
        Some(GorbageError::StateConflict)
    } else if season.emergency_active {
        Some(GorbageError::StateConflict)
    } else {
        None
    }
}

/// Raises the season's emergency flag and touches nothing else. A refusal changes
/// nothing.
pub fn handler(season: &mut Season, caller: &Identity) -> (result: Result<(), GorbageError>)
    ensures
        match refusal(*old(season), *caller) {
            Some(e) => result == Err::<(), GorbageError>(e) && *final(season) == *old(season),
            None => result is Ok && *final(season) == (Season {
                emergency_active: true,
                ..*old(season)
            }),
        },
{
    if !season.is_authority(caller) {
        return Err(GorbageError::Unauthorized);
    }
    if season.is_finalized() {
        return Err(GorbageError::StateConflict);
    }
    if season.emergency_active {
        return Err(GorbageError::StateConflict);
    }
    season.emergency_active = true;
    Ok(())
}

} // verus!
