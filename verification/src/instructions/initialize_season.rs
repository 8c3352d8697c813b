//! Season creation: the administrator opens a new season with an empty vault.

use vstd::prelude::*;
use vstd::string::StrSliceExecFns;
use crate::constants::{MAX_PARTICIPANTS, MAX_SEASON_NAME_LEN};
use crate::error::GorbageError;
use crate::identity::Identity;
use crate::state::config::ProgramConfig;
use crate::state::season::{Season, SeasonStatus};
use crate::vault::Vault;

verus! {

/// What a caller asks a new season to be.
pub struct SeasonParams {
    pub season_id: u64,
    pub authority: Identity,
    pub oracle: Option<Identity>,
    pub name: String,
    pub entry_fee: u64,
    pub max_participants: u32,
    pub registration_start: i64,
    pub registration_end: i64,
    pub season_end: i64,
}

impl SeasonParams {
    /// Whether the parameters are acceptable: a name of at most 32 characters, a
    /// positive fee, a capacity from 1 to 4444, and windows in strict order.
    pub open spec fn valid(&self) -> bool {
        &&& self.name@.len() <= 32
        &&& self.entry_fee > 0
        &&& 1 <= self.max_participants <= 4444
        &&& self.registration_start < self.registration_end < self.season_end
    }
}

/// Why creating a season is refused, if it is: first a caller who is not the
/// administrator, then parameters out of bounds.
pub open spec fn refusal(config: ProgramConfig, caller: Identity, params: SeasonParams) -> Option<
    GorbageError,
> {
    if caller != config.admin {
        Some(GorbageError::Unauthorized)
    } else if !params.valid() {
        Some(GorbageError::InvalidParameter)
    } else {
        None
    }
}

/// Whether `season` is the record of a season just created from `params`: open for
/// registration, with an empty pool, no participants, no winners, no fee taken and
/// no emergency.
pub open spec fn opens(season: Season, params: SeasonParams) -> bool {
    &&& season.season_id == params.season_id
    &&& season.authority == params.authority
    &&& season.oracle == params.oracle
    &&& season.name@ == params.name@
    &&& season.entry_fee == params.entry_fee
    &&& season.pool_balance == 0
    &&& season.participant_count == 0
    &&& season.max_participants == params.max_participants
    &&& season.registration_start == params.registration_start
    &&& season.registration_end == params.registration_end
    &&& season.season_end == params.season_end
    &&& season.status == SeasonStatus::Registration
    &&& !season.winners_set
    &&& season.winners@.len() == 0
    &&& !season.fee_collected
    &&& season.fee_amount == 0
    &&& !season.emergency_active
}

/// Creates the season that `params` describes, together with its empty vault.
pub fn handler(config: &ProgramConfig, caller: &Identity, params: SeasonParams) -> (result: Result<
    (Season, Vault),
    GorbageError,
>)
    ensures
        match refusal(*config, *caller, params) {
            Some(e) => result == Err::<(Season, Vault), GorbageError>(e),
            None => {
                &&& result is Ok
                &&& opens(result->Ok_0.0, params)
                &&& result->Ok_0.0.wf()
                &&& result->Ok_0.1 == (Vault { season_id: params.season_id, balance: 0 })
            },
        },
{
    if !caller.same(&config.admin) {
        return Err(GorbageError::Unauthorized);
    }
    if params.name.as_str().unicode_len() > MAX_SEASON_NAME_LEN || params.entry_fee == 0
        || params.max_participants < 1 || params.max_participants > MAX_PARTICIPANTS
        || params.registration_start >= params.registration_end || params.registration_end
        >= params.season_end {
        return Err(GorbageError::InvalidParameter);
    }
    let season = Season {
        season_id: params.season_id,
        authority: params.authority,
        oracle: params.oracle,
        name: params.name,
        entry_fee: params.entry_fee,
        pool_balance: 0,
        participant_count: 0,
        max_participants: params.max_participants,
        registration_start: params.registration_start,
        registration_end: params.registration_end,
        season_end: params.season_end,
        status: SeasonStatus::Registration,
        winners_set: false,
        winners: Vec::new(),
        fee_collected: false,
        fee_amount: 0,
        emergency_active: false,
    };
    let vault = Vault::new(params.season_id);
    Ok((season, vault))
}

} // verus!
