//! Handing the administrator role on.

use vstd::prelude::*;
use crate::error::GorbageError;
use crate::identity::Identity;
use crate::state::config::ProgramConfig;

verus! {

/// Makes `new_admin` the administrator. Refused with `Unauthorized`, and without
/// any change, exactly when `caller` is not the current administrator.
pub fn handler(config: &mut ProgramConfig, caller: &Identity, new_admin: Identity) -> (result:
    Result<(), GorbageError>)
    ensures
        *caller != old(config).admin ==> result == Err::<(), GorbageError>(
            GorbageError::Unauthorized,
        ) && *final(config) == *old(config),
        *caller == old(config).admin ==> result is Ok && *final(config) == (ProgramConfig {
            admin: new_admin,
        }),
{
    if !caller.same(&config.admin) {
        return Err(GorbageError::Unauthorized);
    }
    config.admin = new_admin;
    Ok(())
}

} // verus!
