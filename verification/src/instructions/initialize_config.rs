//! Bootstrap: the first caller becomes the administrator, once and for all.

use vstd::prelude::*;
use crate::error::GorbageError;
use crate::identity::Identity;
use crate::state::config::ProgramConfig;

verus! {

/// Creates the configuration with `caller` as administrator. Refused with
/// `AlreadyInitialized`, and without any change, exactly when a configuration
/// exists.
pub fn handler(config: &mut Option<ProgramConfig>, caller: Identity) -> (result: Result<
    (),
    GorbageError,
>)
    ensures
        *old(config) is Some ==> result == Err::<(), GorbageError>(
            GorbageError::AlreadyInitialized,
        ) && *final(config) == *old(config),
        *old(config) is None ==> result is Ok && *final(config) == Some(
            ProgramConfig { admin: caller },
        ),
{
    if config.is_some() {
        return Err(GorbageError::AlreadyInitialized);
    }
    *config = Some(ProgramConfig { admin: caller });
    Ok(())
}

} // verus!
