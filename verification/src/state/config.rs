//! The global configuration record.

use vstd::prelude::*;
use crate::identity::Identity;

verus! {

/// The single global record that names the administrator.
#[derive(Clone, Copy, Debug)]
pub struct ProgramConfig {
    /// The identity that may create seasons and hand the role on.
    pub admin: Identity,
}

} // verus!
