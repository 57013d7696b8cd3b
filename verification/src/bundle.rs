//! Minimal profile bundle contracts for the lean v1 control plane.
use vstd::prelude::*;
use crate::profile::{ProfileId, V1_PROFILE_ID};

verus! {

/// The minimal persisted profile bundle for lean v1.
#[derive(Debug, Clone, Copy, PartialEq, Eq, Structural)]
pub struct ProfileBundle {
    /// The active normalized input profile.
    pub active_profile: ProfileId,
}

impl ProfileBundle {
    /// Returns the fixed lean v1 default profile bundle.
    pub fn v1_default() -> (r: Self)
        ensures
            r.active_profile == V1_PROFILE_ID,
    {
        ProfileBundle { active_profile: V1_PROFILE_ID }
    }
}

} // verus!
