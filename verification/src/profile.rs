//! Fixed v1 profile and output persona contracts.
use vstd::prelude::*;

verus! {

/// Identifies a normalized input profile.
#[derive(Debug, Clone, Copy, PartialEq, Eq, Structural)]
pub enum ProfileId {
    /// The fixed lean v1 T.16000M profile.
    T16000mV1,
}

/// Identifies the downstream output persona for a profile.
#[derive(Debug, Clone, Copy, PartialEq, Eq, Structural)]
pub enum OutputPersona {
    /// A fixed generic BLE HID gamepad persona with 16 buttons.
    GenericBleGamepad16,
}

/// The fixed lean v1 profile identifier.
pub const V1_PROFILE_ID: ProfileId = ProfileId::T16000mV1;

/// The stable string name for the fixed lean v1 profile.
pub const V1_PROFILE_NAME: &'static str = "t16000m_v1";

impl OutputPersona {
    /// Returns the stable string identifier for this persona.
    pub fn as_str(self) -> (r: &'static str)
        ensures
            r@ == "generic_ble_gamepad_16"@,
    {
        match self {
            OutputPersona::GenericBleGamepad16 => "generic_ble_gamepad_16",
        }
    }
}

/// The output persona that a profile targets.
pub open spec fn spec_output_persona(profile: ProfileId) -> OutputPersona {
    match profile {
        ProfileId::T16000mV1 => OutputPersona::GenericBleGamepad16,
    }
}

impl ProfileId {
    /// Returns the stable string identifier for this profile.
    pub fn as_str(self) -> (r: &'static str)
        ensures
            r@ == "t16000m_v1"@,
    {
        match self {
            ProfileId::T16000mV1 => "t16000m_v1",
        }
    }

    /// Returns the fixed output persona targeted by this profile.
    pub fn output_persona(self) -> (r: OutputPersona)
        ensures
            r == spec_output_persona(self),
    {
        match self {
            ProfileId::T16000mV1 => OutputPersona::GenericBleGamepad16,
        }
    }
}

} // verus!
