//! Typed request and response contracts for the lean v1 control plane.
use vstd::prelude::*;
use crate::profile::{spec_output_persona, OutputPersona, ProfileId, V1_PROFILE_ID};

verus! {

/// The stable protocol name for the lean v1 control plane.
pub const PROTOCOL_NAME: &'static str = "usb2ble-proto";

/// The current major protocol version.
pub const PROTOCOL_VERSION_MAJOR: u8 = 1;

/// The current minor protocol version.
pub const PROTOCOL_VERSION_MINOR: u8 = 0;

/// Identifies a protocol version.
#[derive(Debug, Clone, Copy, PartialEq, Eq, Structural)]
pub struct ProtocolVersion {
    /// The major protocol version.
    pub major: u8,
    /// The minor protocol version.
    pub minor: u8,
}

impl ProtocolVersion {
    /// Returns the current protocol version.
    pub fn current() -> (r: Self)
        ensures
            r == (ProtocolVersion { major: PROTOCOL_VERSION_MAJOR, minor: PROTOCOL_VERSION_MINOR }),
    {
        ProtocolVersion { major: PROTOCOL_VERSION_MAJOR, minor: PROTOCOL_VERSION_MINOR }
    }
}

/// Represents the current BLE link state.
#[derive(Debug, Clone, Copy, PartialEq, Eq, Structural)]
pub enum BleLinkState {
    /// No BLE activity is active.
    Idle,
    /// The device is advertising.
    Advertising,
    /// The device has an active BLE connection.
    Connected,
}

/// Static information about the device and protocol contract.
#[derive(Debug, Clone, Copy, PartialEq, Eq)]
pub struct DeviceInfo {
    /// The protocol version supported by the device.
    pub protocol_version: ProtocolVersion,
    /// The stable firmware identity string.
    pub firmware_name: &'static str,
    /// The active normalized input profile.
    pub active_profile: ProfileId,
    /// The downstream output persona targeted by the active profile.
    pub output_persona: OutputPersona,
}

/// Dynamic device status exposed by the control plane.
#[derive(Debug, Clone, Copy, PartialEq, Eq, Structural)]
pub struct DeviceStatus {
    /// The active normalized input profile.
    pub active_profile: ProfileId,
    /// The downstream output persona targeted by the active profile.
    pub output_persona: OutputPersona,
    /// The current BLE link state.
    pub ble_link_state: BleLinkState,
    /// Whether any persisted bonds are present.
    pub bonds_present: bool,
}

/// Commands accepted by the lean v1 control plane.
#[derive(Debug, Clone, Copy, PartialEq, Eq, Structural)]
pub enum Command {
    /// Requests static protocol and firmware information.
    GetInfo,
    /// Requests dynamic status information.
    GetStatus,
    /// Requests the active profile only.
    GetProfile,
    /// Requests that the active profile be changed.
    SetProfile {
        /// The profile to activate.
        profile: ProfileId,
    },
    /// Requests a device reboot.
    Reboot,
    /// Requests removal of stored bonds.
    ForgetBonds,
}

/// Error codes returned by the lean v1 control plane.
#[derive(Debug, Clone, Copy, PartialEq, Eq, Structural)]
pub enum ErrorCode {
    /// The requested profile is not supported.
    UnsupportedProfile,
    /// The request is malformed or unsupported in its current shape.
    InvalidRequest,
    /// An internal error occurred while processing the request.
    Internal,
}

/// Responses returned by the lean v1 control plane.
#[derive(Debug, Clone, Copy, PartialEq, Eq)]
pub enum Response {
    /// Static device and protocol information.
    Info(DeviceInfo),
    /// Dynamic device status.
    Status(DeviceStatus),
    /// The active profile value.
    Profile {
        /// The currently active profile.
        active_profile: ProfileId,
    },
    /// A generic success acknowledgment.
    Ack,
    /// A protocol-level error.
    Error(ErrorCode),
}

/// Returns the fixed default device information for lean v1.
pub fn default_device_info() -> (r: DeviceInfo)
    ensures
        r.protocol_version == (ProtocolVersion {
            major: PROTOCOL_VERSION_MAJOR,
            minor: PROTOCOL_VERSION_MINOR,
        }),
        r.firmware_name@ == "usb2ble-fw"@,
        r.active_profile == V1_PROFILE_ID,
        r.output_persona == spec_output_persona(V1_PROFILE_ID),
{
    DeviceInfo {
        protocol_version: ProtocolVersion::current(),
        firmware_name: "usb2ble-fw",
        active_profile: V1_PROFILE_ID,
        output_persona: V1_PROFILE_ID.output_persona(),
    }
}

/// Returns the fixed default dynamic device status for lean v1.
pub fn default_device_status() -> (r: DeviceStatus)
    ensures
        r == (DeviceStatus {
            active_profile: V1_PROFILE_ID,
            output_persona: spec_output_persona(V1_PROFILE_ID),
            ble_link_state: BleLinkState::Idle,
            bonds_present: false,
        }),
{
    DeviceStatus {
        active_profile: V1_PROFILE_ID,
        output_persona: V1_PROFILE_ID.output_persona(),
        ble_link_state: BleLinkState::Idle,
        bonds_present: false,
    }
}

} // verus!
