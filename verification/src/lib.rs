//! Verified core of a USB-HID-joystick to BLE-gamepad bridge: HID report
//! descriptor parsing, report decoding, normalization, the wire encodings of
//! the control protocol and of the BLE gamepad report, and the application
//! coordinator that ties them together.
use vstd::prelude::*;

pub mod app;
pub mod ble_hid;
pub mod ble_backend;
pub mod bundle;
pub mod console_uart;
pub mod embedded;
pub mod framing;
pub mod hid_decode;
pub mod hid_descriptor;
pub mod messages;
pub mod normalize;
pub mod nvs_store;
pub mod profile;
pub mod replay;
pub mod runtime;
pub mod usb_host;

verus! {

/// Crate identity of the core domain layer.
pub const CORE_CRATE_NAME: &'static str = "usb2ble-core";

/// Crate identity of the control protocol layer.
pub const PROTO_CRATE_NAME: &'static str = "usb2ble-proto";

/// Crate identity of the platform seam layer.
pub const PLATFORM_CRATE_NAME: &'static str = "usb2ble-platform-espidf";

/// Links the ESP-IDF runtime patches on the embedded target; off target
/// there is nothing to link.
pub fn link_patches_if_needed() {
}

} // verus!
