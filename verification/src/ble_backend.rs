//! Decisions of the Bluedroid BLE HID backend: the link state machine driven
//! by HID-device and GAP events, the check made before a report is sent,
//! the error each initialization step maps to, and the fixed device and
//! advertising parameters.
use vstd::prelude::*;
use crate::ble_hid::{BleConnectionState, BleInitError, BlePublishError, EncodedBleInputReport};
use crate::profile::OutputPersona;

verus! {

/// The name the gamepad advertises.
pub const BLE_DEVICE_NAME: &'static str = "USBLERST Gamepad";

/// The HID vendor identifier the gamepad presents.
pub const BLE_HID_VENDOR_ID: u16 = 0xDEAD;

/// The HID product identifier the gamepad presents.
pub const BLE_HID_PRODUCT_ID: u16 = 0xBEEF;

/// The HID device version the gamepad presents.
pub const BLE_HID_VERSION: u16 = 0x0100;

/// The GAP appearance of a generic gamepad.
pub const BLE_APPEARANCE_GAMEPAD: u16 = 0x03C4;

/// The HID protocol mode: report protocol.
pub const BLE_HID_PROTOCOL_MODE_REPORT: u8 = 0x01;

/// The magic word of the Bluetooth controller configuration.
pub const BT_CONTROLLER_MAGIC: u32 = 0x5A5A_A5A5;

/// The stack size of the Bluetooth controller task.
pub const BT_CONTROLLER_TASK_STACK_SIZE: u16 = 4096;

/// The priority of the Bluetooth controller task.
pub const BT_CONTROLLER_TASK_PRIORITY: u8 = 20;

/// The Bluetooth controller mode: BLE only.
pub const BT_MODE_BLE: u8 = 0x01;

/// The shortest advertising interval, in 0.625 ms units.
pub const ADV_INTERVAL_MIN: u16 = 0x20;

/// The longest advertising interval, in 0.625 ms units.
pub const ADV_INTERVAL_MAX: u16 = 0x40;

/// The shortest connection interval announced in advertising data.
pub const ADV_DATA_MIN_INTERVAL: u16 = 0x0006;

/// The longest connection interval announced in advertising data.
pub const ADV_DATA_MAX_INTERVAL: u16 = 0x0010;

/// The link condition the backend records.
#[derive(Debug, Clone, Copy, PartialEq, Eq, Structural)]
pub enum LinkCode {
    /// Nothing is active.
    Idle,
    /// The gamepad is advertising.
    Advertising,
    /// A host is connected.
    Connected,
    /// HID registration failed.
    InitFailed,
}

/// The backend's state: its link condition and the handle of the active
/// connection.
#[derive(Debug, Clone, Copy, PartialEq, Eq, Structural)]
pub struct BleBackendState {
    /// The recorded link condition.
    pub link: LinkCode,
    /// The handle of the active connection (0 when none).
    pub connection_handle: u8,
}

/// A HID-device profile event, as far as the backend reads it.
#[derive(Debug, Clone, Copy, PartialEq, Eq, Structural)]
pub enum HidDeviceEvent {
    /// Registration finished; `ok` when the event carried a successful result.
    RegistrationFinished {
        /// Whether registration succeeded.
        ok: bool,
    },
    /// A host connected, with its connection identifier when the event carried one.
    Connected {
        /// The connection identifier, if carried.
        conn_id: Option<u16>,
    },
    /// The host disconnected.
    Disconnected,
    /// Any other event.
    Other,
}

/// A GAP event, as far as the backend reads it.
#[derive(Debug, Clone, Copy, PartialEq, Eq, Structural)]
pub enum GapEvent {
    /// Advertising data was configured; `success` when reported successful.
    AdvertisingDataSet {
        /// Whether configuration succeeded.
        success: bool,
    },
    /// Advertising started; `success` when reported successful.
    AdvertisingStarted {
        /// Whether advertising started.
        success: bool,
    },
    /// Any other event.
    Other,
}

/// What the backend does next on the radio.
#[derive(Debug, Clone, Copy, PartialEq, Eq, Structural)]
pub enum BackendAction {
    /// Nothing.
    Nothing,
    /// Configure the advertising data.
    ConfigureAdvertising,
    /// Start advertising.
    StartAdvertising,
}

/// The steps of bringing the BLE HID persona up, in order.
#[derive(Debug, Clone, Copy, PartialEq, Eq, Structural)]
pub enum BleInitStep {
    /// Initialize the Bluetooth controller.
    ControllerInit,
    /// Enable the controller in BLE mode.
    ControllerEnable,
    /// Initialize Bluedroid.
    BluedroidInit,
    /// Enable Bluedroid.
    BluedroidEnable,
    /// Register the HID-device callbacks.
    RegisterHidCallbacks,
    /// Initialize the HID-device profile.
    HidProfileInit,
    /// Register the GAP callback.
    RegisterGapCallback,
    /// Set the HID device configuration.
    ConfigureHidDevice,
}

/// How a report is published.
#[derive(Debug, Clone, Copy, PartialEq, Eq)]
pub enum PublishPlan {
    /// The report is refused.
    Reject(BlePublishError),
    /// The report is sent on the connection.
    Send {
        /// The connection handle.
        handle: u8,
        /// The report ID (the first wire byte).
        report_id: u8,
        /// The report data (the wire bytes after the report ID).
        data: [u8; 9],
    },
}

/// The connection state a link condition is reported as: a failed
/// registration reports that initialization failed.
pub open spec fn spec_reported_state(link: LinkCode) -> BleConnectionState {
    match link {
        LinkCode::Idle => BleConnectionState::Idle,
        LinkCode::Advertising => BleConnectionState::Advertising,
        LinkCode::Connected => BleConnectionState::Connected,
        LinkCode::InitFailed => BleConnectionState::InitializationFailed,
    }
}

/// The error a failed initialization step is reported with.
pub open spec fn spec_init_step_error(step: BleInitStep) -> BleInitError {
    match step {
        BleInitStep::ControllerInit => BleInitError::Controller,
        BleInitStep::ControllerEnable => BleInitError::Controller,
        BleInitStep::BluedroidInit => BleInitError::Bluedroid,
        BleInitStep::BluedroidEnable => BleInitError::Bluedroid,
        BleInitStep::RegisterHidCallbacks => BleInitError::HidDevice,
        BleInitStep::HidProfileInit => BleInitError::HidDevice,
        BleInitStep::RegisterGapCallback => BleInitError::Advertising,
        BleInitStep::ConfigureHidDevice => BleInitError::HidDevice,
    }
}

impl BleBackendState {
    /// The next state and action after a HID-device event.
    pub open spec fn spec_on_hid(self, event: HidDeviceEvent) -> (Self, BackendAction) {
        match event {
            HidDeviceEvent::RegistrationFinished { ok } => if ok {
                (self, BackendAction::ConfigureAdvertising)
            } else {
                (BleBackendState { link: LinkCode::InitFailed, ..self }, BackendAction::Nothing)
            },
            HidDeviceEvent::Connected { conn_id } => (
                BleBackendState {
                    link: LinkCode::Connected,
                    connection_handle: match conn_id {
                        Some(id) => (id % 256) as u8,
                        None => self.connection_handle,
                    },
                },
                BackendAction::Nothing,
            ),
            HidDeviceEvent::Disconnected => (
                BleBackendState { link: LinkCode::Idle, connection_handle: 0 },
                BackendAction::StartAdvertising,
            ),
            HidDeviceEvent::Other => (self, BackendAction::Nothing),
        }
    }

    /// The next state and action after a GAP event.
    pub open spec fn spec_on_gap(self, event: GapEvent) -> (Self, BackendAction) {
        match event {
            GapEvent::AdvertisingDataSet { success } => if success {
                (self, BackendAction::StartAdvertising)
            } else {
                (self, BackendAction::Nothing)
            },
            GapEvent::AdvertisingStarted { success } => if success {
                (BleBackendState { link: LinkCode::Advertising, ..self }, BackendAction::Nothing)
            } else {
                (self, BackendAction::Nothing)
            },
            GapEvent::Other => (self, BackendAction::Nothing),
        }
    }

    /// The state before any event: idle, no connection.
    pub fn initial() -> (r: Self)
        ensures
            r == (BleBackendState { link: LinkCode::Idle, connection_handle: 0 }),
    {
        BleBackendState { link: LinkCode::Idle, connection_handle: 0 }
    }

    /// The connection state the backend reports.
    pub fn connection_state(self) -> (r: BleConnectionState)
        ensures
            r == spec_reported_state(self.link),
    {
        match self.link {
            LinkCode::Idle => BleConnectionState::Idle,
            LinkCode::Advertising => BleConnectionState::Advertising,
            LinkCode::Connected => BleConnectionState::Connected,
            LinkCode::InitFailed => BleConnectionState::InitializationFailed,
        }
    }

    /// The next state and action after a HID-device event: a successful
    /// registration configures advertising and a failed one marks the
    /// backend failed; a connection records its handle (truncated to a
    /// byte) and connects; a disconnection forgets the handle, goes idle and
    /// advertises again.
    pub fn on_hid_device_event(self, event: HidDeviceEvent) -> (r: (Self, BackendAction))
        ensures
            r == self.spec_on_hid(event),
    {
        match event {
            HidDeviceEvent::RegistrationFinished { ok } => {
                if ok {
                    (self, BackendAction::ConfigureAdvertising)
                } else {
                    (
                        BleBackendState { link: LinkCode::InitFailed, connection_handle: self.connection_handle },
                        BackendAction::Nothing,
                    )
                }
            },
            HidDeviceEvent::Connected { conn_id } => {
                let connection_handle = match conn_id {
                    Some(id) => (id % 256) as u8,
                    None => self.connection_handle,
                };
                (BleBackendState { link: LinkCode::Connected, connection_handle }, BackendAction::Nothing)
            },
            HidDeviceEvent::Disconnected => (
                BleBackendState { link: LinkCode::Idle, connection_handle: 0 },
                BackendAction::StartAdvertising,
            ),
            HidDeviceEvent::Other => (self, BackendAction::Nothing),
        }
    }

    /// The next state and action after a GAP event: configured advertising
    /// data starts advertising, and started advertising is recorded; failures
    /// change nothing.
    pub fn on_gap_event(self, event: GapEvent) -> (r: (Self, BackendAction))
        ensures
            r == self.spec_on_gap(event),
    {
        match event {
            GapEvent::AdvertisingDataSet { success } => {
                if success {
                    (self, BackendAction::StartAdvertising)
                } else {
                    (self, BackendAction::Nothing)
                }
            },
            GapEvent::AdvertisingStarted { success } => {
                if success {
                    (
                        BleBackendState { link: LinkCode::Advertising, connection_handle: self.connection_handle },
                        BackendAction::Nothing,
                    )
                } else {
                    (self, BackendAction::Nothing)
                }
            },
            GapEvent::Other => (self, BackendAction::Nothing),
        }
    }

    /// How a report for `persona` is published: only the generic gamepad
    /// persona, and only while connected, is sent, split into its report ID
    /// and data on the active connection; otherwise it is refused as not
    /// ready.
    pub fn publish_plan(self, persona: OutputPersona, report: EncodedBleInputReport) -> (r:
        PublishPlan)
        ensures
            spec_reported_state(self.link) != BleConnectionState::Connected ==> r
                == PublishPlan::Reject(BlePublishError::NotReady),
            spec_reported_state(self.link) == BleConnectionState::Connected ==> (r matches PublishPlan::Send {
                handle,
                report_id,
                data,
            } && handle == self.connection_handle && report_id == report.wire()[0] && data@
                == report.wire().skip(1)),
    {
        match persona {
            OutputPersona::GenericBleGamepad16 => {},
        }
        match self.connection_state() {
            BleConnectionState::Connected => {},
            _ => {
                return PublishPlan::Reject(BlePublishError::NotReady);
            },
        }
        let wire = report.into_bytes();
        let data = [wire[1], wire[2], wire[3], wire[4], wire[5], wire[6], wire[7], wire[8], wire[9]];
        assert(data@ =~= report.wire().skip(1));
        PublishPlan::Send { handle: self.connection_handle, report_id: wire[0], data }
    }
}

/// The outcome of a send: a transport error when the stack refused it.
pub fn publish_result(sent: bool) -> (r: Result<(), BlePublishError>)
    ensures
        r == if sent {
            Ok::<(), BlePublishError>(())
        } else {
            Err(BlePublishError::Transport)
        },
{
    if sent {
        Ok(())
    } else {
        Err(BlePublishError::Transport)
    }
}

/// The initialization steps, in the order they run.
pub const BLE_INIT_STEPS: [BleInitStep; 8] = [
    BleInitStep::ControllerInit,
    BleInitStep::ControllerEnable,
    BleInitStep::BluedroidInit,
    BleInitStep::BluedroidEnable,
    BleInitStep::RegisterHidCallbacks,
    BleInitStep::HidProfileInit,
    BleInitStep::RegisterGapCallback,
    BleInitStep::ConfigureHidDevice,
];

/// The error a failed initialization step is reported with: controller
/// steps as controller errors, Bluedroid steps as Bluedroid errors, HID
/// steps as HID-device errors, and the GAP registration as an advertising
/// error.
pub fn init_step_error(step: BleInitStep) -> (r: BleInitError)
    ensures
        r == spec_init_step_error(step),
{
    match step {
        BleInitStep::ControllerInit => BleInitError::Controller,
        BleInitStep::ControllerEnable => BleInitError::Controller,
        BleInitStep::BluedroidInit => BleInitError::Bluedroid,
        BleInitStep::BluedroidEnable => BleInitError::Bluedroid,
        BleInitStep::RegisterHidCallbacks => BleInitError::HidDevice,
        BleInitStep::HidProfileInit => BleInitError::HidDevice,
        BleInitStep::RegisterGapCallback => BleInitError::Advertising,
        BleInitStep::ConfigureHidDevice => BleInitError::HidDevice,
    }
}

/// Every disconnection leads back to advertising: a disconnect forgets the
/// connection and asks to advertise, and once advertising starts the
/// backend reports advertising.
pub proof fn lemma_disconnect_readvertises(
    state: BleBackendState,
    after_disconnect: (BleBackendState, BackendAction),
    after_start: (BleBackendState, BackendAction),
)
    requires
        after_disconnect == state.spec_on_hid(HidDeviceEvent::Disconnected),
        after_start == after_disconnect.0.spec_on_gap(GapEvent::AdvertisingStarted { success: true }),
    ensures
        after_disconnect.1 == BackendAction::StartAdvertising,
        spec_reported_state(after_start.0.link) == BleConnectionState::Advertising,
        after_start.0.connection_handle == 0,
{
}

} // verus!
