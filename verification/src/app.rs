//! Application-layer coordinator: control-plane command handling, the USB
//! ingress pipeline from descriptor to BLE report, and the pumps that
//! service console and USB work one action at a time.
use vstd::prelude::*;
use vstd::string::StringSliceAdditionalSpecFns;
use crate::ble_hid::{
    encode_input_report_for_output_persona, output_persona_descriptor, spec_encode_for_persona,
    spec_persona_descriptor, BleConnectionState, BleInputReport, BleOutput, BlePersonaDescriptor,
    BlePersonaOutput, BlePublishError, EncodedBleInputReport,
};
use crate::console_uart::{
    decode_effect, queue_effect, CommandSource, ConsoleError, FrameBufferError,
    FramedConsoleBuffer, ResponseSink,
};
use crate::framing::{
    decode_command, encode_response, frame_holds, spec_decode_command, spec_response_text,
    EncodedFrame, FrameError,
};
use crate::hid_decode::{decode_report, spec_decode_entries, DecodeError, DecodedFieldValue, DecodedReport};
use crate::hid_descriptor::{
    parse_descriptor_summary, spec_parse_descriptor, DescriptorParseError, ReportDescriptorSummary,
};
use crate::messages::{
    BleLinkState, Command, DeviceInfo, DeviceStatus, ErrorCode, ProtocolVersion, Response,
    PROTOCOL_VERSION_MAJOR, PROTOCOL_VERSION_MINOR,
};
use crate::normalize::{
    normalize_decoded_report, spec_normalize_entries, NormalizeError, NormalizedJoystickState,
};
use crate::nvs_store::{BondStore, ProfileStore, StoreError};
use crate::profile::{spec_output_persona, OutputPersona, ProfileId, V1_PROFILE_ID};
use crate::runtime::{spec_report_from, GenericBleGamepad16Report, RuntimeState};
use crate::usb_host::{UsbDeviceId, UsbEvent, UsbIngress};

verus! {

/// The stable firmware application name.
pub const APP_NAME: &'static str = "usb2ble-fw";

/// The largest descriptor or report length carried by one USB event.
pub const USB_EVENT_BUFFER_LEN: usize = 64;

/// The deterministic lean v1 firmware coordinator.
#[derive(Debug, Clone, Copy, PartialEq, Eq)]
pub struct App {
    runtime: RuntimeState,
    active_device: Option<UsbDeviceId>,
    active_descriptor: Option<ReportDescriptorSummary>,
}

/// The result of servicing at most one console command.
#[derive(Debug, Clone, Copy, PartialEq, Eq)]
pub enum ServiceOutcome {
    /// No command was available.
    Idle,
    /// One command was handled and its response was sent.
    Responded(Response),
}

/// Errors that can occur while servicing the console.
#[derive(Debug, Clone, Copy, PartialEq, Eq)]
pub enum ServiceError {
    /// The console response path failed.
    Console(ConsoleError),
}

/// The result of servicing at most one framed console command.
#[derive(Debug, Clone, Copy, PartialEq, Eq)]
pub enum BufferedConsoleOutcome {
    /// No complete newline-terminated frame was available yet.
    Idle,
    /// One framed command was handled and its response was queued.
    Responded(Response),
}

/// Errors that can occur while servicing the framed console buffer path.
#[derive(Debug, Clone, Copy, PartialEq, Eq)]
pub enum BufferedConsoleError {
    /// The framed console buffer failed while decoding or queueing.
    Buffer(FrameBufferError),
}

/// Errors that can occur while servicing one raw protocol frame.
#[derive(Debug, Clone, Copy, PartialEq, Eq)]
pub enum FrameServiceError {
    /// The input frame could not be decoded into a typed command.
    Decode(FrameError),
    /// The typed response could not be encoded into a wire frame.
    Encode(FrameError),
}

/// The result of servicing one USB-side event.
#[derive(Debug, Clone, Copy, PartialEq, Eq)]
pub enum UsbServiceOutcome {
    /// The event did not apply to the currently active device or state.
    Ignored,
    /// A device became the active USB source.
    DeviceAttached {
        /// The unique device identifier.
        device_id: UsbDeviceId,
        /// The vendor ID of the device.
        vendor_id: u16,
        /// The product ID of the device.
        product_id: u16,
    },
    /// A descriptor was parsed and stored for the active device.
    DescriptorStored {
        /// The descriptor source device.
        device_id: UsbDeviceId,
        /// The number of parsed fields stored in the summary.
        field_count: usize,
    },
    /// One input report was decoded, normalized, and applied to runtime state.
    InputApplied(GenericBleGamepad16Report),
    /// The active USB device was detached.
    DeviceDetached(UsbDeviceId),
}

/// Errors that can occur while servicing one USB-side event.
#[derive(Debug, Clone, Copy, PartialEq, Eq)]
pub enum UsbServiceError {
    /// A USB event reported a buffer length larger than the fixed event buffer.
    InvalidBufferLength {
        /// The invalid reported length.
        len: usize,
        /// The maximum supported fixed buffer length.
        max: usize,
    },
    /// Parsing a report descriptor failed.
    DescriptorParse(DescriptorParseError),
    /// Decoding an input report failed.
    ReportDecode(DecodeError),
    /// Normalizing a decoded report failed.
    Normalize(NormalizeError),
}

/// The result of servicing at most one USB ingress event.
#[derive(Debug, Clone, Copy, PartialEq, Eq)]
pub enum UsbPumpOutcome {
    /// No USB event was available.
    Idle,
    /// One non-publishing USB event was handled.
    Handled(UsbServiceOutcome),
    /// One input report was handled and the current BLE report was published.
    Published(GenericBleGamepad16Report),
}

/// Errors that can occur while servicing at most one USB ingress event.
#[derive(Debug, Clone, Copy, PartialEq, Eq)]
pub enum UsbPumpError {
    /// Handling the USB event failed before BLE publication.
    Usb(UsbServiceError),
    /// Publishing the current BLE report failed.
    Ble(BlePublishError),
}

/// The result of servicing at most one persona-oriented USB ingress event.
#[derive(Debug, Clone, Copy, PartialEq, Eq)]
pub enum UsbPersonaPumpOutcome {
    /// No USB event was available.
    Idle,
    /// One non-publishing USB event was handled.
    Handled(UsbServiceOutcome),
    /// One input report was handled and the current persona-encoded BLE report was published.
    Published {
        /// The decoded and normalized input report.
        report: GenericBleGamepad16Report,
        /// The active output persona used for encoding.
        persona: OutputPersona,
        /// The persona-encoded BLE report that was published.
        encoded: EncodedBleInputReport,
    },
}

/// Errors that can occur while servicing at most one persona-oriented USB ingress event.
#[derive(Debug, Clone, Copy, PartialEq, Eq)]
pub enum UsbPersonaPumpError {
    /// Handling the USB event failed before BLE publication.
    Usb(UsbServiceError),
    /// Publishing the persona-encoded BLE report failed.
    Ble(BlePublishError),
}

/// The result of servicing at most one top-level application action.
#[derive(Debug, Clone, Copy, PartialEq, Eq)]
pub enum AppPumpOutcome {
    /// Neither console nor USB had work to do.
    Idle,
    /// One console action was serviced.
    Console(ServiceOutcome),
    /// One USB-side action was serviced.
    Usb(UsbPumpOutcome),
}

/// Errors that can occur while servicing at most one top-level application action.
#[derive(Debug, Clone, Copy, PartialEq, Eq)]
pub enum AppPumpError {
    /// Console-side servicing failed.
    Console(ServiceError),
    /// USB-side servicing failed.
    Usb(UsbPumpError),
}

/// The result of servicing at most one top-level buffered-console or USB action.
#[derive(Debug, Clone, Copy, PartialEq, Eq)]
pub enum BufferedPersonaAppPumpOutcome {
    /// Neither buffered console nor USB had work to do.
    Idle,
    /// One buffered console action was serviced.
    Console(BufferedConsoleOutcome),
    /// One USB-side action was serviced.
    Usb(UsbPersonaPumpOutcome),
}

/// Errors that can occur while servicing at most one buffered-console or USB action.
#[derive(Debug, Clone, Copy, PartialEq, Eq)]
pub enum BufferedPersonaAppPumpError {
    /// Buffered console-side servicing failed.
    Console(BufferedConsoleError),
    /// USB-side servicing failed.
    Usb(UsbPersonaPumpError),
}

/// The result of servicing at most one top-level console or USB action.
#[derive(Debug, Clone, Copy, PartialEq, Eq)]
pub enum PersonaAppPumpOutcome {
    /// Neither console nor USB had work to do.
    Idle,
    /// One console action was serviced.
    Console(ServiceOutcome),
    /// One USB-side action was serviced.
    Usb(UsbPersonaPumpOutcome),
}

/// Errors that can occur while servicing at most one console or USB action.
#[derive(Debug, Clone, Copy, PartialEq, Eq)]
pub enum PersonaAppPumpError {
    /// Console-side servicing failed.
    Console(ServiceError),
    /// USB-side servicing failed.
    Usb(UsbPersonaPumpError),
}

/// The result of servicing at most one top-level buffered-console or USB action.
#[derive(Debug, Clone, Copy, PartialEq, Eq)]
pub enum BufferedAppPumpOutcome {
    /// Neither buffered console nor USB had work to do.
    Idle,
    /// One buffered console action was serviced.
    Console(BufferedConsoleOutcome),
    /// One USB-side action was serviced.
    Usb(UsbPumpOutcome),
}

/// Errors that can occur while servicing at most one buffered-console or USB action.
#[derive(Debug, Clone, Copy, PartialEq, Eq)]
pub enum BufferedAppPumpError {
    /// Buffered console-side servicing failed.
    Console(BufferedConsoleError),
    /// USB-side servicing failed.
    Usb(UsbPumpError),
}

/// Errors reserved for future stricter bootstrap policy.
#[derive(Debug, Clone, Copy, PartialEq, Eq, Structural)]
pub enum BootstrapError {
    /// The platform profile store could not be opened.
    UnavailableProfileStore,
}

// ---------------------------------------------------------------------------
// Specification of the control plane
// ---------------------------------------------------------------------------
/// The protocol link state reported for a BLE connection state; a persona
/// that failed to initialize is reported as idle.
pub open spec fn spec_link_state(state: BleConnectionState) -> BleLinkState {
    match state {
        BleConnectionState::Idle => BleLinkState::Idle,
        BleConnectionState::Advertising => BleLinkState::Advertising,
        BleConnectionState::Connected => BleLinkState::Connected,
        BleConnectionState::InitializationFailed => BleLinkState::Idle,
    }
}

/// The device information reported under `profile`.
pub open spec fn spec_device_info(profile: ProfileId) -> DeviceInfo {
    DeviceInfo {
        protocol_version: ProtocolVersion {
            major: PROTOCOL_VERSION_MAJOR,
            minor: PROTOCOL_VERSION_MINOR,
        },
        firmware_name: APP_NAME,
        active_profile: profile,
        output_persona: spec_output_persona(profile),
    }
}

/// The device status reported under `profile`, a BLE state and a bond answer.
pub open spec fn spec_device_status(
    profile: ProfileId,
    ble_state: BleConnectionState,
    bonds_present: bool,
) -> DeviceStatus {
    DeviceStatus {
        active_profile: profile,
        output_persona: spec_output_persona(profile),
        ble_link_state: spec_link_state(ble_state),
        bonds_present,
    }
}

/// The response owed to a storage write's result.
pub open spec fn spec_store_response(result: Result<(), StoreError>) -> Response {
    match result {
        Ok(()) => Response::Ack,
        Err(_) => Response::Error(ErrorCode::Internal),
    }
}

/// The input report that a normalized state renders to, as carried by the
/// BLE layer.
pub open spec fn spec_ble_input(state: NormalizedJoystickState) -> BleInputReport {
    BleInputReport::GenericBleGamepad16(spec_report_from(state))
}

/// Whether handling `command` may take the coordinator from `before` to
/// `after`, the stores from their `_before` to their `_after` values, and
/// answer `response`.
pub open spec fn command_effect<P: ProfileStore, B: BondStore>(
    before: App,
    after: App,
    command: Command,
    profile_before: P,
    profile_after: P,
    bonds_before: B,
    bonds_after: B,
    ble_state: BleConnectionState,
    response: Response,
) -> bool {
    match command {
        Command::SetProfile { profile } => {
            &&& after.profile() == profile
            &&& after.input() == before.input()
            &&& after.device() == before.device()
            &&& after.descriptor() == before.descriptor()
            &&& bonds_after == bonds_before
            &&& exists|result: Result<(), StoreError>|
                #[trigger] profile_before.store_effect(&profile_after, profile, result)
                    && response == spec_store_response(result)
        },
        Command::ForgetBonds => {
            &&& after == before
            &&& profile_after == profile_before
            &&& exists|result: Result<(), StoreError>|
                #[trigger] bonds_before.clear_effect(&bonds_after, result) && response
                    == spec_store_response(result)
        },
        _ => {
            &&& after == before
            &&& profile_after == profile_before
            &&& bonds_after == bonds_before
            &&& match command {
                Command::GetInfo => response == Response::Info(spec_device_info(before.profile())),
                Command::GetStatus => response matches Response::Status(status) && status
                    == spec_device_status(before.profile(), ble_state, status.bonds_present)
                    && bonds_before.bonds_result(status.bonds_present),
                Command::GetProfile => response == (Response::Profile {
                    active_profile: before.profile(),
                }),
                _ => response == Response::Ack,
            }
        },
    }
}

/// Every response the coordinator gives fits in one protocol frame.
pub open spec fn fits_frame(response: Response) -> bool {
    spec_response_text(response).len() <= 96
}


// ---------------------------------------------------------------------------
// Specification of the USB pipeline
// ---------------------------------------------------------------------------
/// Decoded values seen as the entries of a decoded report.
pub open spec fn decoded_entries(values: Seq<DecodedFieldValue>) -> Seq<Option<DecodedFieldValue>> {
    values.map_values(|value: DecodedFieldValue| Some(value))
}

/// The normalized input carried by `payload` under `summary`, or the first
/// decoding or normalization error.
pub open spec fn decoded_input(
    summary: ReportDescriptorSummary,
    report_id: u8,
    payload: Seq<u8>,
) -> Result<NormalizedJoystickState, UsbServiceError> {
    match spec_decode_entries(summary.entries(), report_id, payload) {
        Err(e) => Err(UsbServiceError::ReportDecode(e)),
        Ok(values) => match spec_normalize_entries(decoded_entries(values)) {
            Err(e) => Err(UsbServiceError::Normalize(e)),
            Ok(state) => Ok(state),
        },
    }
}

/// The outcome of handling `event` in state `before`.
pub open spec fn usb_outcome(before: App, event: UsbEvent) -> Result<
    UsbServiceOutcome,
    UsbServiceError,
> {
    match event {
        UsbEvent::DeviceAttached(meta) => Ok(
            UsbServiceOutcome::DeviceAttached {
                device_id: meta.device_id,
                vendor_id: meta.vendor_id,
                product_id: meta.product_id,
            },
        ),
        UsbEvent::ReportDescriptorReceived { device_id, bytes, len } => {
            if len > 64 {
                Err(UsbServiceError::InvalidBufferLength { len, max: 64 })
            } else if before.device() != Some(device_id) {
                Ok(UsbServiceOutcome::Ignored)
            } else {
                match spec_parse_descriptor(bytes@.take(len as int)) {
                    Ok(fields) => Ok(
                        UsbServiceOutcome::DescriptorStored {
                            device_id,
                            field_count: fields.len() as usize,
                        },
                    ),
                    Err(e) => Err(UsbServiceError::DescriptorParse(e)),
                }
            }
        },
        UsbEvent::InputReportReceived { device_id, report_id, bytes, len } => {
            if len > 64 {
                Err(UsbServiceError::InvalidBufferLength { len, max: 64 })
            } else if before.device() != Some(device_id) {
                Ok(UsbServiceOutcome::Ignored)
            } else {
                match before.descriptor() {
                    None => Ok(UsbServiceOutcome::Ignored),
                    Some(summary) => match decoded_input(
                        summary,
                        report_id,
                        bytes@.take(len as int),
                    ) {
                        Ok(state) => Ok(UsbServiceOutcome::InputApplied(spec_report_from(state))),
                        Err(e) => Err(e),
                    },
                }
            }
        },
        UsbEvent::DeviceDetached(device_id) => {
            if before.device() != Some(device_id) {
                Ok(UsbServiceOutcome::Ignored)
            } else {
                Ok(UsbServiceOutcome::DeviceDetached(device_id))
            }
        },
        UsbEvent::InputTransferStopped(_) => Ok(UsbServiceOutcome::Ignored),
    }
}

/// Whether `after` is `before` with the active device replaced by `device`,
/// no descriptor and centered input.
pub open spec fn device_reset(before: App, after: App, device: Option<UsbDeviceId>) -> bool {
    &&& after.profile() == before.profile()
    &&& after.input() == NormalizedJoystickState::centered()
    &&& after.device() == device
    &&& after.descriptor() is None
}

/// Whether handling `event` takes the coordinator from `before` to `after`:
/// an event that fails or is ignored changes nothing.
pub open spec fn usb_transition(before: App, after: App, event: UsbEvent) -> bool {
    match usb_outcome(before, event) {
        Err(_) => after == before,
        Ok(UsbServiceOutcome::Ignored) => after == before,
        Ok(UsbServiceOutcome::DeviceAttached { device_id, .. }) => device_reset(
            before,
            after,
            Some(device_id),
        ),
        Ok(UsbServiceOutcome::DeviceDetached(_)) => device_reset(before, after, None),
        Ok(UsbServiceOutcome::DescriptorStored { .. }) => match event {
            UsbEvent::ReportDescriptorReceived { bytes, len, .. } => {
                &&& after.runtime_state() == before.runtime_state()
                &&& after.device() == before.device()
                &&& after.descriptor() matches Some(summary) && summary.wf()
                    && spec_parse_descriptor(bytes@.take(len as int)) == Ok::<
                    Seq<crate::hid_descriptor::ReportField>,
                    DescriptorParseError,
                >(summary.model())
            },
            _ => false,
        },
        Ok(UsbServiceOutcome::InputApplied(_)) => match (event, before.descriptor()) {
            (UsbEvent::InputReportReceived { report_id, bytes, len, .. }, Some(summary)) => {
                &&& after.profile() == before.profile()
                &&& after.device() == before.device()
                &&& after.descriptor() == before.descriptor()
                &&& decoded_input(summary, report_id, bytes@.take(len as int)) == Ok::<
                    NormalizedJoystickState,
                    UsbServiceError,
                >(after.input())
            },
            _ => false,
        },
    }
}

/// Whether one USB pump step may take the coordinator, the ingress and the
/// BLE output from their `_before` to their `_after` values and answer `r`:
/// the polled event is handled, and an applied input is published.
pub open spec fn usb_pump_effect<I: UsbIngress, O: BleOutput>(
    before: App,
    after: App,
    ingress_before: I,
    ingress_after: I,
    output_before: O,
    output_after: O,
    r: Result<UsbPumpOutcome, UsbPumpError>,
) -> bool {
    exists|event: Option<UsbEvent>|
        #[trigger] ingress_before.poll_effect(&ingress_after, event) && match event {
            None => r == Ok::<UsbPumpOutcome, UsbPumpError>(UsbPumpOutcome::Idle) && after == before
                && output_after == output_before,
            Some(event) => usb_transition(before, after, event) && match usb_outcome(
                before,
                event,
            ) {
                Err(e) => r == Err::<UsbPumpOutcome, UsbPumpError>(UsbPumpError::Usb(e))
                    && output_after == output_before,
                Ok(UsbServiceOutcome::InputApplied(report)) => exists|
                    published: Result<(), BlePublishError>,
                |
                    #[trigger] output_before.publish_effect(&output_after, report, published)
                        && r == match published {
                        Ok(()) => Ok::<UsbPumpOutcome, UsbPumpError>(
                            UsbPumpOutcome::Published(report),
                        ),
                        Err(e) => Err(UsbPumpError::Ble(e)),
                    },
                Ok(outcome) => r == Ok::<UsbPumpOutcome, UsbPumpError>(
                    UsbPumpOutcome::Handled(outcome),
                ) && output_after == output_before,
            },
        }
}

/// Whether one persona USB pump step may take the coordinator, the ingress
/// and the BLE output from their `_before` to their `_after` values and
/// answer `r`: the polled event is handled, and an applied input is
/// published encoded for the active persona.
pub open spec fn usb_persona_pump_effect<I: UsbIngress, O: BlePersonaOutput>(
    before: App,
    after: App,
    ingress_before: I,
    ingress_after: I,
    output_before: O,
    output_after: O,
    r: Result<UsbPersonaPumpOutcome, UsbPersonaPumpError>,
) -> bool {
    exists|event: Option<UsbEvent>|
        #[trigger] ingress_before.poll_effect(&ingress_after, event) && match event {
            None => r == Ok::<UsbPersonaPumpOutcome, UsbPersonaPumpError>(
                UsbPersonaPumpOutcome::Idle,
            ) && after == before && output_after == output_before,
            Some(event) => usb_transition(before, after, event) && match usb_outcome(
                before,
                event,
            ) {
                Err(e) => r == Err::<UsbPersonaPumpOutcome, UsbPersonaPumpError>(
                    UsbPersonaPumpError::Usb(e),
                ) && output_after == output_before,
                Ok(UsbServiceOutcome::InputApplied(report)) => exists|
                    encoded: EncodedBleInputReport,
                    published: Result<(), BlePublishError>,
                |
                    encoded.wire() == after.current_wire() && #[trigger] output_before.publish_effect(
                        &output_after,
                        after.persona(),
                        encoded,
                        published,
                    ) && r == match published {
                        Ok(()) => Ok::<UsbPersonaPumpOutcome, UsbPersonaPumpError>(
                            UsbPersonaPumpOutcome::Published {
                                report,
                                persona: after.persona(),
                                encoded,
                            },
                        ),
                        Err(e) => Err(UsbPersonaPumpError::Ble(e)),
                    },
                Ok(outcome) => r == Ok::<UsbPersonaPumpOutcome, UsbPersonaPumpError>(
                    UsbPersonaPumpOutcome::Handled(outcome),
                ) && output_after == output_before,
            },
        }
}


// ---------------------------------------------------------------------------
// Specification of the console pumps
// ---------------------------------------------------------------------------
/// Whether servicing one console command may take the coordinator, the
/// command source, the response sink and the stores from their `_before` to
/// their `_after` values and answer `r`: the polled command is handled and
/// its response sent.
pub open spec fn console_effect<S: CommandSource, K: ResponseSink, P: ProfileStore, B: BondStore>(
    before: App,
    after: App,
    source_before: S,
    source_after: S,
    sink_before: K,
    sink_after: K,
    profile_before: P,
    profile_after: P,
    bonds_before: B,
    bonds_after: B,
    ble_state: BleConnectionState,
    r: Result<ServiceOutcome, ServiceError>,
) -> bool {
    exists|command: Option<Command>|
        #[trigger] source_before.poll_effect(&source_after, command) && match command {
            None => {
                &&& r == Ok::<ServiceOutcome, ServiceError>(ServiceOutcome::Idle)
                &&& after == before
                &&& sink_after == sink_before
                &&& profile_after == profile_before
                &&& bonds_after == bonds_before
            },
            Some(command) => exists|response: Response, sent: Result<(), ConsoleError>|
                command_effect(
                    before,
                    after,
                    command,
                    profile_before,
                    profile_after,
                    bonds_before,
                    bonds_after,
                    ble_state,
                    response,
                ) && #[trigger] sink_before.send_effect(&sink_after, response, sent) && r
                    == match sent {
                    Ok(()) => Ok::<ServiceOutcome, ServiceError>(ServiceOutcome::Responded(response)),
                    Err(e) => Err(ServiceError::Console(e)),
                },
        }
}

/// Whether servicing one buffered frame may take the coordinator, the
/// console buffer and the stores from their `_before` to their `_after`
/// values and answer `r`: one frame is decoded and dropped from RX, the
/// command is handled and its response queued on TX.
pub open spec fn buffered_console_effect<P: ProfileStore, B: BondStore>(
    before: App,
    after: App,
    buffer_before: FramedConsoleBuffer,
    buffer_after: FramedConsoleBuffer,
    profile_before: P,
    profile_after: P,
    bonds_before: B,
    bonds_after: B,
    ble_state: BleConnectionState,
    r: Result<BufferedConsoleOutcome, BufferedConsoleError>,
) -> bool {
    exists|decoded: Result<Option<Command>, FrameBufferError>, drained: FramedConsoleBuffer|
        #[trigger] decode_effect(buffer_before, drained, decoded) && match decoded {
            Err(e) => {
                &&& r == Err::<BufferedConsoleOutcome, BufferedConsoleError>(
                    BufferedConsoleError::Buffer(e),
                )
                &&& after == before
                &&& buffer_after == drained
                &&& profile_after == profile_before
                &&& bonds_after == bonds_before
            },
            Ok(None) => {
                &&& r == Ok::<BufferedConsoleOutcome, BufferedConsoleError>(
                    BufferedConsoleOutcome::Idle,
                )
                &&& after == before
                &&& buffer_after == drained
                &&& profile_after == profile_before
                &&& bonds_after == bonds_before
            },
            Ok(Some(command)) => exists|response: Response, queued: Result<(), FrameBufferError>|
                command_effect(
                    before,
                    after,
                    command,
                    profile_before,
                    profile_after,
                    bonds_before,
                    bonds_after,
                    ble_state,
                    response,
                ) && #[trigger] queue_effect(drained, buffer_after, response, queued) && r
                    == match queued {
                    Ok(()) => Ok::<BufferedConsoleOutcome, BufferedConsoleError>(
                        BufferedConsoleOutcome::Responded(response),
                    ),
                    Err(e) => Err(BufferedConsoleError::Buffer(e)),
                },
        }
}


// ---------------------------------------------------------------------------
// Specification of the combined pumps
// ---------------------------------------------------------------------------
/// Whether one combined step, console first and USB only when the console is
/// idle, may lead from the `_before` to the `_after` values and answer `r`.
pub open spec fn app_pump_effect<S: CommandSource, K: ResponseSink, P: ProfileStore, B: BondStore, I: UsbIngress, O: BleOutput>(
    before: App,
    after: App,
    source_before: S,
    source_after: S,
    sink_before: K,
    sink_after: K,
    profile_before: P,
    profile_after: P,
    bonds_before: B,
    bonds_after: B,
    ble_state: BleConnectionState,
    ingress_before: I,
    ingress_after: I,
    output_before: O,
    output_after: O,
    r: Result<AppPumpOutcome, AppPumpError>,
) -> bool {
    exists|mid: App, console: Result<ServiceOutcome, ServiceError>|
        #[trigger] console_effect(
            before,
            mid,
            source_before,
            source_after,
            sink_before,
            sink_after,
            profile_before,
            profile_after,
            bonds_before,
            bonds_after,
            ble_state,
            console,
        )
            && match console {
            Err(e) => {
                &&& r == Err::<AppPumpOutcome, AppPumpError>(AppPumpError::Console(e))
                &&& after == mid
                &&& ingress_after == ingress_before
                &&& output_after == output_before
            },
            Ok(ServiceOutcome::Responded(response)) => {
                &&& r == Ok::<AppPumpOutcome, AppPumpError>(
                    AppPumpOutcome::Console(ServiceOutcome::Responded(response)),
                )
                &&& after == mid
                &&& ingress_after == ingress_before
                &&& output_after == output_before
            },
            Ok(ServiceOutcome::Idle) => exists|usb: Result<UsbPumpOutcome, UsbPumpError>|
                #[trigger] usb_pump_effect(
                    mid,
                    after,
                    ingress_before,
                    ingress_after,
                    output_before,
                    output_after,
                    usb,
                ) && r == match usb {
                    Ok(outcome) => Ok::<AppPumpOutcome, AppPumpError>(AppPumpOutcome::Usb(outcome)),
                    Err(e) => Err(AppPumpError::Usb(e)),
                },
        }
}

/// Whether one combined step, console first and the persona USB pump only
/// when the console is idle, may lead from the `_before` to the `_after`
/// values and answer `r`.
pub open spec fn persona_app_pump_effect<S: CommandSource, K: ResponseSink, P: ProfileStore, B: BondStore, I: UsbIngress, O: BlePersonaOutput>(
    before: App,
    after: App,
    source_before: S,
    source_after: S,
    sink_before: K,
    sink_after: K,
    profile_before: P,
    profile_after: P,
    bonds_before: B,
    bonds_after: B,
    ble_state: BleConnectionState,
    ingress_before: I,
    ingress_after: I,
    output_before: O,
    output_after: O,
    r: Result<PersonaAppPumpOutcome, PersonaAppPumpError>,
) -> bool {
    exists|mid: App, console: Result<ServiceOutcome, ServiceError>|
        #[trigger] console_effect(
            before,
            mid,
            source_before,
            source_after,
            sink_before,
            sink_after,
            profile_before,
            profile_after,
            bonds_before,
            bonds_after,
            ble_state,
            console,
        )
            && match console {
            Err(e) => {
                &&& r == Err::<PersonaAppPumpOutcome, PersonaAppPumpError>(PersonaAppPumpError::Console(e))
                &&& after == mid
                &&& ingress_after == ingress_before
                &&& output_after == output_before
            },
            Ok(ServiceOutcome::Responded(response)) => {
                &&& r == Ok::<PersonaAppPumpOutcome, PersonaAppPumpError>(
                    PersonaAppPumpOutcome::Console(ServiceOutcome::Responded(response)),
                )
                &&& after == mid
                &&& ingress_after == ingress_before
                &&& output_after == output_before
            },
            Ok(ServiceOutcome::Idle) => exists|usb: Result<UsbPersonaPumpOutcome, UsbPersonaPumpError>|
                #[trigger] usb_persona_pump_effect(
                    mid,
                    after,
                    ingress_before,
                    ingress_after,
                    output_before,
                    output_after,
                    usb,
                ) && r == match usb {
                    Ok(outcome) => Ok::<PersonaAppPumpOutcome, PersonaAppPumpError>(PersonaAppPumpOutcome::Usb(outcome)),
                    Err(e) => Err(PersonaAppPumpError::Usb(e)),
                },
        }
}

/// Whether one combined step, buffered console first and USB only when no
/// frame is buffered, may lead from the `_before` to the `_after` values and
/// answer `r`.
pub open spec fn buffered_app_pump_effect<P: ProfileStore, B: BondStore, I: UsbIngress, O: BleOutput>(
    before: App,
    after: App,
    buffer_before: FramedConsoleBuffer,
    buffer_after: FramedConsoleBuffer,
    profile_before: P,
    profile_after: P,
    bonds_before: B,
    bonds_after: B,
    ble_state: BleConnectionState,
    ingress_before: I,
    ingress_after: I,
    output_before: O,
    output_after: O,
    r: Result<BufferedAppPumpOutcome, BufferedAppPumpError>,
) -> bool {
    exists|mid: App, console: Result<BufferedConsoleOutcome, BufferedConsoleError>|
        #[trigger] buffered_console_effect(
            before,
            mid,
            buffer_before,
            buffer_after,
            profile_before,
            profile_after,
            bonds_before,
            bonds_after,
            ble_state,
            console,
        )
            && match console {
            Err(e) => {
                &&& r == Err::<BufferedAppPumpOutcome, BufferedAppPumpError>(BufferedAppPumpError::Console(e))
                &&& after == mid
                &&& ingress_after == ingress_before
                &&& output_after == output_before
            },
            Ok(BufferedConsoleOutcome::Responded(response)) => {
                &&& r == Ok::<BufferedAppPumpOutcome, BufferedAppPumpError>(
                    BufferedAppPumpOutcome::Console(BufferedConsoleOutcome::Responded(response)),
                )
                &&& after == mid
                &&& ingress_after == ingress_before
                &&& output_after == output_before
            },
            Ok(BufferedConsoleOutcome::Idle) => exists|usb: Result<UsbPumpOutcome, UsbPumpError>|
                #[trigger] usb_pump_effect(
                    mid,
                    after,
                    ingress_before,
                    ingress_after,
                    output_before,
                    output_after,
                    usb,
                ) && r == match usb {
                    Ok(outcome) => Ok::<BufferedAppPumpOutcome, BufferedAppPumpError>(BufferedAppPumpOutcome::Usb(outcome)),
                    Err(e) => Err(BufferedAppPumpError::Usb(e)),
                },
        }
}

/// Whether one combined step, buffered console first and the persona USB
/// pump only when no frame is buffered, may lead from the `_before` to the
/// `_after` values and answer `r`.
pub open spec fn buffered_persona_app_pump_effect<P: ProfileStore, B: BondStore, I: UsbIngress, O: BlePersonaOutput>(
    before: App,
    after: App,
    buffer_before: FramedConsoleBuffer,
    buffer_after: FramedConsoleBuffer,
    profile_before: P,
    profile_after: P,
    bonds_before: B,
    bonds_after: B,
    ble_state: BleConnectionState,
    ingress_before: I,
    ingress_after: I,
    output_before: O,
    output_after: O,
    r: Result<BufferedPersonaAppPumpOutcome, BufferedPersonaAppPumpError>,
) -> bool {
    exists|mid: App, console: Result<BufferedConsoleOutcome, BufferedConsoleError>|
        #[trigger] buffered_console_effect(
            before,
            mid,
            buffer_before,
            buffer_after,
            profile_before,
            profile_after,
            bonds_before,
            bonds_after,
            ble_state,
            console,
        )
            && match console {
            Err(e) => {
                &&& r == Err::<BufferedPersonaAppPumpOutcome, BufferedPersonaAppPumpError>(BufferedPersonaAppPumpError::Console(e))
                &&& after == mid
                &&& ingress_after == ingress_before
                &&& output_after == output_before
            },
            Ok(BufferedConsoleOutcome::Responded(response)) => {
                &&& r == Ok::<BufferedPersonaAppPumpOutcome, BufferedPersonaAppPumpError>(
                    BufferedPersonaAppPumpOutcome::Console(BufferedConsoleOutcome::Responded(response)),
                )
                &&& after == mid
                &&& ingress_after == ingress_before
                &&& output_after == output_before
            },
            Ok(BufferedConsoleOutcome::Idle) => exists|usb: Result<UsbPersonaPumpOutcome, UsbPersonaPumpError>|
                #[trigger] usb_persona_pump_effect(
                    mid,
                    after,
                    ingress_before,
                    ingress_after,
                    output_before,
                    output_after,
                    usb,
                ) && r == match usb {
                    Ok(outcome) => Ok::<BufferedPersonaAppPumpOutcome, BufferedPersonaAppPumpError>(BufferedPersonaAppPumpOutcome::Usb(outcome)),
                    Err(e) => Err(BufferedPersonaAppPumpError::Usb(e)),
                },
        }
}

impl App {
    #[verifier::type_invariant]
    spec fn stored_descriptor_wf(self) -> bool {
        self.active_descriptor matches Some(summary) ==> summary.wf()
    }

    /// The runtime state: active profile and last normalized input.
    pub closed spec fn runtime_state(self) -> RuntimeState {
        self.runtime
    }

    /// The active USB device, if one is attached.
    pub closed spec fn device(self) -> Option<UsbDeviceId> {
        self.active_device
    }

    /// The descriptor summary stored for the active device, if any.
    pub closed spec fn descriptor(self) -> Option<ReportDescriptorSummary> {
        self.active_descriptor
    }

    /// The active profile.
    pub open spec fn profile(self) -> ProfileId {
        self.runtime_state().profile()
    }

    /// The last normalized input.
    pub open spec fn input(self) -> NormalizedJoystickState {
        self.runtime_state().input()
    }

    /// The output persona implied by the active profile.
    pub open spec fn persona(self) -> OutputPersona {
        spec_output_persona(self.profile())
    }

    /// The wire bytes of the current input under the active persona.
    pub open spec fn current_wire(self) -> Seq<u8> {
        spec_encode_for_persona(self.persona(), spec_ble_input(self.input()))
    }

    /// A coordinator is determined by its runtime state, device and descriptor.
    pub proof fn lemma_observations_determine_app(a: Self, b: Self)
        requires
            a.runtime_state() == b.runtime_state(),
            a.device() == b.device(),
            a.descriptor() == b.descriptor(),
        ensures
            a == b,
    {
    }

    /// Creates an application coordinator with the requested active profile.
    pub fn new(active_profile: ProfileId) -> (r: Self)
        ensures
            r.profile() == active_profile,
            r.input() == NormalizedJoystickState::centered(),
            r.device() is None,
            r.descriptor() is None,
    {
        App { runtime: RuntimeState::new(active_profile), active_device: None, active_descriptor: None }
    }

    /// Boots the application coordinator from persisted profile state,
    /// falling back to the v1 profile when nothing is persisted.
    pub fn bootstrap<P: ProfileStore>(profile_store: &P) -> (r: Self)
        ensures
            exists|loaded: Option<ProfileId>|
                #[trigger] profile_store.load_result(loaded) && r.profile() == match loaded {
                    Some(profile) => profile,
                    None => V1_PROFILE_ID,
                },
            r.input() == NormalizedJoystickState::centered(),
            r.device() is None,
            r.descriptor() is None,
    {
        let loaded = profile_store.load_active_profile();
        let active_profile = match loaded {
            Some(profile) => profile,
            None => V1_PROFILE_ID,
        };
        Self::new(active_profile)
    }

    /// Returns the current runtime state snapshot.
    pub fn runtime(&self) -> (r: RuntimeState)
        ensures
            r == self.runtime_state(),
    {
        self.runtime
    }

    /// Returns the currently active USB device, if one is attached.
    pub fn active_device(&self) -> (r: Option<UsbDeviceId>)
        ensures
            r == self.device(),
    {
        self.active_device
    }

    /// Returns the currently stored active report descriptor summary, if any.
    pub fn active_descriptor(&self) -> (r: Option<ReportDescriptorSummary>)
        ensures
            r == self.descriptor(),
            r matches Some(summary) ==> summary.wf(),
    {
        proof {
            use_type_invariant(self);
        }
        self.active_descriptor
    }

    /// Replaces the current normalized input snapshot.
    pub fn update_input(&mut self, state: NormalizedJoystickState)
        ensures
            final(self).input() == state,
            final(self).profile() == old(self).profile(),
            final(self).device() == old(self).device(),
            final(self).descriptor() == old(self).descriptor(),
    {
        proof {
            use_type_invariant(&*self);
        }
        let mut runtime = self.runtime;
        runtime.update_input(state);
        self.runtime = runtime;
    }

    /// Clears the current normalized input snapshot back to default.
    pub fn clear_input(&mut self)
        ensures
            final(self).input() == NormalizedJoystickState::centered(),
            final(self).profile() == old(self).profile(),
            final(self).device() == old(self).device(),
            final(self).descriptor() == old(self).descriptor(),
    {
        proof {
            use_type_invariant(&*self);
        }
        let mut runtime = self.runtime;
        runtime.clear_input();
        self.runtime = runtime;
    }

    /// Returns the active output persona implied by the current runtime profile.
    pub fn current_output_persona(&self) -> (r: OutputPersona)
        ensures
            r == self.persona(),
    {
        self.runtime.active_profile().output_persona()
    }

    /// Returns the BLE persona descriptor for the current output persona.
    pub fn current_ble_persona_descriptor(&self) -> (r: BlePersonaDescriptor)
        ensures
            spec_persona_descriptor(r, self.persona()),
    {
        output_persona_descriptor(self.current_output_persona())
    }

    /// Returns the currently encoded BLE input report for the active persona.
    pub fn current_encoded_ble_input_report(&self) -> (r: EncodedBleInputReport)
        ensures
            r.wire() == self.current_wire(),
    {
        encode_input_report_for_output_persona(
            self.current_output_persona(),
            BleInputReport::GenericBleGamepad16(self.runtime.current_report()),
        )
    }

    /// Returns typed device information for the current application state.
    pub fn device_info(&self) -> (r: DeviceInfo)
        ensures
            r == spec_device_info(self.profile()),
    {
        let active_profile = self.runtime.active_profile();
        DeviceInfo {
            protocol_version: ProtocolVersion::current(),
            firmware_name: APP_NAME,
            active_profile,
            output_persona: active_profile.output_persona(),
        }
    }

    /// Returns typed device status for the current application state.
    pub fn device_status<B: BondStore>(&self, ble_state: BleConnectionState, bond_store: &B) -> (r:
        DeviceStatus)
        ensures
            r == spec_device_status(self.profile(), ble_state, r.bonds_present),
            bond_store.bonds_result(r.bonds_present),
    {
        let active_profile = self.runtime.active_profile();
        DeviceStatus {
            active_profile,
            output_persona: active_profile.output_persona(),
            ble_link_state: map_ble_link_state(ble_state),
            bonds_present: bond_store.bonds_present(),
        }
    }

    /// Handles a typed protocol command against the current application state.
    pub fn handle_command<P: ProfileStore, B: BondStore>(
        &mut self,
        command: Command,
        profile_store: &mut P,
        bond_store: &mut B,
        ble_state: BleConnectionState,
    ) -> (r: Response)
        ensures
            command_effect(
                *old(self),
                *final(self),
                command,
                *old(profile_store),
                *final(profile_store),
                *old(bond_store),
                *final(bond_store),
                ble_state,
                r,
            ),
            fits_frame(r),
    {
        proof {
            use_type_invariant(&*self);
        }
        let response = match command {
            Command::GetInfo => Response::Info(self.device_info()),
            Command::GetStatus => Response::Status(self.device_status(ble_state, &*bond_store)),
            Command::GetProfile => Response::Profile { active_profile: self.runtime.active_profile() },
            Command::SetProfile { profile } => {
                let mut runtime = self.runtime;
                runtime.set_active_profile(profile);
                self.runtime = runtime;
                let result = profile_store.store_active_profile(profile);
                match result {
                    Ok(()) => Response::Ack,
                    Err(_) => Response::Error(ErrorCode::Internal),
                }
            },
            Command::Reboot => Response::Ack,
            Command::ForgetBonds => {
                let result = bond_store.clear_bonds();
                match result {
                    Ok(()) => Response::Ack,
                    Err(_) => Response::Error(ErrorCode::Internal),
                }
            },
        };
        proof {
            lemma_response_fits(response);
        }
        response
    }

    /// Services at most one command from the console control plane.
    pub fn service_console_once<S: CommandSource, K: ResponseSink, P: ProfileStore, B: BondStore>(
        &mut self,
        command_source: &mut S,
        response_sink: &mut K,
        profile_store: &mut P,
        bond_store: &mut B,
        ble_state: BleConnectionState,
    ) -> (r: Result<ServiceOutcome, ServiceError>)
        ensures
            console_effect(
                *old(self),
                *final(self),
                *old(command_source),
                *final(command_source),
                *old(response_sink),
                *final(response_sink),
                *old(profile_store),
                *final(profile_store),
                *old(bond_store),
                *final(bond_store),
                ble_state,
                r,
            ),
    {
        let polled = command_source.poll_command();
        let command = match polled {
            Some(command) => command,
            None => {
                return Ok(ServiceOutcome::Idle);
            },
        };
        let response = self.handle_command(command, profile_store, bond_store, ble_state);
        let sent = response_sink.send_response(response);
        match sent {
            Ok(()) => Ok(ServiceOutcome::Responded(response)),
            Err(e) => Err(ServiceError::Console(e)),
        }
    }

    /// Services at most one newline-terminated framed command from the console buffer.
    pub fn service_console_buffer_once<P: ProfileStore, B: BondStore>(
        &mut self,
        buffer: &mut FramedConsoleBuffer,
        profile_store: &mut P,
        bond_store: &mut B,
        ble_state: BleConnectionState,
    ) -> (r: Result<BufferedConsoleOutcome, BufferedConsoleError>)
        ensures
            buffered_console_effect(
                *old(self),
                *final(self),
                *old(buffer),
                *final(buffer),
                *old(profile_store),
                *final(profile_store),
                *old(bond_store),
                *final(bond_store),
                ble_state,
                r,
            ),
    {
        let decoded = buffer.try_decode_command();
        let command = match decoded {
            Ok(Some(command)) => command,
            Ok(None) => {
                return Ok(BufferedConsoleOutcome::Idle);
            },
            Err(e) => {
                return Err(BufferedConsoleError::Buffer(e));
            },
        };
        let ghost drained = *buffer;
        let response = self.handle_command(command, profile_store, bond_store, ble_state);
        let queued = buffer.queue_response(response);
        assert(queue_effect(drained, *buffer, response, queued));
        match queued {
            Ok(()) => Ok(BufferedConsoleOutcome::Responded(response)),
            Err(e) => Err(BufferedConsoleError::Buffer(e)),
        }
    }

    /// Services one raw newline-terminated protocol frame.
    pub fn service_frame<P: ProfileStore, B: BondStore>(
        &mut self,
        input: &[u8],
        profile_store: &mut P,
        bond_store: &mut B,
        ble_state: BleConnectionState,
    ) -> (r: Result<EncodedFrame, FrameServiceError>)
        ensures
            match spec_decode_command(input@) {
                Err(e) => {
                    &&& r == Err::<EncodedFrame, FrameServiceError>(FrameServiceError::Decode(e))
                    &&& *final(self) == *old(self)
                    &&& *final(profile_store) == *old(profile_store)
                    &&& *final(bond_store) == *old(bond_store)
                },
                Ok(command) => exists|response: Response|
                    #[trigger] command_effect(
                        *old(self),
                        *final(self),
                        command,
                        *old(profile_store),
                        *final(profile_store),
                        *old(bond_store),
                        *final(bond_store),
                        ble_state,
                        response,
                    ) && (r matches Ok(frame) && frame_holds(frame, spec_response_text(response))),
            },
    {
        let command = match decode_command(input) {
            Ok(command) => command,
            Err(e) => {
                return Err(FrameServiceError::Decode(e));
            },
        };
        let response = self.handle_command(command, profile_store, bond_store, ble_state);
        match encode_response(response) {
            Ok(frame) => Ok(frame),
            Err(e) => Err(FrameServiceError::Encode(e)),
        }
    }

    /// Handles one USB ingress event through the pure-Rust core pipeline.
    pub fn handle_usb_event(&mut self, event: UsbEvent) -> (r: Result<UsbServiceOutcome, UsbServiceError>)
        ensures
            r == usb_outcome(*old(self), event),
            usb_transition(*old(self), *final(self), event),
    {
        proof {
            use_type_invariant(&*self);
        }
        match event {
            UsbEvent::DeviceAttached(meta) => {
                self.active_device = Some(meta.device_id);
                self.active_descriptor = None;
                self.clear_input();
                Ok(
                    UsbServiceOutcome::DeviceAttached {
                        device_id: meta.device_id,
                        vendor_id: meta.vendor_id,
                        product_id: meta.product_id,
                    },
                )
            },
            UsbEvent::ReportDescriptorReceived { device_id, bytes, len } => {
                if len > USB_EVENT_BUFFER_LEN {
                    return Err(
                        UsbServiceError::InvalidBufferLength { len, max: USB_EVENT_BUFFER_LEN },
                    );
                }
                if !is_active(self.active_device, device_id) {
                    return Ok(UsbServiceOutcome::Ignored);
                }
                let payload = vstd::slice::slice_subrange(bytes.as_slice(), 0, len);
                assert(payload@ == bytes@.take(len as int));
                let summary = match parse_descriptor_summary(payload) {
                    Ok(summary) => summary,
                    Err(e) => {
                        return Err(UsbServiceError::DescriptorParse(e));
                    },
                };
                let field_count = summary.field_count();
                self.active_descriptor = Some(summary);
                Ok(UsbServiceOutcome::DescriptorStored { device_id, field_count })
            },
            UsbEvent::InputReportReceived { device_id, report_id, bytes, len } => {
                if len > USB_EVENT_BUFFER_LEN {
                    return Err(
                        UsbServiceError::InvalidBufferLength { len, max: USB_EVENT_BUFFER_LEN },
                    );
                }
                if !is_active(self.active_device, device_id) {
                    return Ok(UsbServiceOutcome::Ignored);
                }
                let summary = match self.active_descriptor {
                    Some(summary) => summary,
                    None => {
                        return Ok(UsbServiceOutcome::Ignored);
                    },
                };
                let payload = vstd::slice::slice_subrange(bytes.as_slice(), 0, len);
                assert(payload@ == bytes@.take(len as int));
                let decoded = match decode_report(&summary, report_id, payload) {
                    Ok(decoded) => decoded,
                    Err(e) => {
                        return Err(UsbServiceError::ReportDecode(e));
                    },
                };
                proof {
                    lemma_decoded_entries(decoded);
                }
                let normalized = match normalize_decoded_report(&decoded) {
                    Ok(normalized) => normalized,
                    Err(e) => {
                        return Err(UsbServiceError::Normalize(e));
                    },
                };
                self.update_input(normalized);
                Ok(UsbServiceOutcome::InputApplied(self.runtime.current_report()))
            },
            UsbEvent::DeviceDetached(device_id) => {
                if !is_active(self.active_device, device_id) {
                    return Ok(UsbServiceOutcome::Ignored);
                }
                self.active_device = None;
                self.active_descriptor = None;
                self.clear_input();
                Ok(UsbServiceOutcome::DeviceDetached(device_id))
            },
            UsbEvent::InputTransferStopped(_) => Ok(UsbServiceOutcome::Ignored),
        }
    }

    /// Publishes the current fixed lean v1 report through the BLE output seam.
    pub fn publish_current_report<O: BleOutput>(&self, ble_output: &mut O) -> (r: Result<
        (),
        BlePublishError,
    >)
        ensures
            old(ble_output).publish_effect(&*final(ble_output), spec_report_from(self.input()), r),
    {
        ble_output.publish_report(self.runtime.current_report())
    }

    /// Publishes the current encoded BLE input report through the persona-oriented BLE seam.
    pub fn publish_current_persona_report<O: BlePersonaOutput>(&self, ble_output: &mut O) -> (r:
        Result<(), BlePublishError>)
        ensures
            exists|encoded: EncodedBleInputReport|
                encoded.wire() == self.current_wire() && #[trigger] old(ble_output).publish_effect(
                    &*final(ble_output),
                    self.persona(),
                    encoded,
                    r,
                ),
    {
        let encoded = self.current_encoded_ble_input_report();
        ble_output.publish_encoded_report(self.current_output_persona(), encoded)
    }

    /// Services at most one USB ingress event and publishes applied input reports.
    pub fn service_usb_once<I: UsbIngress, O: BleOutput>(
        &mut self,
        usb_ingress: &mut I,
        ble_output: &mut O,
    ) -> (r: Result<UsbPumpOutcome, UsbPumpError>)
        ensures
            usb_pump_effect(
                *old(self),
                *final(self),
                *old(usb_ingress),
                *final(usb_ingress),
                *old(ble_output),
                *final(ble_output),
                r,
            ),
    {
        let polled = usb_ingress.poll_event();
        let event = match polled {
            Some(event) => event,
            None => {
                return Ok(UsbPumpOutcome::Idle);
            },
        };
        let outcome = match self.handle_usb_event(event) {
            Ok(outcome) => outcome,
            Err(e) => {
                return Err(UsbPumpError::Usb(e));
            },
        };
        match outcome {
            UsbServiceOutcome::InputApplied(report) => {
                let published = self.publish_current_report(ble_output);
                match published {
                    Ok(()) => Ok(UsbPumpOutcome::Published(report)),
                    Err(e) => Err(UsbPumpError::Ble(e)),
                }
            },
            outcome => Ok(UsbPumpOutcome::Handled(outcome)),
        }
    }

    /// Services at most one USB ingress event and publishes persona-encoded applied input reports.
    pub fn service_usb_once_persona<I: UsbIngress, O: BlePersonaOutput>(
        &mut self,
        usb_ingress: &mut I,
        ble_output: &mut O,
    ) -> (r: Result<UsbPersonaPumpOutcome, UsbPersonaPumpError>)
        ensures
            usb_persona_pump_effect(
                *old(self),
                *final(self),
                *old(usb_ingress),
                *final(usb_ingress),
                *old(ble_output),
                *final(ble_output),
                r,
            ),
    {
        let polled = usb_ingress.poll_event();
        let event = match polled {
            Some(event) => event,
            None => {
                return Ok(UsbPersonaPumpOutcome::Idle);
            },
        };
        let outcome = match self.handle_usb_event(event) {
            Ok(outcome) => outcome,
            Err(e) => {
                return Err(UsbPersonaPumpError::Usb(e));
            },
        };
        match outcome {
            UsbServiceOutcome::InputApplied(report) => {
                let persona = self.current_output_persona();
                let encoded = self.current_encoded_ble_input_report();
                let published = ble_output.publish_encoded_report(persona, encoded);
                match published {
                    Ok(()) => Ok(UsbPersonaPumpOutcome::Published { report, persona, encoded }),
                    Err(e) => Err(UsbPersonaPumpError::Ble(e)),
                }
            },
            outcome => Ok(UsbPersonaPumpOutcome::Handled(outcome)),
        }
    }
    /// Services at most one buffered console or persona USB action with buffered console priority.
    pub fn service_once_with_console_buffer_persona<P: ProfileStore, B: BondStore, I: UsbIngress, O: BlePersonaOutput>(
        &mut self,
        buffer: &mut FramedConsoleBuffer,
        profile_store: &mut P,
        bond_store: &mut B,
        ble_state: BleConnectionState,
        usb_ingress: &mut I,
        ble_output: &mut O,
    ) -> (r: Result<BufferedPersonaAppPumpOutcome, BufferedPersonaAppPumpError>)
        ensures
            buffered_persona_app_pump_effect(
                *old(self),
                *final(self),
                *old(buffer),
                *final(buffer),
                *old(profile_store),
                *final(profile_store),
                *old(bond_store),
                *final(bond_store),
                ble_state,
                *old(usb_ingress),
                *final(usb_ingress),
                *old(ble_output),
                *final(ble_output),
                r,
            ),
    {
        let console = self.service_console_buffer_once(buffer, profile_store, bond_store, ble_state);
        match console {
            Ok(BufferedConsoleOutcome::Responded(response)) => {
                return Ok(BufferedPersonaAppPumpOutcome::Console(BufferedConsoleOutcome::Responded(response)));
            },
            Ok(BufferedConsoleOutcome::Idle) => {},
            Err(e) => {
                return Err(BufferedPersonaAppPumpError::Console(e));
            },
        }
        let usb = self.service_usb_once_persona(usb_ingress, ble_output);
        match usb {
            Ok(outcome) => Ok(BufferedPersonaAppPumpOutcome::Usb(outcome)),
            Err(e) => Err(BufferedPersonaAppPumpError::Usb(e)),
        }
    }

    /// Services at most one buffered console or USB action with buffered console priority.
    pub fn service_once_with_console_buffer<P: ProfileStore, B: BondStore, I: UsbIngress, O: BleOutput>(
        &mut self,
        buffer: &mut FramedConsoleBuffer,
        profile_store: &mut P,
        bond_store: &mut B,
        ble_state: BleConnectionState,
        usb_ingress: &mut I,
        ble_output: &mut O,
    ) -> (r: Result<BufferedAppPumpOutcome, BufferedAppPumpError>)
        ensures
            buffered_app_pump_effect(
                *old(self),
                *final(self),
                *old(buffer),
                *final(buffer),
                *old(profile_store),
                *final(profile_store),
                *old(bond_store),
                *final(bond_store),
                ble_state,
                *old(usb_ingress),
                *final(usb_ingress),
                *old(ble_output),
                *final(ble_output),
                r,
            ),
    {
        let console = self.service_console_buffer_once(buffer, profile_store, bond_store, ble_state);
        match console {
            Ok(BufferedConsoleOutcome::Responded(response)) => {
                return Ok(BufferedAppPumpOutcome::Console(BufferedConsoleOutcome::Responded(response)));
            },
            Ok(BufferedConsoleOutcome::Idle) => {},
            Err(e) => {
                return Err(BufferedAppPumpError::Console(e));
            },
        }
        let usb = self.service_usb_once(usb_ingress, ble_output);
        match usb {
            Ok(outcome) => Ok(BufferedAppPumpOutcome::Usb(outcome)),
            Err(e) => Err(BufferedAppPumpError::Usb(e)),
        }
    }

    /// Services at most one console or USB action with console priority.
    pub fn service_once<S: CommandSource, K: ResponseSink, P: ProfileStore, B: BondStore, I: UsbIngress, O: BleOutput>(
        &mut self,
        command_source: &mut S,
        response_sink: &mut K,
        profile_store: &mut P,
        bond_store: &mut B,
        ble_state: BleConnectionState,
        usb_ingress: &mut I,
        ble_output: &mut O,
    ) -> (r: Result<AppPumpOutcome, AppPumpError>)
        ensures
            app_pump_effect(
                *old(self),
                *final(self),
                *old(command_source),
                *final(command_source),
                *old(response_sink),
                *final(response_sink),
                *old(profile_store),
                *final(profile_store),
                *old(bond_store),
                *final(bond_store),
                ble_state,
                *old(usb_ingress),
                *final(usb_ingress),
                *old(ble_output),
                *final(ble_output),
                r,
            ),
    {
        let console = self.service_console_once(
            command_source,
            response_sink,
            profile_store,
            bond_store,
            ble_state,
        );
        match console {
            Ok(ServiceOutcome::Responded(response)) => {
                return Ok(AppPumpOutcome::Console(ServiceOutcome::Responded(response)));
            },
            Ok(ServiceOutcome::Idle) => {},
            Err(e) => {
                return Err(AppPumpError::Console(e));
            },
        }
        let usb = self.service_usb_once(usb_ingress, ble_output);
        match usb {
            Ok(outcome) => Ok(AppPumpOutcome::Usb(outcome)),
            Err(e) => Err(AppPumpError::Usb(e)),
        }
    }

    /// Services at most one console or persona-oriented USB action with console priority.
    pub fn service_once_persona<S: CommandSource, K: ResponseSink, P: ProfileStore, B: BondStore, I: UsbIngress, O: BlePersonaOutput>(
        &mut self,
        command_source: &mut S,
        response_sink: &mut K,
        profile_store: &mut P,
        bond_store: &mut B,
        ble_state: BleConnectionState,
        usb_ingress: &mut I,
        ble_output: &mut O,
    ) -> (r: Result<PersonaAppPumpOutcome, PersonaAppPumpError>)
        ensures
            persona_app_pump_effect(
                *old(self),
                *final(self),
                *old(command_source),
                *final(command_source),
                *old(response_sink),
                *final(response_sink),
                *old(profile_store),
                *final(profile_store),
                *old(bond_store),
                *final(bond_store),
                ble_state,
                *old(usb_ingress),
                *final(usb_ingress),
                *old(ble_output),
                *final(ble_output),
                r,
            ),
    {
        let console = self.service_console_once(
            command_source,
            response_sink,
            profile_store,
            bond_store,
            ble_state,
        );
        match console {
            Ok(ServiceOutcome::Responded(response)) => {
                return Ok(PersonaAppPumpOutcome::Console(ServiceOutcome::Responded(response)));
            },
            Ok(ServiceOutcome::Idle) => {},
            Err(e) => {
                return Err(PersonaAppPumpError::Console(e));
            },
        }
        let usb = self.service_usb_once_persona(usb_ingress, ble_output);
        match usb {
            Ok(outcome) => Ok(PersonaAppPumpOutcome::Usb(outcome)),
            Err(e) => Err(PersonaAppPumpError::Usb(e)),
        }
    }
}

/// Whether `device_id` is the active device.
fn is_active(active: Option<UsbDeviceId>, device_id: UsbDeviceId) -> (r: bool)
    ensures
        r == (active == Some(device_id)),
{
    match active {
        Some(current) => current == device_id,
        None => false,
    }
}

/// A well-formed decoded report's entries are its values.
proof fn lemma_decoded_entries(report: DecodedReport)
    requires
        report.wf(),
    ensures
        report.entries() == decoded_entries(report.model()),
{
    assert(report.entries() =~= decoded_entries(report.model()));
}

// ---------------------------------------------------------------------------
// Laws of the coordinator
// ---------------------------------------------------------------------------
/// A profile set over the control plane with the in-memory store is
/// acknowledged, becomes active, is persisted, and is what the store answers
/// on the next boot.
pub proof fn lemma_set_profile_persists(
    before: App,
    after: App,
    profile: ProfileId,
    store_before: crate::nvs_store::MemoryProfileStore,
    store_after: crate::nvs_store::MemoryProfileStore,
    bonds_before: crate::nvs_store::MemoryBondStore,
    bonds_after: crate::nvs_store::MemoryBondStore,
    ble_state: BleConnectionState,
    response: Response,
)
    requires
        command_effect(
            before,
            after,
            Command::SetProfile { profile },
            store_before,
            store_after,
            bonds_before,
            bonds_after,
            ble_state,
            response,
        ),
    ensures
        response == Response::Ack,
        after.profile() == profile,
        store_after.stored() == Some(profile),
        forall|loaded: Option<ProfileId>| #[trigger]
            store_after.load_result(loaded) ==> loaded == Some(profile),
{
}

/// After a profile is set, whatever the store answered, the profile query
/// reports it.
pub proof fn lemma_get_profile_after_set<P: ProfileStore, B: BondStore>(
    first: App,
    second: App,
    third: App,
    profile: ProfileId,
    p0: P,
    p1: P,
    p2: P,
    b0: B,
    b1: B,
    b2: B,
    ble_state: BleConnectionState,
    set_response: Response,
    get_response: Response,
)
    requires
        command_effect(first, second, Command::SetProfile { profile }, p0, p1, b0, b1, ble_state, set_response),
        command_effect(second, third, Command::GetProfile, p1, p2, b1, b2, ble_state, get_response),
    ensures
        get_response == (Response::Profile { active_profile: profile }),
{
}

/// Forgetting bonds with the in-memory store is acknowledged, and the next
/// status reports no bonds.
pub proof fn lemma_forget_bonds_then_status(
    first: App,
    second: App,
    third: App,
    p0: crate::nvs_store::MemoryProfileStore,
    p1: crate::nvs_store::MemoryProfileStore,
    p2: crate::nvs_store::MemoryProfileStore,
    b0: crate::nvs_store::MemoryBondStore,
    b1: crate::nvs_store::MemoryBondStore,
    b2: crate::nvs_store::MemoryBondStore,
    ble_state: BleConnectionState,
    forget_response: Response,
    status_response: Response,
)
    requires
        command_effect(first, second, Command::ForgetBonds, p0, p1, b0, b1, ble_state, forget_response),
        command_effect(second, third, Command::GetStatus, p1, p2, b1, b2, ble_state, status_response),
    ensures
        forget_response == Response::Ack,
        status_response == Response::Status(spec_device_status(first.profile(), ble_state, false)),
{
}

/// The device an event names, for the events that name one.
pub open spec fn event_device(event: UsbEvent) -> Option<UsbDeviceId> {
    match event {
        UsbEvent::DeviceAttached(meta) => Some(meta.device_id),
        UsbEvent::ReportDescriptorReceived { device_id, .. } => Some(device_id),
        UsbEvent::InputReportReceived { device_id, .. } => Some(device_id),
        UsbEvent::DeviceDetached(device_id) => Some(device_id),
        UsbEvent::InputTransferStopped(device_id) => Some(device_id),
    }
}

/// The buffer length an event carries, if it carries a buffer.
pub open spec fn event_len(event: UsbEvent) -> usize {
    match event {
        UsbEvent::ReportDescriptorReceived { len, .. } => len,
        UsbEvent::InputReportReceived { len, .. } => len,
        _ => 0,
    }
}

/// An event other than an attach that names a device other than the active
/// one, with a buffer that fits, is ignored and changes nothing.
pub proof fn lemma_foreign_events_ignored(before: App, after: App, event: UsbEvent)
    requires
        !(event is DeviceAttached),
        event_device(event) != before.device(),
        event_len(event) <= 64,
        usb_transition(before, after, event),
    ensures
        usb_outcome(before, event) == Ok::<UsbServiceOutcome, UsbServiceError>(
            UsbServiceOutcome::Ignored,
        ),
        after == before,
{
}

/// Attaching a device, or detaching the active one, returns the current
/// report to the neutral report: axes at zero, hat centered, no buttons.
pub proof fn lemma_attach_detach_neutral_report(before: App, after: App, event: UsbEvent)
    requires
        event is DeviceAttached || (event is DeviceDetached && event_device(event) == before.device()),
        usb_transition(before, after, event),
    ensures
        spec_report_from(after.input()) == (GenericBleGamepad16Report {
            x: 0,
            y: 0,
            rz: 0,
            hat: crate::normalize::HatPosition::Centered,
            buttons: 0,
        }),
        after.profile() == before.profile(),
        after.descriptor() is None,
{
    crate::runtime::lemma_centered_report();
}

/// When the buffered console answers a frame, a combined persona step leaves
/// the USB ingress and the BLE output untouched: pending USB work waits.
pub proof fn lemma_console_first<P: ProfileStore, B: BondStore, I: UsbIngress, O: BlePersonaOutput>(
    before: App,
    after: App,
    buffer_before: FramedConsoleBuffer,
    buffer_after: FramedConsoleBuffer,
    profile_before: P,
    profile_after: P,
    bonds_before: B,
    bonds_after: B,
    ble_state: BleConnectionState,
    ingress_before: I,
    ingress_after: I,
    output_before: O,
    output_after: O,
    r: Result<BufferedPersonaAppPumpOutcome, BufferedPersonaAppPumpError>,
)
    requires
        buffered_persona_app_pump_effect(
            before,
            after,
            buffer_before,
            buffer_after,
            profile_before,
            profile_after,
            bonds_before,
            bonds_after,
            ble_state,
            ingress_before,
            ingress_after,
            output_before,
            output_after,
            r,
        ),
        r matches Ok(BufferedPersonaAppPumpOutcome::Console(_)),
    ensures
        ingress_after == ingress_before,
        output_after == output_before,
{
}

/// Bootstraps the application with the default host-side profile store,
/// which holds no persisted profile.
pub fn bootstrap_default() -> (r: Result<App, BootstrapError>)
    ensures
        r matches Ok(app) && app.profile() == V1_PROFILE_ID && app.input()
            == NormalizedJoystickState::centered() && app.device() is None && app.descriptor() is None,
{
    let store = crate::nvs_store::MemoryProfileStore::new();
    Ok(App::bootstrap(&store))
}

fn map_ble_link_state(state: BleConnectionState) -> (r: BleLinkState)
    ensures
        r == spec_link_state(state),
{
    match state {
        BleConnectionState::Idle => BleLinkState::Idle,
        BleConnectionState::Advertising => BleLinkState::Advertising,
        BleConnectionState::Connected => BleLinkState::Connected,
        BleConnectionState::InitializationFailed => BleLinkState::Idle,
    }
}

/// Every response whose firmware name, if any, is the application name fits
/// in one protocol frame.
proof fn lemma_response_fits(response: Response)
    requires
        response matches Response::Info(info) ==> info.firmware_name == APP_NAME,
    ensures
        fits_frame(response),
{
    lemma_app_name_bytes();
}

/// The application name is ten ASCII bytes long.
proof fn lemma_app_name_bytes()
    ensures
        APP_NAME.spec_bytes().len() == 10,
{
    reveal_strlit("usb2ble-fw");
    assert(APP_NAME@.len() == 10);
    assert(vstd::utf8::is_ascii_chars(APP_NAME@));
    vstd::utf8::is_ascii_chars_encode_utf8(APP_NAME@);
}

} // verus!
