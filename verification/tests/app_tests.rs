use usb2ble::app::{
    bootstrap_default, App, AppPumpError, AppPumpOutcome, BootstrapError, BufferedAppPumpError,
    BufferedAppPumpOutcome, BufferedConsoleError, BufferedConsoleOutcome,
    BufferedPersonaAppPumpError, BufferedPersonaAppPumpOutcome, FrameServiceError,
    PersonaAppPumpError, PersonaAppPumpOutcome, ServiceError, ServiceOutcome,
    UsbPersonaPumpError, UsbPersonaPumpOutcome, UsbPumpError, UsbPumpOutcome, UsbServiceError,
    UsbServiceOutcome, APP_NAME,
};
use core::cell::Cell;
use usb2ble::hid_decode::DecodeError;
use usb2ble::hid_descriptor::{DescriptorParseError, ItemParseError};
use usb2ble::normalize::NormalizeError;
use usb2ble::normalize::{Axis, ButtonIndex, HatPosition, NormalizedJoystickState};
use usb2ble::profile::{OutputPersona, V1_PROFILE_ID};
use usb2ble::runtime::{GenericBleGamepad16Report, RuntimeState};
use usb2ble::ble_hid::{
    encode_generic_ble_gamepad16_report, BleConnectionState, BleOutput, BlePersonaOutput,
    BlePublishError, PersonaWireRecordingBleOutput, RecordingBleOutput, WireRecordingBleOutput,
};
use usb2ble::console_uart::{
    CommandSource, ConsoleError, FrameBufferError, FramedConsoleBuffer, QueuedCommandSource,
    RecordingResponseSink, ResponseSink,
};
use usb2ble::nvs_store::{
    BondStore, MemoryBondStore, MemoryProfileStore, ProfileStore, StoreError,
};
use usb2ble::usb_host::{
    DeviceMeta, QueuedUsbIngress, UsbDeviceId, UsbEvent, UsbIngress,
};
use usb2ble::framing::FrameError;

use usb2ble::embedded::{EmbeddedDrainError, EmbeddedRuntimeState};
use usb2ble::messages::{BleLinkState, Command, Response};

fn button_index(index: u8) -> ButtonIndex {
    match ButtonIndex::new(index) {
        Ok(index) => index,
        Err(error) => panic!("failed to create button index {index}: {error:?}"),
    }
}

fn xy_descriptor_bytes() -> [u8; 64] {
    let mut bytes = [0_u8; 64];
    bytes[..18].copy_from_slice(&[
        0x05, 0x01, 0x15, 0x81, 0x25, 0x7F, 0x75, 0x08, 0x95, 0x01, 0x09, 0x30, 0x81, 0x02,
        0x09, 0x31, 0x81, 0x02,
    ]);
    bytes
}

struct FakeProfileStore {
    active_profile: Option<usb2ble::profile::ProfileId>,
    load_calls: Cell<usize>,
    store_calls: usize,
}

impl ProfileStore for FakeProfileStore {
    fn load_active_profile(&self) -> Option<usb2ble::profile::ProfileId> {
        self.load_calls.set(self.load_calls.get() + 1);
        self.active_profile
    }

    fn store_active_profile(
        &mut self,
        profile: usb2ble::profile::ProfileId,
    ) -> Result<(), StoreError> {
        self.active_profile = Some(profile);
        self.store_calls += 1;
        Ok(())
    }
}

struct FakeBondStore {
    bonds_present: bool,
    clear_calls: usize,
}

impl BondStore for FakeBondStore {
    fn bonds_present(&self) -> bool {
        self.bonds_present
    }

    fn store_bonds_present(&mut self, bonds_present: bool) -> Result<(), StoreError> {
        self.bonds_present = bonds_present;
        Ok(())
    }

    fn clear_bonds(&mut self) -> Result<(), StoreError> {
        let _ = self.store_bonds_present(false);
        self.clear_calls += 1;
        Ok(())
    }
}

struct FakeBleOutput {
    state: BleConnectionState,
    last_report: Option<GenericBleGamepad16Report>,
    fail_with: Option<BlePublishError>,
}

impl BleOutput for FakeBleOutput {
    fn publish_report(
        &mut self,
        report: GenericBleGamepad16Report,
    ) -> Result<(), BlePublishError> {
        match self.fail_with {
            Some(error) => Err(error),
            None => {
                self.last_report = Some(report);
                Ok(())
            }
        }
    }

    fn connection_state(&self) -> BleConnectionState {
        self.state
    }
}

struct FakeUsbIngress {
    next_event: Option<UsbEvent>,
    poll_calls: usize,
}

impl UsbIngress for FakeUsbIngress {
    fn poll_event(&mut self) -> Option<UsbEvent> {
        self.poll_calls += 1;
        self.next_event.take()
    }
}

struct FakeCommandSource {
    next_command: Option<Command>,
    poll_calls: usize,
}

impl CommandSource for FakeCommandSource {
    fn poll_command(&mut self) -> Option<Command> {
        self.poll_calls += 1;
        self.next_command.take()
    }
}

struct FakeResponseSink {
    sent_response: Option<Response>,
    send_calls: usize,
    fail_with: Option<ConsoleError>,
}

impl ResponseSink for FakeResponseSink {
    fn send_response(&mut self, response: Response) -> Result<(), ConsoleError> {
        self.send_calls += 1;

        match self.fail_with {
            Some(error) => Err(error),
            None => {
                self.sent_response = Some(response);
                Ok(())
            }
        }
    }
}

fn service_frame_ok(
    app: &mut App,
    input: &[u8],
    profile_store: &mut FakeProfileStore,
    bond_store: &mut FakeBondStore,
    ble_state: BleConnectionState,
) -> usb2ble::framing::EncodedFrame {
    match app.service_frame(input, profile_store, bond_store, ble_state) {
        Ok(frame) => frame,
        Err(error) => panic!("service_frame failed for {input:?}: {error:?}"),
    }
}

#[test]
fn app_new_sets_runtime_active_profile() {
    let app = App::new(V1_PROFILE_ID);

    assert_eq!(app.runtime().active_profile(), V1_PROFILE_ID);
}

#[test]
fn bootstrap_uses_persisted_profile_when_available() {
    let store = FakeProfileStore {
        active_profile: Some(V1_PROFILE_ID),
        load_calls: Cell::new(0),
        store_calls: 0,
    };

    let app = App::bootstrap(&store);

    assert_eq!(store.load_calls.get(), 1);
    assert_eq!(app.runtime().active_profile(), V1_PROFILE_ID);
}

#[test]
fn bootstrap_falls_back_to_v1_profile_when_store_is_empty() {
    let store = FakeProfileStore {
        active_profile: None,
        load_calls: Cell::new(0),
        store_calls: 0,
    };

    let app = App::bootstrap(&store);

    assert_eq!(store.load_calls.get(), 1);
    assert_eq!(app.runtime().active_profile(), V1_PROFILE_ID);
}

#[test]
fn bootstrap_with_memory_profile_store_uses_persisted_profile() {
    let store = MemoryProfileStore::with_profile(V1_PROFILE_ID);

    let app = App::bootstrap(&store);

    assert_eq!(app.runtime().active_profile(), V1_PROFILE_ID);
}
#[test]
fn bootstrap_default_returns_v1_profile_on_host() {
    let app = match bootstrap_default() {
        Ok(app) => app,
        Err(error) => panic!("bootstrap_default failed on host: {error:?}"),
    };

    assert_eq!(app.runtime().active_profile(), V1_PROFILE_ID);
}

#[test]
fn bootstrap_error_unavailable_profile_store_compares_equal() {
    assert_eq!(
        BootstrapError::UnavailableProfileStore,
        BootstrapError::UnavailableProfileStore
    );
}

#[test]
fn device_info_reports_current_contract() {
    let app = App::new(V1_PROFILE_ID);
    let info = app.device_info();

    assert_eq!(info.protocol_version.major, 1);
    assert_eq!(info.protocol_version.minor, 0);
    assert_eq!(info.firmware_name, APP_NAME);
    assert_eq!(info.active_profile, V1_PROFILE_ID);
    assert_eq!(info.output_persona, OutputPersona::GenericBleGamepad16);
}

#[test]
fn device_status_maps_idle_ble_state() {
    let app = App::new(V1_PROFILE_ID);
    let bond_store = FakeBondStore {
        bonds_present: false,
        clear_calls: 0,
    };

    let status = app.device_status(BleConnectionState::Idle, &bond_store);

    assert_eq!(status.ble_link_state, BleLinkState::Idle);
}

#[test]
fn device_status_maps_advertising_ble_state() {
    let app = App::new(V1_PROFILE_ID);
    let bond_store = FakeBondStore {
        bonds_present: false,
        clear_calls: 0,
    };

    let status = app.device_status(BleConnectionState::Advertising, &bond_store);

    assert_eq!(status.ble_link_state, BleLinkState::Advertising);
}

#[test]
fn device_status_maps_connected_ble_state() {
    let app = App::new(V1_PROFILE_ID);
    let bond_store = FakeBondStore {
        bonds_present: false,
        clear_calls: 0,
    };

    let status = app.device_status(BleConnectionState::Connected, &bond_store);

    assert_eq!(status.ble_link_state, BleLinkState::Connected);
}

#[test]
fn device_status_reflects_bond_presence() {
    let app = App::new(V1_PROFILE_ID);
    let bond_store = FakeBondStore {
        bonds_present: true,
        clear_calls: 0,
    };

    let status = app.device_status(BleConnectionState::Idle, &bond_store);

    assert!(status.bonds_present);
}

#[test]
fn handle_get_info_returns_info_response() {
    let mut app = App::new(V1_PROFILE_ID);
    let mut profile_store = FakeProfileStore {
        active_profile: None,
        load_calls: Cell::new(0),
        store_calls: 0,
    };
    let mut bond_store = FakeBondStore {
        bonds_present: false,
        clear_calls: 0,
    };

    assert_eq!(
        app.handle_command(
            Command::GetInfo,
            &mut profile_store,
            &mut bond_store,
            BleConnectionState::Idle
        ),
        Response::Info(app.device_info())
    );
}

#[test]
fn handle_get_status_returns_status_response() {
    let mut app = App::new(V1_PROFILE_ID);
    let mut profile_store = FakeProfileStore {
        active_profile: None,
        load_calls: Cell::new(0),
        store_calls: 0,
    };
    let mut bond_store = FakeBondStore {
        bonds_present: true,
        clear_calls: 0,
    };

    assert_eq!(
        app.handle_command(
            Command::GetStatus,
            &mut profile_store,
            &mut bond_store,
            BleConnectionState::Connected
        ),
        Response::Status(app.device_status(BleConnectionState::Connected, &bond_store))
    );
}

#[test]
fn handle_get_profile_returns_active_profile() {
    let mut app = App::new(V1_PROFILE_ID);
    let mut profile_store = FakeProfileStore {
        active_profile: None,
        load_calls: Cell::new(0),
        store_calls: 0,
    };
    let mut bond_store = FakeBondStore {
        bonds_present: false,
        clear_calls: 0,
    };

    assert_eq!(
        app.handle_command(
            Command::GetProfile,
            &mut profile_store,
            &mut bond_store,
            BleConnectionState::Idle
        ),
        Response::Profile {
            active_profile: V1_PROFILE_ID,
        }
    );
}

#[test]
fn handle_set_profile_returns_ack_and_persists_profile() {
    let mut app = App::new(V1_PROFILE_ID);
    let mut profile_store = FakeProfileStore {
        active_profile: None,
        load_calls: Cell::new(0),
        store_calls: 0,
    };
    let mut bond_store = FakeBondStore {
        bonds_present: false,
        clear_calls: 0,
    };

    let response = app.handle_command(
        Command::SetProfile {
            profile: V1_PROFILE_ID,
        },
        &mut profile_store,
        &mut bond_store,
        BleConnectionState::Idle,
    );

    assert_eq!(response, Response::Ack);
    assert_eq!(profile_store.active_profile, Some(V1_PROFILE_ID));
    assert_eq!(profile_store.store_calls, 1);
    assert_eq!(app.runtime().active_profile(), V1_PROFILE_ID);
}

#[test]
fn handle_forget_bonds_returns_ack_and_clears_bonds() {
    let mut app = App::new(V1_PROFILE_ID);
    let mut profile_store = FakeProfileStore {
        active_profile: None,
        load_calls: Cell::new(0),
        store_calls: 0,
    };
    let mut bond_store = FakeBondStore {
        bonds_present: true,
        clear_calls: 0,
    };

    let response = app.handle_command(
        Command::ForgetBonds,
        &mut profile_store,
        &mut bond_store,
        BleConnectionState::Idle,
    );

    assert_eq!(response, Response::Ack);
    assert!(!bond_store.bonds_present);
    assert_eq!(bond_store.clear_calls, 1);
}

#[test]
fn handle_reboot_returns_ack() {
    let mut app = App::new(V1_PROFILE_ID);
    let mut profile_store = FakeProfileStore {
        active_profile: None,
        load_calls: Cell::new(0),
        store_calls: 0,
    };
    let mut bond_store = FakeBondStore {
        bonds_present: false,
        clear_calls: 0,
    };

    assert_eq!(
        app.handle_command(
            Command::Reboot,
            &mut profile_store,
            &mut bond_store,
            BleConnectionState::Idle
        ),
        Response::Ack
    );
}

#[test]
fn publish_current_report_forwards_exact_report_to_ble_output() {
    let mut app = App::new(V1_PROFILE_ID);
    let mut state = NormalizedJoystickState::default();
    let mut ble_output = FakeBleOutput {
        state: BleConnectionState::Connected,
        last_report: None,
        fail_with: None,
    };

    state.set_axis(Axis::X, 111);
    state.set_axis(Axis::Y, -222);
    state.set_axis(Axis::Rz, 333);
    state.set_hat(HatPosition::DownLeft);
    state.set_button(button_index(0), true);
    state.set_button(button_index(5), true);
    state.set_button(button_index(15), true);
    app.update_input(state);

    assert_eq!(app.publish_current_report(&mut ble_output), Ok(()));
    assert_eq!(ble_output.connection_state(), BleConnectionState::Connected);
    assert_eq!(
        ble_output.last_report,
        Some(GenericBleGamepad16Report {
            x: 111,
            y: -222,
            rz: 333,
            hat: HatPosition::DownLeft,
            buttons: 1_u16 | (1_u16 << 5) | (1_u16 << 15),
        })
    );
}

#[test]
fn publish_current_report_records_exact_ble_wire_bytes() {
    let mut app = App::new(V1_PROFILE_ID);
    let mut state = NormalizedJoystickState::default();
    let mut ble_output = WireRecordingBleOutput::new(BleConnectionState::Connected);

    state.set_axis(Axis::X, 111);
    state.set_axis(Axis::Y, -222);
    state.set_axis(Axis::Rz, 333);
    state.set_hat(HatPosition::DownLeft);
    state.set_button(button_index(0), true);
    state.set_button(button_index(5), true);
    state.set_button(button_index(15), true);
    app.update_input(state);

    assert_eq!(app.publish_current_report(&mut ble_output), Ok(()));
    assert_eq!(
        ble_output.last_report(),
        Some(app.runtime().current_report())
    );
    assert_eq!(
        ble_output.last_wire(),
        Some(encode_generic_ble_gamepad16_report(
            app.runtime().current_report()
        ))
    );
}

#[test]
fn publish_current_persona_report_records_persona_and_exact_wire_bytes() {
    let mut app = App::new(V1_PROFILE_ID);
    let mut state = NormalizedJoystickState::default();
    let mut ble_output = PersonaWireRecordingBleOutput::new(BleConnectionState::Connected);

    state.set_axis(Axis::X, 111);
    state.set_axis(Axis::Y, -222);
    state.set_axis(Axis::Rz, 333);
    state.set_hat(HatPosition::DownLeft);
    state.set_button(button_index(0), true);
    state.set_button(button_index(5), true);
    state.set_button(button_index(15), true);
    app.update_input(state);

    assert_eq!(
        BlePersonaOutput::connection_state(&ble_output),
        BleConnectionState::Connected
    );
    assert_eq!(app.publish_current_persona_report(&mut ble_output), Ok(()));
    assert_eq!(
        ble_output.last_persona(),
        Some(app.current_output_persona())
    );
    assert_eq!(
        ble_output.last_wire(),
        Some(app.current_encoded_ble_input_report())
    );
}

#[test]
fn publish_current_persona_report_propagates_persona_output_failure() {
    let app = App::new(V1_PROFILE_ID);
    let mut ble_output = PersonaWireRecordingBleOutput::new(BleConnectionState::Connected);

    ble_output.set_fail_with(BlePublishError::NotReady);

    assert_eq!(
        app.publish_current_persona_report(&mut ble_output),
        Err(BlePublishError::NotReady)
    );
    assert_eq!(ble_output.last_persona(), None);
    assert_eq!(ble_output.last_wire(), None);
}

#[test]
fn publish_current_persona_report_uses_same_encoding_as_app_helpers() {
    let mut app = App::new(V1_PROFILE_ID);
    let mut state = NormalizedJoystickState::default();
    let mut ble_output = PersonaWireRecordingBleOutput::new(BleConnectionState::Advertising);

    state.set_axis(Axis::X, 5);
    state.set_axis(Axis::Y, -10);
    state.set_axis(Axis::Rz, 300);
    state.set_hat(HatPosition::DownRight);
    state.set_button(button_index(0), true);
    state.set_button(button_index(5), true);
    state.set_button(button_index(15), true);
    app.update_input(state);

    assert_eq!(app.publish_current_persona_report(&mut ble_output), Ok(()));
    assert_eq!(
        ble_output.last_persona(),
        Some(OutputPersona::GenericBleGamepad16)
    );
    assert_eq!(
        ble_output.last_wire(),
        Some(encode_generic_ble_gamepad16_report(
            app.runtime().current_report()
        ))
    );
}

#[test]
fn current_output_persona_returns_active_profile_persona() {
    let app = App::new(V1_PROFILE_ID);

    assert_eq!(
        app.current_output_persona(),
        OutputPersona::GenericBleGamepad16
    );
}

#[test]
fn current_ble_persona_descriptor_matches_platform_descriptor() {
    let app = App::new(V1_PROFILE_ID);

    assert_eq!(
        app.current_ble_persona_descriptor(),
        usb2ble::ble_hid::output_persona_descriptor(
            OutputPersona::GenericBleGamepad16
        )
    );
}

#[test]
fn current_encoded_ble_input_report_matches_platform_encoder_for_default_report() {
    let app = App::new(V1_PROFILE_ID);

    assert_eq!(
        app.current_encoded_ble_input_report(),
        usb2ble::ble_hid::encode_generic_ble_gamepad16_report(
            app.runtime().current_report()
        )
    );
}

#[test]
fn current_encoded_ble_input_report_matches_platform_encoder_for_non_default_report() {
    let mut app = App::new(V1_PROFILE_ID);
    let mut state = NormalizedJoystickState::default();

    state.set_axis(Axis::X, 111);
    state.set_axis(Axis::Y, -222);
    state.set_axis(Axis::Rz, 333);
    state.set_hat(HatPosition::DownLeft);
    state.set_button(button_index(0), true);
    state.set_button(button_index(5), true);
    state.set_button(button_index(15), true);
    app.update_input(state);

    assert_eq!(
        app.current_encoded_ble_input_report(),
        usb2ble::ble_hid::encode_generic_ble_gamepad16_report(
            app.runtime().current_report()
        )
    );
}

#[test]
fn clear_input_resets_current_report_to_default() {
    let mut app = App::new(V1_PROFILE_ID);
    let mut state = NormalizedJoystickState::default();

    state.set_axis(Axis::X, 5);
    state.set_axis(Axis::Y, -6);
    state.set_axis(Axis::Rz, 7);
    state.set_hat(HatPosition::Right);
    state.set_button(button_index(0), true);
    app.update_input(state);

    app.clear_input();

    assert_eq!(
        app.runtime().current_report(),
        GenericBleGamepad16Report::default()
    );
    assert_eq!(app.runtime(), RuntimeState::new(V1_PROFILE_ID));
}

#[test]
fn service_console_once_returns_idle_when_no_command_is_available() {
    let mut app = App::new(V1_PROFILE_ID);
    let runtime_before = app.runtime();
    let mut command_source = FakeCommandSource {
        next_command: None,
        poll_calls: 0,
    };
    let mut response_sink = FakeResponseSink {
        sent_response: None,
        send_calls: 0,
        fail_with: None,
    };
    let mut profile_store = FakeProfileStore {
        active_profile: None,
        load_calls: Cell::new(0),
        store_calls: 0,
    };
    let mut bond_store = FakeBondStore {
        bonds_present: false,
        clear_calls: 0,
    };

    assert_eq!(
        app.service_console_once(
            &mut command_source,
            &mut response_sink,
            &mut profile_store,
            &mut bond_store,
            BleConnectionState::Idle
        ),
        Ok(ServiceOutcome::Idle)
    );
    assert_eq!(command_source.poll_calls, 1);
    assert_eq!(response_sink.send_calls, 0);
    assert_eq!(response_sink.sent_response, None);
    assert_eq!(app.runtime(), runtime_before);
}

#[test]
fn service_console_once_get_info_returns_info_response_and_sends_it() {
    let mut app = App::new(V1_PROFILE_ID);
    let mut command_source = FakeCommandSource {
        next_command: Some(Command::GetInfo),
        poll_calls: 0,
    };
    let mut response_sink = FakeResponseSink {
        sent_response: None,
        send_calls: 0,
        fail_with: None,
    };
    let mut profile_store = FakeProfileStore {
        active_profile: None,
        load_calls: Cell::new(0),
        store_calls: 0,
    };
    let mut bond_store = FakeBondStore {
        bonds_present: false,
        clear_calls: 0,
    };
    let expected = Response::Info(app.device_info());

    assert_eq!(
        app.service_console_once(
            &mut command_source,
            &mut response_sink,
            &mut profile_store,
            &mut bond_store,
            BleConnectionState::Idle
        ),
        Ok(ServiceOutcome::Responded(expected))
    );
    assert_eq!(response_sink.send_calls, 1);
    assert_eq!(response_sink.sent_response, Some(expected));
}

#[test]
fn service_console_once_get_status_returns_status_response_and_sends_it() {
    let mut app = App::new(V1_PROFILE_ID);
    let mut command_source = FakeCommandSource {
        next_command: Some(Command::GetStatus),
        poll_calls: 0,
    };
    let mut response_sink = FakeResponseSink {
        sent_response: None,
        send_calls: 0,
        fail_with: None,
    };
    let mut profile_store = FakeProfileStore {
        active_profile: None,
        load_calls: Cell::new(0),
        store_calls: 0,
    };
    let mut bond_store = FakeBondStore {
        bonds_present: true,
        clear_calls: 0,
    };
    let expected =
        Response::Status(app.device_status(BleConnectionState::Advertising, &bond_store));

    assert_eq!(
        app.service_console_once(
            &mut command_source,
            &mut response_sink,
            &mut profile_store,
            &mut bond_store,
            BleConnectionState::Advertising
        ),
        Ok(ServiceOutcome::Responded(expected))
    );
    assert_eq!(response_sink.send_calls, 1);
    assert_eq!(response_sink.sent_response, Some(expected));
}

#[test]
fn service_console_once_get_profile_returns_profile_response() {
    let mut app = App::new(V1_PROFILE_ID);
    let mut command_source = FakeCommandSource {
        next_command: Some(Command::GetProfile),
        poll_calls: 0,
    };
    let mut response_sink = FakeResponseSink {
        sent_response: None,
        send_calls: 0,
        fail_with: None,
    };
    let mut profile_store = FakeProfileStore {
        active_profile: None,
        load_calls: Cell::new(0),
        store_calls: 0,
    };
    let mut bond_store = FakeBondStore {
        bonds_present: false,
        clear_calls: 0,
    };
    let expected = Response::Profile {
        active_profile: V1_PROFILE_ID,
    };

    assert_eq!(
        app.service_console_once(
            &mut command_source,
            &mut response_sink,
            &mut profile_store,
            &mut bond_store,
            BleConnectionState::Idle
        ),
        Ok(ServiceOutcome::Responded(expected))
    );
    assert_eq!(response_sink.sent_response, Some(expected));
}

#[test]
fn service_console_once_set_profile_returns_ack_and_persists_profile() {
    let mut app = App::new(V1_PROFILE_ID);
    let mut command_source = FakeCommandSource {
        next_command: Some(Command::SetProfile {
            profile: V1_PROFILE_ID,
        }),
        poll_calls: 0,
    };
    let mut response_sink = FakeResponseSink {
        sent_response: None,
        send_calls: 0,
        fail_with: None,
    };
    let mut profile_store = FakeProfileStore {
        active_profile: None,
        load_calls: Cell::new(0),
        store_calls: 0,
    };
    let mut bond_store = FakeBondStore {
        bonds_present: false,
        clear_calls: 0,
    };

    assert_eq!(
        app.service_console_once(
            &mut command_source,
            &mut response_sink,
            &mut profile_store,
            &mut bond_store,
            BleConnectionState::Idle
        ),
        Ok(ServiceOutcome::Responded(Response::Ack))
    );
    assert_eq!(response_sink.sent_response, Some(Response::Ack));
    assert_eq!(profile_store.active_profile, Some(V1_PROFILE_ID));
    assert_eq!(profile_store.store_calls, 1);
}

#[test]
fn service_console_once_forget_bonds_returns_ack_and_clears_bonds() {
    let mut app = App::new(V1_PROFILE_ID);
    let mut command_source = FakeCommandSource {
        next_command: Some(Command::ForgetBonds),
        poll_calls: 0,
    };
    let mut response_sink = FakeResponseSink {
        sent_response: None,
        send_calls: 0,
        fail_with: None,
    };
    let mut profile_store = FakeProfileStore {
        active_profile: None,
        load_calls: Cell::new(0),
        store_calls: 0,
    };
    let mut bond_store = FakeBondStore {
        bonds_present: true,
        clear_calls: 0,
    };

    assert_eq!(
        app.service_console_once(
            &mut command_source,
            &mut response_sink,
            &mut profile_store,
            &mut bond_store,
            BleConnectionState::Idle
        ),
        Ok(ServiceOutcome::Responded(Response::Ack))
    );
    assert_eq!(response_sink.sent_response, Some(Response::Ack));
    assert!(!bond_store.bonds_present);
    assert_eq!(bond_store.clear_calls, 1);
}

#[test]
fn service_console_once_returns_console_error_when_send_fails() {
    let mut app = App::new(V1_PROFILE_ID);
    let mut command_source = FakeCommandSource {
        next_command: Some(Command::GetInfo),
        poll_calls: 0,
    };
    let mut response_sink = FakeResponseSink {
        sent_response: None,
        send_calls: 0,
        fail_with: Some(ConsoleError::Transport),
    };
    let mut profile_store = FakeProfileStore {
        active_profile: None,
        load_calls: Cell::new(0),
        store_calls: 0,
    };
    let mut bond_store = FakeBondStore {
        bonds_present: false,
        clear_calls: 0,
    };

    assert_eq!(
        app.service_console_once(
            &mut command_source,
            &mut response_sink,
            &mut profile_store,
            &mut bond_store,
            BleConnectionState::Idle
        ),
        Err(ServiceError::Console(ConsoleError::Transport))
    );
    assert_eq!(response_sink.send_calls, 1);
    assert_eq!(response_sink.sent_response, None);
}

#[test]
fn service_console_buffer_once_returns_idle_for_partial_frame() {
    let mut app = App::new(V1_PROFILE_ID);
    let mut buffer = FramedConsoleBuffer::new();
    let mut profile_store = MemoryProfileStore::new();
    let mut bond_store = MemoryBondStore::new();

    assert_eq!(buffer.push_rx_bytes(b"GET_INFO"), Ok(()));
    assert_eq!(
        app.service_console_buffer_once(
            &mut buffer,
            &mut profile_store,
            &mut bond_store,
            BleConnectionState::Idle,
        ),
        Ok(BufferedConsoleOutcome::Idle)
    );
    assert_eq!(buffer.rx_len(), 8);
    assert!(buffer.tx_bytes().is_empty());
}

#[test]
fn service_console_buffer_once_handles_get_info_and_queues_response() {
    let mut app = App::new(V1_PROFILE_ID);
    let mut buffer = FramedConsoleBuffer::new();
    let mut profile_store = MemoryProfileStore::new();
    let mut bond_store = MemoryBondStore::new();
    let expected = Response::Info(app.device_info());

    assert_eq!(buffer.push_rx_bytes(b"GET_INFO\n"), Ok(()));
    assert_eq!(
        app.service_console_buffer_once(
            &mut buffer,
            &mut profile_store,
            &mut bond_store,
            BleConnectionState::Idle,
        ),
        Ok(BufferedConsoleOutcome::Responded(expected))
    );
    assert_eq!(
        buffer.tx_bytes(),
        b"INFO|usb2ble-fw|1|0|t16000m_v1|generic_ble_gamepad_16\n"
    );
    assert_eq!(buffer.rx_len(), 0);
}

#[test]
fn service_console_buffer_once_handles_forget_bonds_and_updates_store() {
    let mut app = App::new(V1_PROFILE_ID);
    let mut buffer = FramedConsoleBuffer::new();
    let mut profile_store = MemoryProfileStore::new();
    let mut bond_store = MemoryBondStore::with_bonds_present(true);

    assert_eq!(buffer.push_rx_bytes(b"FORGET_BONDS\n"), Ok(()));
    assert_eq!(
        app.service_console_buffer_once(
            &mut buffer,
            &mut profile_store,
            &mut bond_store,
            BleConnectionState::Idle,
        ),
        Ok(BufferedConsoleOutcome::Responded(Response::Ack))
    );
    assert!(!bond_store.bonds_present());
    assert_eq!(buffer.tx_bytes(), b"ACK\n");
}

#[test]
fn service_console_buffer_once_handles_set_profile_and_updates_store() {
    let mut app = App::new(V1_PROFILE_ID);
    let mut buffer = FramedConsoleBuffer::new();
    let mut profile_store = MemoryProfileStore::new();
    let mut bond_store = MemoryBondStore::new();

    assert_eq!(buffer.push_rx_bytes(b"SET_PROFILE|t16000m_v1\n"), Ok(()));
    assert_eq!(
        app.service_console_buffer_once(
            &mut buffer,
            &mut profile_store,
            &mut bond_store,
            BleConnectionState::Idle,
        ),
        Ok(BufferedConsoleOutcome::Responded(Response::Ack))
    );
    assert_eq!(profile_store.load_active_profile(), Some(V1_PROFILE_ID));
    assert_eq!(buffer.tx_bytes(), b"ACK\n");
}

#[test]
fn service_console_buffer_once_returns_decode_error_for_malformed_frame() {
    let mut app = App::new(V1_PROFILE_ID);
    let mut buffer = FramedConsoleBuffer::new();
    let mut profile_store = MemoryProfileStore::new();
    let mut bond_store = MemoryBondStore::new();

    assert_eq!(buffer.push_rx_bytes(b"NOPE\n"), Ok(()));
    assert_eq!(
        app.service_console_buffer_once(
            &mut buffer,
            &mut profile_store,
            &mut bond_store,
            BleConnectionState::Idle,
        ),
        Err(BufferedConsoleError::Buffer(FrameBufferError::Decode(
            FrameError::UnknownCommand
        )))
    );
    assert_eq!(buffer.rx_len(), 0);
    assert!(buffer.tx_bytes().is_empty());
}

#[test]
fn service_console_buffer_once_appends_multiple_responses_across_calls() {
    let mut app = App::new(V1_PROFILE_ID);
    let mut buffer = FramedConsoleBuffer::new();
    let mut profile_store = MemoryProfileStore::new();
    let mut bond_store = MemoryBondStore::new();
    let first_expected = Response::Info(app.device_info());
    let second_expected = Response::Profile {
        active_profile: V1_PROFILE_ID,
    };

    assert_eq!(buffer.push_rx_bytes(b"GET_INFO\n"), Ok(()));
    assert_eq!(
        app.service_console_buffer_once(
            &mut buffer,
            &mut profile_store,
            &mut bond_store,
            BleConnectionState::Idle,
        ),
        Ok(BufferedConsoleOutcome::Responded(first_expected))
    );

    assert_eq!(buffer.push_rx_bytes(b"GET_PROFILE\n"), Ok(()));
    assert_eq!(
        app.service_console_buffer_once(
            &mut buffer,
            &mut profile_store,
            &mut bond_store,
            BleConnectionState::Idle,
        ),
        Ok(BufferedConsoleOutcome::Responded(second_expected))
    );
    assert_eq!(
        buffer.tx_bytes(),
        b"INFO|usb2ble-fw|1|0|t16000m_v1|generic_ble_gamepad_16\nPROFILE|t16000m_v1\n"
    );
}

#[test]
fn service_frame_get_info_returns_exact_info_bytes() {
    let mut app = App::new(V1_PROFILE_ID);
    let mut profile_store = FakeProfileStore {
        active_profile: None,
        load_calls: Cell::new(0),
        store_calls: 0,
    };
    let mut bond_store = FakeBondStore {
        bonds_present: false,
        clear_calls: 0,
    };

    let frame = service_frame_ok(
        &mut app,
        b"GET_INFO\n",
        &mut profile_store,
        &mut bond_store,
        BleConnectionState::Idle,
    );

    assert_eq!(
        frame.as_bytes(),
        b"INFO|usb2ble-fw|1|0|t16000m_v1|generic_ble_gamepad_16\n"
    );
}

#[test]
fn service_frame_get_status_returns_exact_status_bytes() {
    let mut app = App::new(V1_PROFILE_ID);
    let mut profile_store = FakeProfileStore {
        active_profile: None,
        load_calls: Cell::new(0),
        store_calls: 0,
    };
    let mut bond_store = FakeBondStore {
        bonds_present: true,
        clear_calls: 0,
    };

    let frame = service_frame_ok(
        &mut app,
        b"GET_STATUS\n",
        &mut profile_store,
        &mut bond_store,
        BleConnectionState::Advertising,
    );

    assert_eq!(
        frame.as_bytes(),
        b"STATUS|t16000m_v1|generic_ble_gamepad_16|advertising|1\n"
    );
}

#[test]
fn service_frame_get_profile_returns_exact_profile_bytes() {
    let mut app = App::new(V1_PROFILE_ID);
    let mut profile_store = FakeProfileStore {
        active_profile: None,
        load_calls: Cell::new(0),
        store_calls: 0,
    };
    let mut bond_store = FakeBondStore {
        bonds_present: false,
        clear_calls: 0,
    };

    let frame = service_frame_ok(
        &mut app,
        b"GET_PROFILE\n",
        &mut profile_store,
        &mut bond_store,
        BleConnectionState::Idle,
    );

    assert_eq!(frame.as_bytes(), b"PROFILE|t16000m_v1\n");
}

#[test]
fn service_frame_set_profile_returns_ack_and_persists_profile() {
    let mut app = App::new(V1_PROFILE_ID);
    let mut profile_store = FakeProfileStore {
        active_profile: None,
        load_calls: Cell::new(0),
        store_calls: 0,
    };
    let mut bond_store = FakeBondStore {
        bonds_present: false,
        clear_calls: 0,
    };

    let frame = service_frame_ok(
        &mut app,
        b"SET_PROFILE|t16000m_v1\n",
        &mut profile_store,
        &mut bond_store,
        BleConnectionState::Idle,
    );

    assert_eq!(frame.as_bytes(), b"ACK\n");
    assert_eq!(profile_store.active_profile, Some(V1_PROFILE_ID));
    assert_eq!(profile_store.store_calls, 1);
}

#[test]
fn service_frame_forget_bonds_returns_ack_and_clears_bonds() {
    let mut app = App::new(V1_PROFILE_ID);
    let mut profile_store = FakeProfileStore {
        active_profile: None,
        load_calls: Cell::new(0),
        store_calls: 0,
    };
    let mut bond_store = FakeBondStore {
        bonds_present: true,
        clear_calls: 0,
    };

    let frame = service_frame_ok(
        &mut app,
        b"FORGET_BONDS\n",
        &mut profile_store,
        &mut bond_store,
        BleConnectionState::Idle,
    );

    assert_eq!(frame.as_bytes(), b"ACK\n");
    assert!(!bond_store.bonds_present);
    assert_eq!(bond_store.clear_calls, 1);
}

#[test]
fn service_frame_reboot_returns_exact_ack_bytes() {
    let mut app = App::new(V1_PROFILE_ID);
    let mut profile_store = FakeProfileStore {
        active_profile: None,
        load_calls: Cell::new(0),
        store_calls: 0,
    };
    let mut bond_store = FakeBondStore {
        bonds_present: false,
        clear_calls: 0,
    };

    let frame = service_frame_ok(
        &mut app,
        b"REBOOT\n",
        &mut profile_store,
        &mut bond_store,
        BleConnectionState::Idle,
    );

    assert_eq!(frame.as_bytes(), b"ACK\n");
}

#[test]
fn service_frame_empty_input_returns_decode_empty_error() {
    let mut app = App::new(V1_PROFILE_ID);
    let mut profile_store = FakeProfileStore {
        active_profile: None,
        load_calls: Cell::new(0),
        store_calls: 0,
    };
    let mut bond_store = FakeBondStore {
        bonds_present: false,
        clear_calls: 0,
    };

    assert_eq!(
        app.service_frame(
            b"",
            &mut profile_store,
            &mut bond_store,
            BleConnectionState::Idle
        ),
        Err(FrameServiceError::Decode(FrameError::Empty))
    );
}

#[test]
fn service_frame_unknown_command_returns_decode_unknown_command_error() {
    let mut app = App::new(V1_PROFILE_ID);
    let mut profile_store = FakeProfileStore {
        active_profile: None,
        load_calls: Cell::new(0),
        store_calls: 0,
    };
    let mut bond_store = FakeBondStore {
        bonds_present: false,
        clear_calls: 0,
    };

    assert_eq!(
        app.service_frame(
            b"NOPE\n",
            &mut profile_store,
            &mut bond_store,
            BleConnectionState::Idle
        ),
        Err(FrameServiceError::Decode(FrameError::UnknownCommand))
    );
}

#[test]
fn service_frame_unsupported_profile_returns_decode_unsupported_profile_error() {
    let mut app = App::new(V1_PROFILE_ID);
    let mut profile_store = FakeProfileStore {
        active_profile: None,
        load_calls: Cell::new(0),
        store_calls: 0,
    };
    let mut bond_store = FakeBondStore {
        bonds_present: false,
        clear_calls: 0,
    };

    assert_eq!(
        app.service_frame(
            b"SET_PROFILE|other\n",
            &mut profile_store,
            &mut bond_store,
            BleConnectionState::Idle
        ),
        Err(FrameServiceError::Decode(FrameError::UnsupportedProfile))
    );
}

#[test]
fn device_attached_stores_active_device_id() {
    let mut app = App::new(V1_PROFILE_ID);
    let device_id = UsbDeviceId::new(7);

    assert_eq!(
        app.handle_usb_event(UsbEvent::DeviceAttached(DeviceMeta {
            device_id,
            vendor_id: 1,
            product_id: 2,
        })),
        Ok(UsbServiceOutcome::DeviceAttached {
            device_id,
            vendor_id: 1,
            product_id: 2
        })
    );
    assert_eq!(app.active_device(), Some(device_id));
}

#[test]
fn device_attached_clears_prior_descriptor_and_resets_input() {
    let mut app = App::new(V1_PROFILE_ID);
    let first_device = UsbDeviceId::new(1);
    let second_device = UsbDeviceId::new(2);
    let mut descriptor_bytes = [0_u8; 64];

    descriptor_bytes[..14].copy_from_slice(&[
        0x05, 0x01, 0x09, 0x30, 0x15, 0x81, 0x25, 0x7F, 0x75, 0x08, 0x95, 0x01, 0x81, 0x02,
    ]);

    assert_eq!(
        app.handle_usb_event(UsbEvent::DeviceAttached(DeviceMeta {
            device_id: first_device,
            vendor_id: 1,
            product_id: 2,
        })),
        Ok(UsbServiceOutcome::DeviceAttached {
            device_id: first_device,
            vendor_id: 1,
            product_id: 2
        })
    );
    assert_eq!(
        app.handle_usb_event(UsbEvent::ReportDescriptorReceived {
            device_id: first_device,
            bytes: descriptor_bytes,
            len: 14,
        }),
        Ok(UsbServiceOutcome::DescriptorStored {
            device_id: first_device,
            field_count: 1,
        })
    );

    let mut state = NormalizedJoystickState::default();
    state.set_axis(Axis::X, 33);
    state.set_button(button_index(0), true);
    app.update_input(state);

    assert_eq!(
        app.handle_usb_event(UsbEvent::DeviceAttached(DeviceMeta {
            device_id: second_device,
            vendor_id: 3,
            product_id: 4,
        })),
        Ok(UsbServiceOutcome::DeviceAttached {
            device_id: second_device,
            vendor_id: 3,
            product_id: 4
        })
    );
    assert_eq!(app.active_device(), Some(second_device));
    assert_eq!(app.active_descriptor(), None);
    assert_eq!(
        app.runtime().current_report(),
        GenericBleGamepad16Report::default()
    );
}

#[test]
fn device_detached_for_active_device_clears_device_descriptor_and_input() {
    let mut app = App::new(V1_PROFILE_ID);
    let device_id = UsbDeviceId::new(4);
    let mut descriptor_bytes = [0_u8; 64];

    descriptor_bytes[..14].copy_from_slice(&[
        0x05, 0x01, 0x09, 0x30, 0x15, 0x81, 0x25, 0x7F, 0x75, 0x08, 0x95, 0x01, 0x81, 0x02,
    ]);

    assert_eq!(
        app.handle_usb_event(UsbEvent::DeviceAttached(DeviceMeta {
            device_id,
            vendor_id: 1,
            product_id: 2,
        })),
        Ok(UsbServiceOutcome::DeviceAttached {
            device_id,
            vendor_id: 1,
            product_id: 2
        })
    );
    assert_eq!(
        app.handle_usb_event(UsbEvent::ReportDescriptorReceived {
            device_id,
            bytes: descriptor_bytes,
            len: 14,
        }),
        Ok(UsbServiceOutcome::DescriptorStored {
            device_id,
            field_count: 1,
        })
    );

    let mut state = NormalizedJoystickState::default();
    state.set_axis(Axis::Y, -12);
    app.update_input(state);

    assert_eq!(
        app.handle_usb_event(UsbEvent::DeviceDetached(device_id)),
        Ok(UsbServiceOutcome::DeviceDetached(device_id))
    );
    assert_eq!(app.active_device(), None);
    assert_eq!(app.active_descriptor(), None);
    assert_eq!(
        app.runtime().current_report(),
        GenericBleGamepad16Report::default()
    );
}

#[test]
fn device_detached_for_non_active_device_is_ignored() {
    let mut app = App::new(V1_PROFILE_ID);
    let active_device = UsbDeviceId::new(1);
    let other_device = UsbDeviceId::new(2);

    assert_eq!(
        app.handle_usb_event(UsbEvent::DeviceAttached(DeviceMeta {
            device_id: active_device,
            vendor_id: 1,
            product_id: 2,
        })),
        Ok(UsbServiceOutcome::DeviceAttached {
            device_id: active_device,
            vendor_id: 1,
            product_id: 2
        })
    );

    assert_eq!(
        app.handle_usb_event(UsbEvent::DeviceDetached(other_device)),
        Ok(UsbServiceOutcome::Ignored)
    );
    assert_eq!(app.active_device(), Some(active_device));
}

#[test]
fn matching_report_descriptor_event_stores_descriptor_and_returns_field_count() {
    let mut app = App::new(V1_PROFILE_ID);
    let device_id = UsbDeviceId::new(9);
    let mut bytes = [0_u8; 64];

    bytes[..14].copy_from_slice(&[
        0x05, 0x01, 0x09, 0x30, 0x15, 0x81, 0x25, 0x7F, 0x75, 0x08, 0x95, 0x01, 0x81, 0x02,
    ]);

    assert_eq!(
        app.handle_usb_event(UsbEvent::DeviceAttached(DeviceMeta {
            device_id,
            vendor_id: 1,
            product_id: 2,
        })),
        Ok(UsbServiceOutcome::DeviceAttached {
            device_id,
            vendor_id: 1,
            product_id: 2
        })
    );

    assert_eq!(
        app.handle_usb_event(UsbEvent::ReportDescriptorReceived {
            device_id,
            bytes,
            len: 14,
        }),
        Ok(UsbServiceOutcome::DescriptorStored {
            device_id,
            field_count: 1,
        })
    );
    assert_eq!(
        app.active_descriptor().map(|summary| summary.field_count()),
        Some(1)
    );
}

#[test]
fn report_descriptor_event_for_non_active_device_is_ignored() {
    let mut app = App::new(V1_PROFILE_ID);
    let active_device = UsbDeviceId::new(1);
    let other_device = UsbDeviceId::new(2);
    let mut bytes = [0_u8; 64];

    bytes[..14].copy_from_slice(&[
        0x05, 0x01, 0x09, 0x30, 0x15, 0x81, 0x25, 0x7F, 0x75, 0x08, 0x95, 0x01, 0x81, 0x02,
    ]);

    assert_eq!(
        app.handle_usb_event(UsbEvent::DeviceAttached(DeviceMeta {
            device_id: active_device,
            vendor_id: 1,
            product_id: 2,
        })),
        Ok(UsbServiceOutcome::DeviceAttached {
            device_id: active_device,
            vendor_id: 1,
            product_id: 2
        })
    );

    assert_eq!(
        app.handle_usb_event(UsbEvent::ReportDescriptorReceived {
            device_id: other_device,
            bytes,
            len: 14,
        }),
        Ok(UsbServiceOutcome::Ignored)
    );
    assert_eq!(app.active_descriptor(), None);
}

#[test]
fn report_descriptor_event_rejects_invalid_buffer_length() {
    let mut app = App::new(V1_PROFILE_ID);
    let device_id = UsbDeviceId::new(3);

    assert_eq!(
        app.handle_usb_event(UsbEvent::DeviceAttached(DeviceMeta {
            device_id,
            vendor_id: 1,
            product_id: 2,
        })),
        Ok(UsbServiceOutcome::DeviceAttached {
            device_id,
            vendor_id: 1,
            product_id: 2
        })
    );

    assert_eq!(
        app.handle_usb_event(UsbEvent::ReportDescriptorReceived {
            device_id,
            bytes: [0_u8; 64],
            len: 65,
        }),
        Err(UsbServiceError::InvalidBufferLength { len: 65, max: 64 })
    );
}

#[test]
fn malformed_report_descriptor_event_returns_descriptor_parse_error() {
    let mut app = App::new(V1_PROFILE_ID);
    let device_id = UsbDeviceId::new(5);
    let mut bytes = [0_u8; 64];

    bytes[0] = 0xFE;
    bytes[1] = 0x00;
    bytes[2] = 0x00;

    assert_eq!(
        app.handle_usb_event(UsbEvent::DeviceAttached(DeviceMeta {
            device_id,
            vendor_id: 1,
            product_id: 2,
        })),
        Ok(UsbServiceOutcome::DeviceAttached {
            device_id,
            vendor_id: 1,
            product_id: 2
        })
    );

    assert_eq!(
        app.handle_usb_event(UsbEvent::ReportDescriptorReceived {
            device_id,
            bytes,
            len: 3,
        }),
        Err(UsbServiceError::DescriptorParse(
            DescriptorParseError::Item(ItemParseError::LongItemsUnsupported)
        ))
    );
}

#[test]
fn input_event_for_non_active_device_is_ignored() {
    let mut app = App::new(V1_PROFILE_ID);
    let active_device = UsbDeviceId::new(1);
    let other_device = UsbDeviceId::new(2);
    let mut descriptor_bytes = [0_u8; 64];
    let mut report_bytes = [0_u8; 64];

    descriptor_bytes[..18].copy_from_slice(&[
        0x05, 0x01, 0x15, 0x81, 0x25, 0x7F, 0x75, 0x08, 0x95, 0x01, 0x09, 0x30, 0x81, 0x02,
        0x09, 0x31, 0x81, 0x02,
    ]);
    report_bytes[0] = 0x05;
    report_bytes[1] = 0xF6;

    assert_eq!(
        app.handle_usb_event(UsbEvent::DeviceAttached(DeviceMeta {
            device_id: active_device,
            vendor_id: 1,
            product_id: 2,
        })),
        Ok(UsbServiceOutcome::DeviceAttached {
            device_id: active_device,
            vendor_id: 1,
            product_id: 2
        })
    );
    assert_eq!(
        app.handle_usb_event(UsbEvent::ReportDescriptorReceived {
            device_id: active_device,
            bytes: descriptor_bytes,
            len: 18,
        }),
        Ok(UsbServiceOutcome::DescriptorStored {
            device_id: active_device,
            field_count: 2,
        })
    );

    assert_eq!(
        app.handle_usb_event(UsbEvent::InputReportReceived {
            device_id: other_device,
            report_id: 0,
            bytes: report_bytes,
            len: 2,
        }),
        Ok(UsbServiceOutcome::Ignored)
    );
}

#[test]
fn input_event_before_descriptor_is_stored_is_ignored() {
    let mut app = App::new(V1_PROFILE_ID);
    let device_id = UsbDeviceId::new(6);
    let mut report_bytes = [0_u8; 64];

    report_bytes[0] = 0x05;

    assert_eq!(
        app.handle_usb_event(UsbEvent::DeviceAttached(DeviceMeta {
            device_id,
            vendor_id: 1,
            product_id: 2,
        })),
        Ok(UsbServiceOutcome::DeviceAttached {
            device_id,
            vendor_id: 1,
            product_id: 2
        })
    );

    assert_eq!(
        app.handle_usb_event(UsbEvent::InputReportReceived {
            device_id,
            report_id: 0,
            bytes: report_bytes,
            len: 1,
        }),
        Ok(UsbServiceOutcome::Ignored)
    );
}

#[test]
fn matching_input_event_decodes_normalizes_and_updates_runtime_state() {
    let mut app = App::new(V1_PROFILE_ID);
    let device_id = UsbDeviceId::new(8);
    let mut descriptor_bytes = [0_u8; 64];
    let mut report_bytes = [0_u8; 64];

    descriptor_bytes[..18].copy_from_slice(&[
        0x05, 0x01, 0x15, 0x81, 0x25, 0x7F, 0x75, 0x08, 0x95, 0x01, 0x09, 0x30, 0x81, 0x02,
        0x09, 0x31, 0x81, 0x02,
    ]);
    report_bytes[0] = 0x05;
    report_bytes[1] = 0xF6;

    assert_eq!(
        app.handle_usb_event(UsbEvent::DeviceAttached(DeviceMeta {
            device_id,
            vendor_id: 1,
            product_id: 2,
        })),
        Ok(UsbServiceOutcome::DeviceAttached {
            device_id,
            vendor_id: 1,
            product_id: 2
        })
    );
    assert_eq!(
        app.handle_usb_event(UsbEvent::ReportDescriptorReceived {
            device_id,
            bytes: descriptor_bytes,
            len: 18,
        }),
        Ok(UsbServiceOutcome::DescriptorStored {
            device_id,
            field_count: 2,
        })
    );

    let expected_report = GenericBleGamepad16Report {
        x: 5,
        y: -10,
        rz: 0,
        hat: HatPosition::Centered,
        buttons: 0,
    };

    assert_eq!(
        app.handle_usb_event(UsbEvent::InputReportReceived {
            device_id,
            report_id: 0,
            bytes: report_bytes,
            len: 2,
        }),
        Ok(UsbServiceOutcome::InputApplied(expected_report))
    );
    assert_eq!(app.runtime().current_report(), expected_report);
}

#[test]
fn input_event_rejects_invalid_buffer_length() {
    let mut app = App::new(V1_PROFILE_ID);
    let device_id = UsbDeviceId::new(10);

    assert_eq!(
        app.handle_usb_event(UsbEvent::DeviceAttached(DeviceMeta {
            device_id,
            vendor_id: 1,
            product_id: 2,
        })),
        Ok(UsbServiceOutcome::DeviceAttached {
            device_id,
            vendor_id: 1,
            product_id: 2
        })
    );

    assert_eq!(
        app.handle_usb_event(UsbEvent::InputReportReceived {
            device_id,
            report_id: 0,
            bytes: [0_u8; 64],
            len: 65,
        }),
        Err(UsbServiceError::InvalidBufferLength { len: 65, max: 64 })
    );
}

#[test]
fn input_event_returns_report_decode_error_for_array_field_descriptor() {
    let mut app = App::new(V1_PROFILE_ID);
    let device_id = UsbDeviceId::new(11);
    let mut descriptor_bytes = [0_u8; 64];

    descriptor_bytes[..14].copy_from_slice(&[
        0x05, 0x01, 0x09, 0x30, 0x15, 0x81, 0x25, 0x7F, 0x75, 0x08, 0x95, 0x01, 0x81, 0x00,
    ]);

    assert_eq!(
        app.handle_usb_event(UsbEvent::DeviceAttached(DeviceMeta {
            device_id,
            vendor_id: 1,
            product_id: 2,
        })),
        Ok(UsbServiceOutcome::DeviceAttached {
            device_id,
            vendor_id: 1,
            product_id: 2
        })
    );
    assert_eq!(
        app.handle_usb_event(UsbEvent::ReportDescriptorReceived {
            device_id,
            bytes: descriptor_bytes,
            len: 14,
        }),
        Ok(UsbServiceOutcome::DescriptorStored {
            device_id,
            field_count: 1,
        })
    );

    assert_eq!(
        app.handle_usb_event(UsbEvent::InputReportReceived {
            device_id,
            report_id: 0,
            bytes: [0_u8; 64],
            len: 1,
        }),
        Err(UsbServiceError::ReportDecode(
            DecodeError::ArrayFieldsUnsupported
        ))
    );
}

#[test]
fn input_event_returns_normalize_error_for_out_of_range_button_usage() {
    let mut app = App::new(V1_PROFILE_ID);
    let device_id = UsbDeviceId::new(12);
    let mut descriptor_bytes = [0_u8; 64];
    let mut report_bytes = [0_u8; 64];

    descriptor_bytes[..14].copy_from_slice(&[
        0x05, 0x09, 0x09, 0x11, 0x15, 0x00, 0x25, 0x01, 0x75, 0x01, 0x95, 0x01, 0x81, 0x02,
    ]);
    report_bytes[0] = 0x01;

    assert_eq!(
        app.handle_usb_event(UsbEvent::DeviceAttached(DeviceMeta {
            device_id,
            vendor_id: 1,
            product_id: 2,
        })),
        Ok(UsbServiceOutcome::DeviceAttached {
            device_id,
            vendor_id: 1,
            product_id: 2
        })
    );
    assert_eq!(
        app.handle_usb_event(UsbEvent::ReportDescriptorReceived {
            device_id,
            bytes: descriptor_bytes,
            len: 14,
        }),
        Ok(UsbServiceOutcome::DescriptorStored {
            device_id,
            field_count: 1,
        })
    );

    assert_eq!(
        app.handle_usb_event(UsbEvent::InputReportReceived {
            device_id,
            report_id: 0,
            bytes: report_bytes,
            len: 1,
        }),
        Err(UsbServiceError::Normalize(
            NormalizeError::ButtonOutOfRange { usage: 17 }
        ))
    );
}

#[test]
fn service_usb_once_returns_idle_when_no_event_is_available() {
    let mut app = App::new(V1_PROFILE_ID);
    let runtime_before = app.runtime();
    let active_device_before = app.active_device();
    let active_descriptor_before = app.active_descriptor();
    let mut usb_ingress = FakeUsbIngress {
        next_event: None,
        poll_calls: 0,
    };
    let mut ble_output = FakeBleOutput {
        state: BleConnectionState::Connected,
        last_report: None,
        fail_with: None,
    };

    assert_eq!(
        app.service_usb_once(&mut usb_ingress, &mut ble_output),
        Ok(UsbPumpOutcome::Idle)
    );
    assert_eq!(app.runtime(), runtime_before);
    assert_eq!(app.active_device(), active_device_before);
    assert_eq!(app.active_descriptor(), active_descriptor_before);
    assert_eq!(ble_output.last_report, None);
}

#[test]
fn service_usb_once_returns_handled_for_device_attached_event() {
    let mut app = App::new(V1_PROFILE_ID);
    let device_id = UsbDeviceId::new(13);
    let mut usb_ingress = FakeUsbIngress {
        next_event: Some(UsbEvent::DeviceAttached(DeviceMeta {
            device_id,
            vendor_id: 1,
            product_id: 2,
        })),
        poll_calls: 0,
    };
    let mut ble_output = FakeBleOutput {
        state: BleConnectionState::Connected,
        last_report: None,
        fail_with: None,
    };

    assert_eq!(
        app.service_usb_once(&mut usb_ingress, &mut ble_output),
        Ok(UsbPumpOutcome::Handled(UsbServiceOutcome::DeviceAttached {
            device_id,
            vendor_id: 1,
            product_id: 2
        }))
    );
    assert_eq!(app.active_device(), Some(device_id));
    assert_eq!(ble_output.last_report, None);
}

#[test]
fn service_usb_once_returns_handled_for_descriptor_stored_event() {
    let mut app = App::new(V1_PROFILE_ID);
    let device_id = UsbDeviceId::new(14);
    let mut descriptor_bytes = [0_u8; 64];
    let mut usb_ingress = FakeUsbIngress {
        next_event: None,
        poll_calls: 0,
    };
    let mut ble_output = FakeBleOutput {
        state: BleConnectionState::Connected,
        last_report: None,
        fail_with: None,
    };

    descriptor_bytes[..14].copy_from_slice(&[
        0x05, 0x01, 0x09, 0x30, 0x15, 0x81, 0x25, 0x7F, 0x75, 0x08, 0x95, 0x01, 0x81, 0x02,
    ]);

    assert_eq!(
        app.handle_usb_event(UsbEvent::DeviceAttached(DeviceMeta {
            device_id,
            vendor_id: 1,
            product_id: 2,
        })),
        Ok(UsbServiceOutcome::DeviceAttached {
            device_id,
            vendor_id: 1,
            product_id: 2
        })
    );

    usb_ingress.next_event = Some(UsbEvent::ReportDescriptorReceived {
        device_id,
        bytes: descriptor_bytes,
        len: 14,
    });

    assert_eq!(
        app.service_usb_once(&mut usb_ingress, &mut ble_output),
        Ok(UsbPumpOutcome::Handled(
            UsbServiceOutcome::DescriptorStored {
                device_id,
                field_count: 1,
            }
        ))
    );
    assert_eq!(ble_output.last_report, None);
}

#[test]
fn service_usb_once_publishes_report_for_input_applied_event() {
    let mut app = App::new(V1_PROFILE_ID);
    let device_id = UsbDeviceId::new(15);
    let mut descriptor_bytes = [0_u8; 64];
    let mut report_bytes = [0_u8; 64];
    let mut usb_ingress = FakeUsbIngress {
        next_event: None,
        poll_calls: 0,
    };
    let mut ble_output = FakeBleOutput {
        state: BleConnectionState::Connected,
        last_report: None,
        fail_with: None,
    };

    descriptor_bytes[..18].copy_from_slice(&[
        0x05, 0x01, 0x15, 0x81, 0x25, 0x7F, 0x75, 0x08, 0x95, 0x01, 0x09, 0x30, 0x81, 0x02,
        0x09, 0x31, 0x81, 0x02,
    ]);
    report_bytes[0] = 0x05;
    report_bytes[1] = 0xF6;

    assert_eq!(
        app.handle_usb_event(UsbEvent::DeviceAttached(DeviceMeta {
            device_id,
            vendor_id: 1,
            product_id: 2,
        })),
        Ok(UsbServiceOutcome::DeviceAttached {
            device_id,
            vendor_id: 1,
            product_id: 2
        })
    );
    assert_eq!(
        app.handle_usb_event(UsbEvent::ReportDescriptorReceived {
            device_id,
            bytes: descriptor_bytes,
            len: 18,
        }),
        Ok(UsbServiceOutcome::DescriptorStored {
            device_id,
            field_count: 2,
        })
    );

    let expected_report = GenericBleGamepad16Report {
        x: 5,
        y: -10,
        rz: 0,
        hat: HatPosition::Centered,
        buttons: 0,
    };

    usb_ingress.next_event = Some(UsbEvent::InputReportReceived {
        device_id,
        report_id: 0,
        bytes: report_bytes,
        len: 2,
    });

    assert_eq!(
        app.service_usb_once(&mut usb_ingress, &mut ble_output),
        Ok(UsbPumpOutcome::Published(expected_report))
    );
    assert_eq!(ble_output.last_report, Some(expected_report));
}

#[test]
fn service_usb_once_published_path_records_exact_ble_wire_bytes() {
    let mut app = App::new(V1_PROFILE_ID);
    let mut usb_ingress = FakeUsbIngress {
        next_event: None,
        poll_calls: 0,
    };
    let mut ble_output = WireRecordingBleOutput::new(BleConnectionState::Connected);
    let device_id = UsbDeviceId::new(41);
    let mut payload = [0_u8; 64];
    let report = GenericBleGamepad16Report {
        x: 5,
        y: -10,
        rz: 0,
        hat: HatPosition::Centered,
        buttons: 0,
    };

    usb_ingress.next_event = Some(UsbEvent::DeviceAttached(DeviceMeta {
        device_id,
        vendor_id: 1,
        product_id: 2,
    }));
    assert_eq!(
        app.service_usb_once(&mut usb_ingress, &mut ble_output),
        Ok(UsbPumpOutcome::Handled(UsbServiceOutcome::DeviceAttached {
            device_id,
            vendor_id: 1,
            product_id: 2
        }))
    );

    usb_ingress.next_event = Some(UsbEvent::ReportDescriptorReceived {
        device_id,
        bytes: xy_descriptor_bytes(),
        len: 18,
    });
    assert_eq!(
        app.service_usb_once(&mut usb_ingress, &mut ble_output),
        Ok(UsbPumpOutcome::Handled(
            UsbServiceOutcome::DescriptorStored {
                device_id,
                field_count: 2,
            }
        ))
    );

    payload[0] = 0x05;
    payload[1] = 0xF6;
    usb_ingress.next_event = Some(UsbEvent::InputReportReceived {
        device_id,
        report_id: 0,
        bytes: payload,
        len: 2,
    });

    assert_eq!(
        app.service_usb_once(&mut usb_ingress, &mut ble_output),
        Ok(UsbPumpOutcome::Published(report))
    );
    assert_eq!(ble_output.last_report(), Some(report));
    assert_eq!(
        ble_output.last_wire(),
        Some(encode_generic_ble_gamepad16_report(report))
    );
}

#[test]
fn service_usb_once_wraps_usb_errors() {
    let mut app = App::new(V1_PROFILE_ID);
    let device_id = UsbDeviceId::new(16);
    let mut usb_ingress = FakeUsbIngress {
        next_event: None,
        poll_calls: 0,
    };
    let mut ble_output = FakeBleOutput {
        state: BleConnectionState::Connected,
        last_report: None,
        fail_with: None,
    };

    assert_eq!(
        app.handle_usb_event(UsbEvent::DeviceAttached(DeviceMeta {
            device_id,
            vendor_id: 1,
            product_id: 2,
        })),
        Ok(UsbServiceOutcome::DeviceAttached {
            device_id,
            vendor_id: 1,
            product_id: 2
        })
    );

    usb_ingress.next_event = Some(UsbEvent::InputReportReceived {
        device_id,
        report_id: 0,
        bytes: [0_u8; 64],
        len: 65,
    });

    assert_eq!(
        app.service_usb_once(&mut usb_ingress, &mut ble_output),
        Err(UsbPumpError::Usb(UsbServiceError::InvalidBufferLength {
            len: 65,
            max: 64,
        }))
    );
    assert_eq!(ble_output.last_report, None);
}

#[test]
fn service_usb_once_persona_returns_idle_when_no_event_is_available() {
    let mut app = App::new(V1_PROFILE_ID);
    let mut usb_ingress = FakeUsbIngress {
        next_event: None,
        poll_calls: 0,
    };
    let mut ble_output = PersonaWireRecordingBleOutput::new(BleConnectionState::Connected);

    assert_eq!(
        app.service_usb_once_persona(&mut usb_ingress, &mut ble_output),
        Ok(UsbPersonaPumpOutcome::Idle)
    );
    assert_eq!(usb_ingress.poll_calls, 1);
    assert_eq!(ble_output.last_persona(), None);
    assert_eq!(ble_output.last_wire(), None);
}

#[test]
fn service_usb_once_persona_handles_non_input_event_without_publish() {
    let mut app = App::new(V1_PROFILE_ID);
    let device_id = UsbDeviceId::new(51);
    let mut usb_ingress = FakeUsbIngress {
        next_event: Some(UsbEvent::DeviceAttached(DeviceMeta {
            device_id,
            vendor_id: 1,
            product_id: 2,
        })),
        poll_calls: 0,
    };
    let mut ble_output = PersonaWireRecordingBleOutput::new(BleConnectionState::Connected);

    assert_eq!(
        app.service_usb_once_persona(&mut usb_ingress, &mut ble_output),
        Ok(UsbPersonaPumpOutcome::Handled(
            UsbServiceOutcome::DeviceAttached {
                device_id,
                vendor_id: 1,
                product_id: 2
            }
        ))
    );
    assert_eq!(app.active_device(), Some(device_id));
    assert_eq!(ble_output.last_persona(), None);
    assert_eq!(ble_output.last_wire(), None);
}

#[test]
fn service_usb_once_persona_publishes_persona_and_encoded_report_for_input_event() {
    let mut app = App::new(V1_PROFILE_ID);
    let device_id = UsbDeviceId::new(52);
    let mut payload = [0_u8; 64];
    let mut usb_ingress = FakeUsbIngress {
        next_event: None,
        poll_calls: 0,
    };
    let mut ble_output = PersonaWireRecordingBleOutput::new(BleConnectionState::Connected);

    assert_eq!(
        app.handle_usb_event(UsbEvent::DeviceAttached(DeviceMeta {
            device_id,
            vendor_id: 1,
            product_id: 2,
        })),
        Ok(UsbServiceOutcome::DeviceAttached {
            device_id,
            vendor_id: 1,
            product_id: 2
        })
    );
    assert_eq!(
        app.handle_usb_event(UsbEvent::ReportDescriptorReceived {
            device_id,
            bytes: xy_descriptor_bytes(),
            len: 18,
        }),
        Ok(UsbServiceOutcome::DescriptorStored {
            device_id,
            field_count: 2,
        })
    );

    payload[0] = 0x05;
    payload[1] = 0xF6;
    usb_ingress.next_event = Some(UsbEvent::InputReportReceived {
        device_id,
        report_id: 0,
        bytes: payload,
        len: 2,
    });

    let expected_report = GenericBleGamepad16Report {
        x: 5,
        y: -10,
        rz: 0,
        hat: HatPosition::Centered,
        buttons: 0,
    };
    let expected_persona = app.current_output_persona();

    assert_eq!(
        app.service_usb_once_persona(&mut usb_ingress, &mut ble_output),
        Ok(UsbPersonaPumpOutcome::Published {
            report: expected_report,
            persona: expected_persona,
            encoded: app.current_encoded_ble_input_report(),
        })
    );
    assert_eq!(ble_output.last_persona(), Some(expected_persona));
    assert_eq!(
        ble_output.last_wire(),
        Some(app.current_encoded_ble_input_report())
    );
}

#[test]
fn service_usb_once_persona_propagates_persona_output_failure() {
    let mut app = App::new(V1_PROFILE_ID);
    let device_id = UsbDeviceId::new(53);
    let mut payload = [0_u8; 64];
    let mut usb_ingress = FakeUsbIngress {
        next_event: None,
        poll_calls: 0,
    };
    let mut ble_output = PersonaWireRecordingBleOutput::new(BleConnectionState::Connected);

    assert_eq!(
        app.handle_usb_event(UsbEvent::DeviceAttached(DeviceMeta {
            device_id,
            vendor_id: 1,
            product_id: 2,
        })),
        Ok(UsbServiceOutcome::DeviceAttached {
            device_id,
            vendor_id: 1,
            product_id: 2
        })
    );
    assert_eq!(
        app.handle_usb_event(UsbEvent::ReportDescriptorReceived {
            device_id,
            bytes: xy_descriptor_bytes(),
            len: 18,
        }),
        Ok(UsbServiceOutcome::DescriptorStored {
            device_id,
            field_count: 2,
        })
    );

    ble_output.set_fail_with(BlePublishError::NotReady);

    payload[0] = 0x05;
    payload[1] = 0xF6;
    usb_ingress.next_event = Some(UsbEvent::InputReportReceived {
        device_id,
        report_id: 0,
        bytes: payload,
        len: 2,
    });

    assert_eq!(
        app.service_usb_once_persona(&mut usb_ingress, &mut ble_output),
        Err(UsbPersonaPumpError::Ble(BlePublishError::NotReady))
    );
    assert_eq!(ble_output.last_persona(), None);
    assert_eq!(ble_output.last_wire(), None);
}

#[test]
fn service_usb_once_wraps_ble_publish_errors() {
    let mut app = App::new(V1_PROFILE_ID);
    let device_id = UsbDeviceId::new(17);
    let mut descriptor_bytes = [0_u8; 64];
    let mut report_bytes = [0_u8; 64];
    let mut usb_ingress = FakeUsbIngress {
        next_event: None,
        poll_calls: 0,
    };
    let mut ble_output = FakeBleOutput {
        state: BleConnectionState::Connected,
        last_report: None,
        fail_with: Some(BlePublishError::NotReady),
    };

    descriptor_bytes[..18].copy_from_slice(&[
        0x05, 0x01, 0x15, 0x81, 0x25, 0x7F, 0x75, 0x08, 0x95, 0x01, 0x09, 0x30, 0x81, 0x02,
        0x09, 0x31, 0x81, 0x02,
    ]);
    report_bytes[0] = 0x05;
    report_bytes[1] = 0xF6;

    assert_eq!(
        app.handle_usb_event(UsbEvent::DeviceAttached(DeviceMeta {
            device_id,
            vendor_id: 1,
            product_id: 2,
        })),
        Ok(UsbServiceOutcome::DeviceAttached {
            device_id,
            vendor_id: 1,
            product_id: 2
        })
    );
    assert_eq!(
        app.handle_usb_event(UsbEvent::ReportDescriptorReceived {
            device_id,
            bytes: descriptor_bytes,
            len: 18,
        }),
        Ok(UsbServiceOutcome::DescriptorStored {
            device_id,
            field_count: 2,
        })
    );

    usb_ingress.next_event = Some(UsbEvent::InputReportReceived {
        device_id,
        report_id: 0,
        bytes: report_bytes,
        len: 2,
    });

    assert_eq!(
        app.service_usb_once(&mut usb_ingress, &mut ble_output),
        Err(UsbPumpError::Ble(BlePublishError::NotReady))
    );
    assert_eq!(ble_output.last_report, None);
}

#[test]
fn wire_recording_ble_output_failure_is_propagated_through_usb_pump() {
    let mut app = App::new(V1_PROFILE_ID);
    let mut usb_ingress = FakeUsbIngress {
        next_event: None,
        poll_calls: 0,
    };
    let mut ble_output = WireRecordingBleOutput::new(BleConnectionState::Connected);
    let device_id = UsbDeviceId::new(43);
    let mut payload = [0_u8; 64];

    usb_ingress.next_event = Some(UsbEvent::DeviceAttached(DeviceMeta {
        device_id,
        vendor_id: 1,
        product_id: 2,
    }));
    assert_eq!(
        app.service_usb_once(&mut usb_ingress, &mut ble_output),
        Ok(UsbPumpOutcome::Handled(UsbServiceOutcome::DeviceAttached {
            device_id,
            vendor_id: 1,
            product_id: 2
        }))
    );

    usb_ingress.next_event = Some(UsbEvent::ReportDescriptorReceived {
        device_id,
        bytes: xy_descriptor_bytes(),
        len: 18,
    });
    assert_eq!(
        app.service_usb_once(&mut usb_ingress, &mut ble_output),
        Ok(UsbPumpOutcome::Handled(
            UsbServiceOutcome::DescriptorStored {
                device_id,
                field_count: 2,
            }
        ))
    );

    ble_output.set_fail_with(BlePublishError::NotReady);

    payload[0] = 0x05;
    payload[1] = 0xF6;
    usb_ingress.next_event = Some(UsbEvent::InputReportReceived {
        device_id,
        report_id: 0,
        bytes: payload,
        len: 2,
    });

    assert_eq!(
        app.service_usb_once(&mut usb_ingress, &mut ble_output),
        Err(UsbPumpError::Ble(BlePublishError::NotReady))
    );
    assert_eq!(ble_output.last_report(), None);
    assert_eq!(ble_output.last_wire(), None);
}

#[test]
fn service_once_prioritizes_console_over_usb_and_leaves_usb_pending() {
    let mut app = App::new(V1_PROFILE_ID);
    let device_id = UsbDeviceId::new(18);
    let expected = Response::Info(app.device_info());
    let mut command_source = FakeCommandSource {
        next_command: Some(Command::GetInfo),
        poll_calls: 0,
    };
    let mut response_sink = FakeResponseSink {
        sent_response: None,
        send_calls: 0,
        fail_with: None,
    };
    let mut profile_store = FakeProfileStore {
        active_profile: None,
        load_calls: Cell::new(0),
        store_calls: 0,
    };
    let mut bond_store = FakeBondStore {
        bonds_present: false,
        clear_calls: 0,
    };
    let mut usb_ingress = FakeUsbIngress {
        next_event: Some(UsbEvent::DeviceAttached(DeviceMeta {
            device_id,
            vendor_id: 1,
            product_id: 2,
        })),
        poll_calls: 0,
    };
    let mut ble_output = FakeBleOutput {
        state: BleConnectionState::Connected,
        last_report: None,
        fail_with: None,
    };

    assert_eq!(
        app.service_once(
            &mut command_source,
            &mut response_sink,
            &mut profile_store,
            &mut bond_store,
            BleConnectionState::Idle,
            &mut usb_ingress,
            &mut ble_output,
        ),
        Ok(AppPumpOutcome::Console(ServiceOutcome::Responded(expected)))
    );
    assert_eq!(usb_ingress.poll_calls, 0);
    assert_eq!(app.active_device(), None);
    assert_eq!(ble_output.last_report, None);

    assert_eq!(
        app.service_once(
            &mut command_source,
            &mut response_sink,
            &mut profile_store,
            &mut bond_store,
            BleConnectionState::Idle,
            &mut usb_ingress,
            &mut ble_output,
        ),
        Ok(AppPumpOutcome::Usb(UsbPumpOutcome::Handled(
            UsbServiceOutcome::DeviceAttached {
                device_id,
                vendor_id: 1,
                product_id: 2
            }
        )))
    );
    assert_eq!(usb_ingress.poll_calls, 1);
    assert_eq!(app.active_device(), Some(device_id));
    assert_eq!(ble_output.last_report, None);
}

#[test]
fn service_once_returns_usb_idle_when_console_and_usb_are_idle() {
    let mut app = App::new(V1_PROFILE_ID);
    let mut command_source = FakeCommandSource {
        next_command: None,
        poll_calls: 0,
    };
    let mut response_sink = FakeResponseSink {
        sent_response: None,
        send_calls: 0,
        fail_with: None,
    };
    let mut profile_store = FakeProfileStore {
        active_profile: None,
        load_calls: Cell::new(0),
        store_calls: 0,
    };
    let mut bond_store = FakeBondStore {
        bonds_present: false,
        clear_calls: 0,
    };
    let mut usb_ingress = FakeUsbIngress {
        next_event: None,
        poll_calls: 0,
    };
    let mut ble_output = FakeBleOutput {
        state: BleConnectionState::Connected,
        last_report: None,
        fail_with: None,
    };

    assert_eq!(
        app.service_once(
            &mut command_source,
            &mut response_sink,
            &mut profile_store,
            &mut bond_store,
            BleConnectionState::Idle,
            &mut usb_ingress,
            &mut ble_output,
        ),
        Ok(AppPumpOutcome::Usb(UsbPumpOutcome::Idle))
    );
    assert_eq!(command_source.poll_calls, 1);
    assert_eq!(usb_ingress.poll_calls, 1);
    assert_eq!(ble_output.last_report, None);
}

#[test]
fn service_once_routes_console_idle_to_usb_handled_event() {
    let mut app = App::new(V1_PROFILE_ID);
    let device_id = UsbDeviceId::new(19);
    let mut command_source = FakeCommandSource {
        next_command: None,
        poll_calls: 0,
    };
    let mut response_sink = FakeResponseSink {
        sent_response: None,
        send_calls: 0,
        fail_with: None,
    };
    let mut profile_store = FakeProfileStore {
        active_profile: None,
        load_calls: Cell::new(0),
        store_calls: 0,
    };
    let mut bond_store = FakeBondStore {
        bonds_present: false,
        clear_calls: 0,
    };
    let mut usb_ingress = FakeUsbIngress {
        next_event: Some(UsbEvent::DeviceAttached(DeviceMeta {
            device_id,
            vendor_id: 1,
            product_id: 2,
        })),
        poll_calls: 0,
    };
    let mut ble_output = FakeBleOutput {
        state: BleConnectionState::Connected,
        last_report: None,
        fail_with: None,
    };

    assert_eq!(
        app.service_once(
            &mut command_source,
            &mut response_sink,
            &mut profile_store,
            &mut bond_store,
            BleConnectionState::Idle,
            &mut usb_ingress,
            &mut ble_output,
        ),
        Ok(AppPumpOutcome::Usb(UsbPumpOutcome::Handled(
            UsbServiceOutcome::DeviceAttached {
                device_id,
                vendor_id: 1,
                product_id: 2
            }
        )))
    );
    assert_eq!(app.active_device(), Some(device_id));
    assert_eq!(ble_output.last_report, None);
}

#[test]
fn service_once_routes_console_idle_to_usb_published_input_event() {
    let mut app = App::new(V1_PROFILE_ID);
    let device_id = UsbDeviceId::new(20);
    let mut descriptor_bytes = [0_u8; 64];
    let mut report_bytes = [0_u8; 64];
    let mut command_source = FakeCommandSource {
        next_command: None,
        poll_calls: 0,
    };
    let mut response_sink = FakeResponseSink {
        sent_response: None,
        send_calls: 0,
        fail_with: None,
    };
    let mut profile_store = FakeProfileStore {
        active_profile: None,
        load_calls: Cell::new(0),
        store_calls: 0,
    };
    let mut bond_store = FakeBondStore {
        bonds_present: false,
        clear_calls: 0,
    };
    let mut usb_ingress = FakeUsbIngress {
        next_event: None,
        poll_calls: 0,
    };
    let mut ble_output = FakeBleOutput {
        state: BleConnectionState::Connected,
        last_report: None,
        fail_with: None,
    };

    descriptor_bytes[..18].copy_from_slice(&[
        0x05, 0x01, 0x15, 0x81, 0x25, 0x7F, 0x75, 0x08, 0x95, 0x01, 0x09, 0x30, 0x81, 0x02,
        0x09, 0x31, 0x81, 0x02,
    ]);
    report_bytes[0] = 0x05;
    report_bytes[1] = 0xF6;

    assert_eq!(
        app.handle_usb_event(UsbEvent::DeviceAttached(DeviceMeta {
            device_id,
            vendor_id: 1,
            product_id: 2,
        })),
        Ok(UsbServiceOutcome::DeviceAttached {
            device_id,
            vendor_id: 1,
            product_id: 2
        })
    );
    assert_eq!(
        app.handle_usb_event(UsbEvent::ReportDescriptorReceived {
            device_id,
            bytes: descriptor_bytes,
            len: 18,
        }),
        Ok(UsbServiceOutcome::DescriptorStored {
            device_id,
            field_count: 2,
        })
    );

    let expected_report = GenericBleGamepad16Report {
        x: 5,
        y: -10,
        rz: 0,
        hat: HatPosition::Centered,
        buttons: 0,
    };

    usb_ingress.next_event = Some(UsbEvent::InputReportReceived {
        device_id,
        report_id: 0,
        bytes: report_bytes,
        len: 2,
    });

    assert_eq!(
        app.service_once(
            &mut command_source,
            &mut response_sink,
            &mut profile_store,
            &mut bond_store,
            BleConnectionState::Idle,
            &mut usb_ingress,
            &mut ble_output,
        ),
        Ok(AppPumpOutcome::Usb(UsbPumpOutcome::Published(
            expected_report
        )))
    );
    assert_eq!(ble_output.last_report, Some(expected_report));
}

#[test]
fn service_once_wraps_console_errors() {
    let mut app = App::new(V1_PROFILE_ID);
    let device_id = UsbDeviceId::new(21);
    let mut command_source = FakeCommandSource {
        next_command: Some(Command::GetInfo),
        poll_calls: 0,
    };
    let mut response_sink = FakeResponseSink {
        sent_response: None,
        send_calls: 0,
        fail_with: Some(ConsoleError::Transport),
    };
    let mut profile_store = FakeProfileStore {
        active_profile: None,
        load_calls: Cell::new(0),
        store_calls: 0,
    };
    let mut bond_store = FakeBondStore {
        bonds_present: false,
        clear_calls: 0,
    };
    let mut usb_ingress = FakeUsbIngress {
        next_event: Some(UsbEvent::DeviceAttached(DeviceMeta {
            device_id,
            vendor_id: 1,
            product_id: 2,
        })),
        poll_calls: 0,
    };
    let mut ble_output = FakeBleOutput {
        state: BleConnectionState::Connected,
        last_report: None,
        fail_with: None,
    };

    assert_eq!(
        app.service_once(
            &mut command_source,
            &mut response_sink,
            &mut profile_store,
            &mut bond_store,
            BleConnectionState::Idle,
            &mut usb_ingress,
            &mut ble_output,
        ),
        Err(AppPumpError::Console(ServiceError::Console(
            ConsoleError::Transport
        )))
    );
    assert_eq!(usb_ingress.poll_calls, 0);
    assert_eq!(ble_output.last_report, None);
}

#[test]
fn service_once_wraps_usb_errors_when_console_is_idle() {
    let mut app = App::new(V1_PROFILE_ID);
    let device_id = UsbDeviceId::new(22);
    let mut command_source = FakeCommandSource {
        next_command: None,
        poll_calls: 0,
    };
    let mut response_sink = FakeResponseSink {
        sent_response: None,
        send_calls: 0,
        fail_with: None,
    };
    let mut profile_store = FakeProfileStore {
        active_profile: None,
        load_calls: Cell::new(0),
        store_calls: 0,
    };
    let mut bond_store = FakeBondStore {
        bonds_present: false,
        clear_calls: 0,
    };
    let mut usb_ingress = FakeUsbIngress {
        next_event: Some(UsbEvent::InputReportReceived {
            device_id,
            report_id: 0,
            bytes: [0_u8; 64],
            len: 65,
        }),
        poll_calls: 0,
    };
    let mut ble_output = FakeBleOutput {
        state: BleConnectionState::Connected,
        last_report: None,
        fail_with: None,
    };

    assert_eq!(
        app.service_once(
            &mut command_source,
            &mut response_sink,
            &mut profile_store,
            &mut bond_store,
            BleConnectionState::Idle,
            &mut usb_ingress,
            &mut ble_output,
        ),
        Err(AppPumpError::Usb(UsbPumpError::Usb(
            UsbServiceError::InvalidBufferLength { len: 65, max: 64 }
        )))
    );
    assert_eq!(ble_output.last_report, None);
}

#[test]
fn service_once_wraps_usb_publish_errors_when_console_is_idle() {
    let mut app = App::new(V1_PROFILE_ID);
    let device_id = UsbDeviceId::new(23);
    let mut descriptor_bytes = [0_u8; 64];
    let mut report_bytes = [0_u8; 64];
    let mut command_source = FakeCommandSource {
        next_command: None,
        poll_calls: 0,
    };
    let mut response_sink = FakeResponseSink {
        sent_response: None,
        send_calls: 0,
        fail_with: None,
    };
    let mut profile_store = FakeProfileStore {
        active_profile: None,
        load_calls: Cell::new(0),
        store_calls: 0,
    };
    let mut bond_store = FakeBondStore {
        bonds_present: false,
        clear_calls: 0,
    };
    let mut usb_ingress = FakeUsbIngress {
        next_event: None,
        poll_calls: 0,
    };
    let mut ble_output = FakeBleOutput {
        state: BleConnectionState::Connected,
        last_report: None,
        fail_with: Some(BlePublishError::NotReady),
    };

    descriptor_bytes[..18].copy_from_slice(&[
        0x05, 0x01, 0x15, 0x81, 0x25, 0x7F, 0x75, 0x08, 0x95, 0x01, 0x09, 0x30, 0x81, 0x02,
        0x09, 0x31, 0x81, 0x02,
    ]);
    report_bytes[0] = 0x05;
    report_bytes[1] = 0xF6;

    assert_eq!(
        app.handle_usb_event(UsbEvent::DeviceAttached(DeviceMeta {
            device_id,
            vendor_id: 1,
            product_id: 2,
        })),
        Ok(UsbServiceOutcome::DeviceAttached {
            device_id,
            vendor_id: 1,
            product_id: 2
        })
    );
    assert_eq!(
        app.handle_usb_event(UsbEvent::ReportDescriptorReceived {
            device_id,
            bytes: descriptor_bytes,
            len: 18,
        }),
        Ok(UsbServiceOutcome::DescriptorStored {
            device_id,
            field_count: 2,
        })
    );

    usb_ingress.next_event = Some(UsbEvent::InputReportReceived {
        device_id,
        report_id: 0,
        bytes: report_bytes,
        len: 2,
    });

    assert_eq!(
        app.service_once(
            &mut command_source,
            &mut response_sink,
            &mut profile_store,
            &mut bond_store,
            BleConnectionState::Idle,
            &mut usb_ingress,
            &mut ble_output,
        ),
        Err(AppPumpError::Usb(UsbPumpError::Ble(
            BlePublishError::NotReady
        )))
    );
    assert_eq!(ble_output.last_report, None);
}

#[test]
fn service_once_with_platform_adapters_handles_console_get_info() {
    let mut app = App::new(V1_PROFILE_ID);
    let expected_info = app.device_info();
    let mut command_source = QueuedCommandSource::with_command(Command::GetInfo);
    let mut response_sink = RecordingResponseSink::new();
    let mut profile_store = MemoryProfileStore::new();
    let mut bond_store = MemoryBondStore::new();
    let mut usb_ingress = QueuedUsbIngress::new();
    let mut ble_output = RecordingBleOutput::new(BleConnectionState::Idle);

    assert_eq!(
        app.service_once(
            &mut command_source,
            &mut response_sink,
            &mut profile_store,
            &mut bond_store,
            BleConnectionState::Idle,
            &mut usb_ingress,
            &mut ble_output,
        ),
        Ok(AppPumpOutcome::Console(ServiceOutcome::Responded(
            Response::Info(expected_info)
        )))
    );
    assert_eq!(
        response_sink.last_response(),
        Some(Response::Info(expected_info))
    );
    assert_eq!(response_sink.send_calls(), 1);
    assert_eq!(command_source.poll_calls(), 1);
    assert_eq!(usb_ingress.poll_calls(), 0);
    assert_eq!(ble_output.last_report(), None);
}

#[test]
fn service_once_with_platform_adapters_runs_usb_pipeline_end_to_end() {
    let mut app = App::new(V1_PROFILE_ID);
    let mut command_source = QueuedCommandSource::new();
    let mut response_sink = RecordingResponseSink::new();
    let mut profile_store = MemoryProfileStore::new();
    let mut bond_store = MemoryBondStore::new();
    let mut usb_ingress = QueuedUsbIngress::new();
    let mut ble_output = RecordingBleOutput::new(BleConnectionState::Connected);
    let device_id = UsbDeviceId::new(21);
    let mut report_bytes = [0_u8; 64];

    usb_ingress.queue_event(UsbEvent::DeviceAttached(DeviceMeta {
        device_id,
        vendor_id: 1,
        product_id: 2,
    }));

    assert_eq!(
        app.service_once(
            &mut command_source,
            &mut response_sink,
            &mut profile_store,
            &mut bond_store,
            BleConnectionState::Idle,
            &mut usb_ingress,
            &mut ble_output,
        ),
        Ok(AppPumpOutcome::Usb(UsbPumpOutcome::Handled(
            UsbServiceOutcome::DeviceAttached {
                device_id,
                vendor_id: 1,
                product_id: 2
            }
        )))
    );

    usb_ingress.queue_event(UsbEvent::ReportDescriptorReceived {
        device_id,
        bytes: xy_descriptor_bytes(),
        len: 18,
    });

    assert_eq!(
        app.service_once(
            &mut command_source,
            &mut response_sink,
            &mut profile_store,
            &mut bond_store,
            BleConnectionState::Idle,
            &mut usb_ingress,
            &mut ble_output,
        ),
        Ok(AppPumpOutcome::Usb(UsbPumpOutcome::Handled(
            UsbServiceOutcome::DescriptorStored {
                device_id,
                field_count: 2,
            }
        )))
    );

    report_bytes[0] = 0x05;
    report_bytes[1] = 0xF6;
    usb_ingress.queue_event(UsbEvent::InputReportReceived {
        device_id,
        report_id: 0,
        bytes: report_bytes,
        len: 2,
    });

    let expected_report = GenericBleGamepad16Report {
        x: 5,
        y: -10,
        rz: 0,
        hat: HatPosition::Centered,
        buttons: 0,
    };

    assert_eq!(
        app.service_once(
            &mut command_source,
            &mut response_sink,
            &mut profile_store,
            &mut bond_store,
            BleConnectionState::Idle,
            &mut usb_ingress,
            &mut ble_output,
        ),
        Ok(AppPumpOutcome::Usb(UsbPumpOutcome::Published(
            expected_report
        )))
    );
    assert_eq!(ble_output.last_report(), Some(expected_report));
    assert_eq!(response_sink.last_response(), None);
    assert_eq!(command_source.poll_calls(), 3);
    assert_eq!(usb_ingress.poll_calls(), 3);
}

#[test]
fn service_once_with_platform_adapters_clears_memory_bonds() {
    let mut app = App::new(V1_PROFILE_ID);
    let mut command_source = QueuedCommandSource::with_command(Command::ForgetBonds);
    let mut response_sink = RecordingResponseSink::new();
    let mut profile_store = MemoryProfileStore::new();
    let mut bond_store = MemoryBondStore::with_bonds_present(true);
    let mut usb_ingress = QueuedUsbIngress::new();
    let mut ble_output = RecordingBleOutput::new(BleConnectionState::Idle);

    assert_eq!(
        app.service_once(
            &mut command_source,
            &mut response_sink,
            &mut profile_store,
            &mut bond_store,
            BleConnectionState::Idle,
            &mut usb_ingress,
            &mut ble_output,
        ),
        Ok(AppPumpOutcome::Console(ServiceOutcome::Responded(
            Response::Ack
        )))
    );
    assert!(!bond_store.bonds_present());
    assert_eq!(response_sink.last_response(), Some(Response::Ack));
    assert_eq!(usb_ingress.poll_calls(), 0);
}

#[test]
fn service_once_with_console_buffer_prioritizes_console_over_usb() {
    let mut app = App::new(V1_PROFILE_ID);
    let mut buffer = FramedConsoleBuffer::new();
    let mut profile_store = MemoryProfileStore::new();
    let mut bond_store = MemoryBondStore::new();
    let device_id = UsbDeviceId::new(31);
    let mut usb_ingress = QueuedUsbIngress::with_event(UsbEvent::DeviceAttached(DeviceMeta {
        device_id,
        vendor_id: 1,
        product_id: 2,
    }));
    let mut ble_output = RecordingBleOutput::new(BleConnectionState::Idle);
    let expected = Response::Info(app.device_info());

    assert_eq!(buffer.push_rx_bytes(b"GET_INFO\n"), Ok(()));
    assert_eq!(
        app.service_once_with_console_buffer(
            &mut buffer,
            &mut profile_store,
            &mut bond_store,
            BleConnectionState::Idle,
            &mut usb_ingress,
            &mut ble_output,
        ),
        Ok(BufferedAppPumpOutcome::Console(
            BufferedConsoleOutcome::Responded(expected)
        ))
    );
    assert_eq!(
        buffer.tx_bytes(),
        b"INFO|usb2ble-fw|1|0|t16000m_v1|generic_ble_gamepad_16\n"
    );
    assert_eq!(app.active_device(), None);
    assert_eq!(usb_ingress.poll_calls(), 0);
    assert_eq!(ble_output.last_report(), None);

    assert_eq!(
        app.service_once_with_console_buffer(
            &mut buffer,
            &mut profile_store,
            &mut bond_store,
            BleConnectionState::Idle,
            &mut usb_ingress,
            &mut ble_output,
        ),
        Ok(BufferedAppPumpOutcome::Usb(UsbPumpOutcome::Handled(
            UsbServiceOutcome::DeviceAttached {
                device_id,
                vendor_id: 1,
                product_id: 2
            }
        )))
    );
}

#[test]
fn service_once_with_console_buffer_returns_usb_idle_when_both_sources_are_idle() {
    let mut app = App::new(V1_PROFILE_ID);
    let mut buffer = FramedConsoleBuffer::new();
    let mut profile_store = MemoryProfileStore::new();
    let mut bond_store = MemoryBondStore::new();
    let mut usb_ingress = QueuedUsbIngress::new();
    let mut ble_output = RecordingBleOutput::new(BleConnectionState::Idle);

    assert_eq!(
        app.service_once_with_console_buffer(
            &mut buffer,
            &mut profile_store,
            &mut bond_store,
            BleConnectionState::Idle,
            &mut usb_ingress,
            &mut ble_output,
        ),
        Ok(BufferedAppPumpOutcome::Usb(UsbPumpOutcome::Idle))
    );
}

#[test]
fn service_once_with_console_buffer_handles_usb_publish_when_console_buffer_is_idle() {
    let mut app = App::new(V1_PROFILE_ID);
    let mut buffer = FramedConsoleBuffer::new();
    let mut profile_store = MemoryProfileStore::new();
    let mut bond_store = MemoryBondStore::new();
    let mut usb_ingress = QueuedUsbIngress::new();
    let mut ble_output = RecordingBleOutput::new(BleConnectionState::Connected);
    let device_id = UsbDeviceId::new(32);
    let mut report_bytes = [0_u8; 64];
    let expected_report = GenericBleGamepad16Report {
        x: 5,
        y: -10,
        rz: 0,
        hat: HatPosition::Centered,
        buttons: 0,
    };

    usb_ingress.queue_event(UsbEvent::DeviceAttached(DeviceMeta {
        device_id,
        vendor_id: 1,
        product_id: 2,
    }));
    assert_eq!(
        app.service_once_with_console_buffer(
            &mut buffer,
            &mut profile_store,
            &mut bond_store,
            BleConnectionState::Idle,
            &mut usb_ingress,
            &mut ble_output,
        ),
        Ok(BufferedAppPumpOutcome::Usb(UsbPumpOutcome::Handled(
            UsbServiceOutcome::DeviceAttached {
                device_id,
                vendor_id: 1,
                product_id: 2
            }
        )))
    );

    usb_ingress.queue_event(UsbEvent::ReportDescriptorReceived {
        device_id,
        bytes: xy_descriptor_bytes(),
        len: 18,
    });
    assert_eq!(
        app.service_once_with_console_buffer(
            &mut buffer,
            &mut profile_store,
            &mut bond_store,
            BleConnectionState::Idle,
            &mut usb_ingress,
            &mut ble_output,
        ),
        Ok(BufferedAppPumpOutcome::Usb(UsbPumpOutcome::Handled(
            UsbServiceOutcome::DescriptorStored {
                device_id,
                field_count: 2,
            }
        )))
    );

    report_bytes[0] = 0x05;
    report_bytes[1] = 0xF6;
    usb_ingress.queue_event(UsbEvent::InputReportReceived {
        device_id,
        report_id: 0,
        bytes: report_bytes,
        len: 2,
    });
    assert_eq!(
        app.service_once_with_console_buffer(
            &mut buffer,
            &mut profile_store,
            &mut bond_store,
            BleConnectionState::Idle,
            &mut usb_ingress,
            &mut ble_output,
        ),
        Ok(BufferedAppPumpOutcome::Usb(UsbPumpOutcome::Published(
            expected_report
        )))
    );
    assert_eq!(ble_output.last_report(), Some(expected_report));
    assert!(buffer.tx_bytes().is_empty());
}

#[test]
fn service_once_with_console_buffer_usb_publish_records_exact_ble_wire_bytes() {
    let mut app = App::new(V1_PROFILE_ID);
    let mut buffer = FramedConsoleBuffer::new();
    let mut profile_store = MemoryProfileStore::new();
    let mut bond_store = MemoryBondStore::new();
    let mut usb_ingress = QueuedUsbIngress::new();
    let mut ble_output = WireRecordingBleOutput::new(BleConnectionState::Connected);
    let device_id = UsbDeviceId::new(42);
    let mut payload = [0_u8; 64];
    let report = GenericBleGamepad16Report {
        x: 5,
        y: -10,
        rz: 0,
        hat: HatPosition::Centered,
        buttons: 0,
    };

    usb_ingress.queue_event(UsbEvent::DeviceAttached(DeviceMeta {
        device_id,
        vendor_id: 1,
        product_id: 2,
    }));
    assert_eq!(
        app.service_once_with_console_buffer(
            &mut buffer,
            &mut profile_store,
            &mut bond_store,
            BleConnectionState::Idle,
            &mut usb_ingress,
            &mut ble_output,
        ),
        Ok(BufferedAppPumpOutcome::Usb(UsbPumpOutcome::Handled(
            UsbServiceOutcome::DeviceAttached {
                device_id,
                vendor_id: 1,
                product_id: 2
            }
        )))
    );

    usb_ingress.queue_event(UsbEvent::ReportDescriptorReceived {
        device_id,
        bytes: xy_descriptor_bytes(),
        len: 18,
    });
    assert_eq!(
        app.service_once_with_console_buffer(
            &mut buffer,
            &mut profile_store,
            &mut bond_store,
            BleConnectionState::Idle,
            &mut usb_ingress,
            &mut ble_output,
        ),
        Ok(BufferedAppPumpOutcome::Usb(UsbPumpOutcome::Handled(
            UsbServiceOutcome::DescriptorStored {
                device_id,
                field_count: 2,
            }
        )))
    );

    payload[0] = 0x05;
    payload[1] = 0xF6;
    usb_ingress.queue_event(UsbEvent::InputReportReceived {
        device_id,
        report_id: 0,
        bytes: payload,
        len: 2,
    });
    assert_eq!(
        app.service_once_with_console_buffer(
            &mut buffer,
            &mut profile_store,
            &mut bond_store,
            BleConnectionState::Idle,
            &mut usb_ingress,
            &mut ble_output,
        ),
        Ok(BufferedAppPumpOutcome::Usb(UsbPumpOutcome::Published(
            report
        )))
    );
    assert_eq!(ble_output.last_report(), Some(report));
    assert_eq!(
        ble_output.last_wire(),
        Some(encode_generic_ble_gamepad16_report(report))
    );
    assert!(buffer.tx_bytes().is_empty());
}

#[test]
fn service_once_with_console_buffer_wraps_buffer_decode_errors() {
    let mut app = App::new(V1_PROFILE_ID);
    let mut buffer = FramedConsoleBuffer::new();
    let mut profile_store = MemoryProfileStore::new();
    let mut bond_store = MemoryBondStore::new();
    let mut usb_ingress = QueuedUsbIngress::new();
    let mut ble_output = RecordingBleOutput::new(BleConnectionState::Idle);

    assert_eq!(buffer.push_rx_bytes(b"NOPE\n"), Ok(()));
    assert_eq!(
        app.service_once_with_console_buffer(
            &mut buffer,
            &mut profile_store,
            &mut bond_store,
            BleConnectionState::Idle,
            &mut usb_ingress,
            &mut ble_output,
        ),
        Err(BufferedAppPumpError::Console(BufferedConsoleError::Buffer(
            FrameBufferError::Decode(FrameError::UnknownCommand)
        )))
    );
    assert_eq!(buffer.rx_len(), 0);
    assert!(buffer.tx_bytes().is_empty());
    assert_eq!(usb_ingress.poll_calls(), 0);
    assert_eq!(ble_output.last_report(), None);
}

#[test]
fn service_once_with_console_buffer_wraps_usb_errors_when_console_is_idle() {
    let mut app = App::new(V1_PROFILE_ID);
    let mut buffer = FramedConsoleBuffer::new();
    let mut profile_store = MemoryProfileStore::new();
    let mut bond_store = MemoryBondStore::new();
    let mut usb_ingress = QueuedUsbIngress::with_event(UsbEvent::ReportDescriptorReceived {
        device_id: UsbDeviceId::new(33),
        bytes: [0_u8; 64],
        len: 65,
    });
    let mut ble_output = RecordingBleOutput::new(BleConnectionState::Idle);

    assert_eq!(
        app.service_once_with_console_buffer(
            &mut buffer,
            &mut profile_store,
            &mut bond_store,
            BleConnectionState::Idle,
            &mut usb_ingress,
            &mut ble_output,
        ),
        Err(BufferedAppPumpError::Usb(UsbPumpError::Usb(
            UsbServiceError::InvalidBufferLength { len: 65, max: 64 }
        )))
    );
}

#[test]
fn service_once_with_console_buffer_persona_prioritizes_console_over_usb() {
    let mut app = App::new(V1_PROFILE_ID);
    let mut buffer = FramedConsoleBuffer::new();
    let mut profile_store = MemoryProfileStore::new();
    let mut bond_store = MemoryBondStore::new();
    let mut usb_ingress = FakeUsbIngress {
        next_event: Some(UsbEvent::DeviceAttached(DeviceMeta {
            device_id: UsbDeviceId::new(71),
            vendor_id: 1,
            product_id: 2,
        })),
        poll_calls: 0,
    };
    let mut ble_output = PersonaWireRecordingBleOutput::new(BleConnectionState::Connected);

    assert_eq!(buffer.push_rx_bytes(b"GET_INFO\n"), Ok(()));

    let outcome = match app.service_once_with_console_buffer_persona(
        &mut buffer,
        &mut profile_store,
        &mut bond_store,
        BleConnectionState::Connected,
        &mut usb_ingress,
        &mut ble_output,
    ) {
        Ok(outcome) => outcome,
        Err(error) => panic!("service_once_with_console_buffer_persona failed: {error:?}"),
    };

    match outcome {
        BufferedPersonaAppPumpOutcome::Console(BufferedConsoleOutcome::Responded(
            Response::Info(_),
        )) => {}
        _ => panic!("expected Info response, got {:?}", outcome),
    }

    assert!(buffer
        .tx_bytes()
        .windows(5)
        .any(|window| window == b"INFO|"));
    assert_eq!(app.active_device(), None);
    assert_eq!(ble_output.last_persona(), None);
    assert_eq!(ble_output.last_wire(), None);

    let outcome2 = match app.service_once_with_console_buffer_persona(
        &mut buffer,
        &mut profile_store,
        &mut bond_store,
        BleConnectionState::Connected,
        &mut usb_ingress,
        &mut ble_output,
    ) {
        Ok(outcome) => outcome,
        Err(error) => panic!("service_once_with_console_buffer_persona failed: {error:?}"),
    };

    assert_eq!(
        outcome2,
        BufferedPersonaAppPumpOutcome::Usb(UsbPersonaPumpOutcome::Handled(
            UsbServiceOutcome::DeviceAttached {
                device_id: UsbDeviceId::new(71),
                vendor_id: 1,
                product_id: 2
            }
        ))
    );
}

#[test]
fn service_once_with_console_buffer_persona_returns_usb_idle_when_both_sources_are_idle() {
    let mut app = App::new(V1_PROFILE_ID);
    let mut buffer = FramedConsoleBuffer::new();
    let mut profile_store = MemoryProfileStore::new();
    let mut bond_store = MemoryBondStore::new();
    let mut usb_ingress = FakeUsbIngress {
        next_event: None,
        poll_calls: 0,
    };
    let mut ble_output = PersonaWireRecordingBleOutput::new(BleConnectionState::Connected);

    let outcome = match app.service_once_with_console_buffer_persona(
        &mut buffer,
        &mut profile_store,
        &mut bond_store,
        BleConnectionState::Connected,
        &mut usb_ingress,
        &mut ble_output,
    ) {
        Ok(outcome) => outcome,
        Err(error) => panic!("service_once_with_console_buffer_persona failed: {error:?}"),
    };

    assert_eq!(
        outcome,
        BufferedPersonaAppPumpOutcome::Usb(UsbPersonaPumpOutcome::Idle)
    );
}

#[test]
fn service_once_with_console_buffer_persona_publishes_persona_usb_report_when_console_is_idle()
{
    let mut app = App::new(V1_PROFILE_ID);
    let mut buffer = FramedConsoleBuffer::new();
    let mut profile_store = MemoryProfileStore::new();
    let mut bond_store = MemoryBondStore::new();
    let mut usb_ingress = FakeUsbIngress {
        next_event: None,
        poll_calls: 0,
    };
    let mut ble_output = PersonaWireRecordingBleOutput::new(BleConnectionState::Connected);
    let device_id = UsbDeviceId::new(72);

    usb_ingress.next_event = Some(UsbEvent::DeviceAttached(DeviceMeta {
        device_id,
        vendor_id: 1,
        product_id: 2,
    }));
    if let Err(error) = app.service_once_with_console_buffer_persona(
        &mut buffer,
        &mut profile_store,
        &mut bond_store,
        BleConnectionState::Connected,
        &mut usb_ingress,
        &mut ble_output,
    ) {
        panic!("service_once_with_console_buffer_persona failed: {error:?}");
    }

    usb_ingress.next_event = Some(UsbEvent::ReportDescriptorReceived {
        device_id,
        bytes: xy_descriptor_bytes(),
        len: 18,
    });
    if let Err(error) = app.service_once_with_console_buffer_persona(
        &mut buffer,
        &mut profile_store,
        &mut bond_store,
        BleConnectionState::Connected,
        &mut usb_ingress,
        &mut ble_output,
    ) {
        panic!("service_once_with_console_buffer_persona failed: {error:?}");
    }

    let mut payload = [0_u8; 64];
    payload[0] = 0x05;
    payload[1] = 0xF6;
    usb_ingress.next_event = Some(UsbEvent::InputReportReceived {
        device_id,
        report_id: 0,
        bytes: payload,
        len: 2,
    });

    let outcome = match app.service_once_with_console_buffer_persona(
        &mut buffer,
        &mut profile_store,
        &mut bond_store,
        BleConnectionState::Connected,
        &mut usb_ingress,
        &mut ble_output,
    ) {
        Ok(outcome) => outcome,
        Err(error) => panic!("service_once_with_console_buffer_persona failed: {error:?}"),
    };

    let report = GenericBleGamepad16Report {
        x: 5,
        y: -10,
        rz: 0,
        hat: HatPosition::Centered,
        buttons: 0,
    };
    let persona = OutputPersona::GenericBleGamepad16;
    let encoded = encode_generic_ble_gamepad16_report(report);

    assert_eq!(
        outcome,
        BufferedPersonaAppPumpOutcome::Usb(UsbPersonaPumpOutcome::Published {
            report,
            persona,
            encoded
        })
    );
    assert_eq!(ble_output.last_persona(), Some(persona));
    assert_eq!(ble_output.last_wire(), Some(encoded));
    assert!(buffer.tx_bytes().is_empty());
}

#[test]
fn service_once_with_console_buffer_persona_wraps_console_buffer_errors() {
    let mut app = App::new(V1_PROFILE_ID);
    let mut buffer = FramedConsoleBuffer::new();
    let mut profile_store = MemoryProfileStore::new();
    let mut bond_store = MemoryBondStore::new();
    let mut usb_ingress = FakeUsbIngress {
        next_event: None,
        poll_calls: 0,
    };
    let mut ble_output = PersonaWireRecordingBleOutput::new(BleConnectionState::Connected);

    assert_eq!(buffer.push_rx_bytes(b"NOPE\n"), Ok(()));

    let outcome = app.service_once_with_console_buffer_persona(
        &mut buffer,
        &mut profile_store,
        &mut bond_store,
        BleConnectionState::Connected,
        &mut usb_ingress,
        &mut ble_output,
    );

    assert_eq!(
        outcome,
        Err(BufferedPersonaAppPumpError::Console(
            BufferedConsoleError::Buffer(FrameBufferError::Decode(FrameError::UnknownCommand))
        ))
    );
    assert_eq!(buffer.rx_len(), 0);
    assert!(buffer.tx_bytes().is_empty());
    assert_eq!(ble_output.last_persona(), None);
}

#[test]
fn service_once_with_console_buffer_persona_wraps_persona_usb_publish_errors() {
    let mut app = App::new(V1_PROFILE_ID);
    let mut buffer = FramedConsoleBuffer::new();
    let mut profile_store = MemoryProfileStore::new();
    let mut bond_store = MemoryBondStore::new();
    let mut usb_ingress = FakeUsbIngress {
        next_event: None,
        poll_calls: 0,
    };
    let mut ble_output = PersonaWireRecordingBleOutput::new(BleConnectionState::Connected);
    let device_id = UsbDeviceId::new(72);

    usb_ingress.next_event = Some(UsbEvent::DeviceAttached(DeviceMeta {
        device_id,
        vendor_id: 1,
        product_id: 2,
    }));
    if let Err(error) = app.service_once_with_console_buffer_persona(
        &mut buffer,
        &mut profile_store,
        &mut bond_store,
        BleConnectionState::Connected,
        &mut usb_ingress,
        &mut ble_output,
    ) {
        panic!("service_once_with_console_buffer_persona failed: {error:?}");
    }

    usb_ingress.next_event = Some(UsbEvent::ReportDescriptorReceived {
        device_id,
        bytes: xy_descriptor_bytes(),
        len: 18,
    });
    if let Err(error) = app.service_once_with_console_buffer_persona(
        &mut buffer,
        &mut profile_store,
        &mut bond_store,
        BleConnectionState::Connected,
        &mut usb_ingress,
        &mut ble_output,
    ) {
        panic!("service_once_with_console_buffer_persona failed: {error:?}");
    }

    ble_output.set_fail_with(BlePublishError::NotReady);

    let mut payload = [0_u8; 64];
    payload[0] = 0x05;
    payload[1] = 0xF6;
    usb_ingress.next_event = Some(UsbEvent::InputReportReceived {
        device_id,
        report_id: 0,
        bytes: payload,
        len: 2,
    });

    let outcome = app.service_once_with_console_buffer_persona(
        &mut buffer,
        &mut profile_store,
        &mut bond_store,
        BleConnectionState::Connected,
        &mut usb_ingress,
        &mut ble_output,
    );

    assert_eq!(
        outcome,
        Err(BufferedPersonaAppPumpError::Usb(UsbPersonaPumpError::Ble(
            BlePublishError::NotReady
        )))
    );
    assert_eq!(ble_output.last_persona(), None);
    assert_eq!(ble_output.last_wire(), None);
}

#[test]
fn service_once_persona_prioritizes_console_over_usb() {
    let mut app = App::new(V1_PROFILE_ID);
    let mut command_source = FakeCommandSource {
        next_command: Some(Command::GetInfo),
        poll_calls: 0,
    };
    let mut response_sink = FakeResponseSink {
        sent_response: None,
        send_calls: 0,
        fail_with: None,
    };
    let mut profile_store = FakeProfileStore {
        active_profile: None,
        load_calls: Cell::new(0),
        store_calls: 0,
    };
    let mut bond_store = FakeBondStore {
        bonds_present: false,
        clear_calls: 0,
    };
    let mut usb_ingress = FakeUsbIngress {
        next_event: Some(UsbEvent::DeviceAttached(DeviceMeta {
            device_id: UsbDeviceId::new(81),
            vendor_id: 1,
            product_id: 2,
        })),
        poll_calls: 0,
    };
    let mut ble_output = PersonaWireRecordingBleOutput::new(BleConnectionState::Connected);

    let result = app.service_once_persona(
        &mut command_source,
        &mut response_sink,
        &mut profile_store,
        &mut bond_store,
        BleConnectionState::Connected,
        &mut usb_ingress,
        &mut ble_output,
    );

    let expected_info = Response::Info(app.device_info());
    assert_eq!(
        result,
        Ok(PersonaAppPumpOutcome::Console(ServiceOutcome::Responded(
            expected_info
        )))
    );
    assert_eq!(response_sink.sent_response, Some(expected_info));
    assert_eq!(app.active_device(), None);
    assert_eq!(ble_output.last_persona(), None);
    assert_eq!(ble_output.last_wire(), None);

    let result2 = app.service_once_persona(
        &mut command_source,
        &mut response_sink,
        &mut profile_store,
        &mut bond_store,
        BleConnectionState::Connected,
        &mut usb_ingress,
        &mut ble_output,
    );

    assert_eq!(
        result2,
        Ok(PersonaAppPumpOutcome::Usb(UsbPersonaPumpOutcome::Handled(
            UsbServiceOutcome::DeviceAttached {
                device_id: UsbDeviceId::new(81),
                vendor_id: 1,
                product_id: 2
            }
        )))
    );
}

#[test]
fn service_once_persona_returns_usb_idle_when_both_sources_are_idle() {
    let mut app = App::new(V1_PROFILE_ID);
    let mut command_source = FakeCommandSource {
        next_command: None,
        poll_calls: 0,
    };
    let mut response_sink = FakeResponseSink {
        sent_response: None,
        send_calls: 0,
        fail_with: None,
    };
    let mut profile_store = FakeProfileStore {
        active_profile: None,
        load_calls: Cell::new(0),
        store_calls: 0,
    };
    let mut bond_store = FakeBondStore {
        bonds_present: false,
        clear_calls: 0,
    };
    let mut usb_ingress = FakeUsbIngress {
        next_event: None,
        poll_calls: 0,
    };
    let mut ble_output = PersonaWireRecordingBleOutput::new(BleConnectionState::Connected);

    let result = app.service_once_persona(
        &mut command_source,
        &mut response_sink,
        &mut profile_store,
        &mut bond_store,
        BleConnectionState::Connected,
        &mut usb_ingress,
        &mut ble_output,
    );

    assert_eq!(
        result,
        Ok(PersonaAppPumpOutcome::Usb(UsbPersonaPumpOutcome::Idle))
    );
}

#[test]
fn service_once_persona_publishes_persona_usb_report_when_console_is_idle() {
    let mut app = App::new(V1_PROFILE_ID);
    let mut command_source = FakeCommandSource {
        next_command: None,
        poll_calls: 0,
    };
    let mut response_sink = FakeResponseSink {
        sent_response: None,
        send_calls: 0,
        fail_with: None,
    };
    let mut profile_store = FakeProfileStore {
        active_profile: None,
        load_calls: Cell::new(0),
        store_calls: 0,
    };
    let mut bond_store = FakeBondStore {
        bonds_present: false,
        clear_calls: 0,
    };
    let mut usb_ingress = FakeUsbIngress {
        next_event: None,
        poll_calls: 0,
    };
    let mut ble_output = PersonaWireRecordingBleOutput::new(BleConnectionState::Connected);
    let device_id = UsbDeviceId::new(82);

    usb_ingress.next_event = Some(UsbEvent::DeviceAttached(DeviceMeta {
        device_id,
        vendor_id: 1,
        product_id: 2,
    }));
    let _ = app.service_once_persona(
        &mut command_source,
        &mut response_sink,
        &mut profile_store,
        &mut bond_store,
        BleConnectionState::Connected,
        &mut usb_ingress,
        &mut ble_output,
    );

    usb_ingress.next_event = Some(UsbEvent::ReportDescriptorReceived {
        device_id,
        bytes: xy_descriptor_bytes(),
        len: 18,
    });
    let _ = app.service_once_persona(
        &mut command_source,
        &mut response_sink,
        &mut profile_store,
        &mut bond_store,
        BleConnectionState::Connected,
        &mut usb_ingress,
        &mut ble_output,
    );

    let mut payload = [0_u8; 64];
    payload[0] = 0x05;
    payload[1] = 0xF6;
    usb_ingress.next_event = Some(UsbEvent::InputReportReceived {
        device_id,
        report_id: 0,
        bytes: payload,
        len: 2,
    });

    let result = app.service_once_persona(
        &mut command_source,
        &mut response_sink,
        &mut profile_store,
        &mut bond_store,
        BleConnectionState::Connected,
        &mut usb_ingress,
        &mut ble_output,
    );

    let report = GenericBleGamepad16Report {
        x: 5,
        y: -10,
        rz: 0,
        hat: HatPosition::Centered,
        buttons: 0,
    };
    let persona = OutputPersona::GenericBleGamepad16;
    let encoded = encode_generic_ble_gamepad16_report(report);

    assert_eq!(
        result,
        Ok(PersonaAppPumpOutcome::Usb(
            UsbPersonaPumpOutcome::Published {
                report,
                persona,
                encoded
            }
        ))
    );
    assert_eq!(ble_output.last_persona(), Some(persona));
    assert_eq!(ble_output.last_wire(), Some(encoded));
}

#[test]
fn service_once_persona_wraps_console_errors() {
    let mut app = App::new(V1_PROFILE_ID);
    let mut command_source = FakeCommandSource {
        next_command: Some(Command::GetInfo),
        poll_calls: 0,
    };
    let mut response_sink = FakeResponseSink {
        sent_response: None,
        send_calls: 0,
        fail_with: Some(ConsoleError::Transport),
    };
    let mut profile_store = FakeProfileStore {
        active_profile: None,
        load_calls: Cell::new(0),
        store_calls: 0,
    };
    let mut bond_store = FakeBondStore {
        bonds_present: false,
        clear_calls: 0,
    };
    let mut usb_ingress = FakeUsbIngress {
        next_event: None,
        poll_calls: 0,
    };
    let mut ble_output = PersonaWireRecordingBleOutput::new(BleConnectionState::Connected);

    let result = app.service_once_persona(
        &mut command_source,
        &mut response_sink,
        &mut profile_store,
        &mut bond_store,
        BleConnectionState::Connected,
        &mut usb_ingress,
        &mut ble_output,
    );

    assert_eq!(
        result,
        Err(PersonaAppPumpError::Console(ServiceError::Console(
            ConsoleError::Transport
        )))
    );
    assert_eq!(ble_output.last_persona(), None);
}

#[test]
fn service_once_persona_wraps_persona_usb_publish_errors() {
    let mut app = App::new(V1_PROFILE_ID);
    let mut command_source = FakeCommandSource {
        next_command: None,
        poll_calls: 0,
    };
    let mut response_sink = FakeResponseSink {
        sent_response: None,
        send_calls: 0,
        fail_with: None,
    };
    let mut profile_store = FakeProfileStore {
        active_profile: None,
        load_calls: Cell::new(0),
        store_calls: 0,
    };
    let mut bond_store = FakeBondStore {
        bonds_present: false,
        clear_calls: 0,
    };
    let mut usb_ingress = FakeUsbIngress {
        next_event: None,
        poll_calls: 0,
    };
    let mut ble_output = PersonaWireRecordingBleOutput::new(BleConnectionState::Connected);
    let device_id = UsbDeviceId::new(82);

    usb_ingress.next_event = Some(UsbEvent::DeviceAttached(DeviceMeta {
        device_id,
        vendor_id: 1,
        product_id: 2,
    }));
    let _ = app.service_once_persona(
        &mut command_source,
        &mut response_sink,
        &mut profile_store,
        &mut bond_store,
        BleConnectionState::Connected,
        &mut usb_ingress,
        &mut ble_output,
    );

    usb_ingress.next_event = Some(UsbEvent::ReportDescriptorReceived {
        device_id,
        bytes: xy_descriptor_bytes(),
        len: 18,
    });
    let _ = app.service_once_persona(
        &mut command_source,
        &mut response_sink,
        &mut profile_store,
        &mut bond_store,
        BleConnectionState::Connected,
        &mut usb_ingress,
        &mut ble_output,
    );

    ble_output.set_fail_with(BlePublishError::NotReady);

    let mut payload = [0_u8; 64];
    payload[0] = 0x05;
    payload[1] = 0xF6;
    usb_ingress.next_event = Some(UsbEvent::InputReportReceived {
        device_id,
        report_id: 0,
        bytes: payload,
        len: 2,
    });

    let result = app.service_once_persona(
        &mut command_source,
        &mut response_sink,
        &mut profile_store,
        &mut bond_store,
        BleConnectionState::Connected,
        &mut usb_ingress,
        &mut ble_output,
    );

    assert_eq!(
        result,
        Err(PersonaAppPumpError::Usb(UsbPersonaPumpError::Ble(
            BlePublishError::NotReady
        )))
    );
    assert_eq!(ble_output.last_persona(), None);
    assert_eq!(ble_output.last_wire(), None);
}

#[test]
fn service_once_persona_with_platform_adapters_handles_console_get_info() {
    let mut app = App::new(V1_PROFILE_ID);
    let mut command_source = QueuedCommandSource::with_command(Command::GetInfo);
    let mut response_sink = RecordingResponseSink::new();
    let mut profile_store = MemoryProfileStore::new();
    let mut bond_store = MemoryBondStore::new();
    let mut usb_ingress = QueuedUsbIngress::new();
    let mut ble_output = PersonaWireRecordingBleOutput::new(BleConnectionState::Idle);

    let expected_info = app.device_info();

    assert_eq!(
        app.service_once_persona(
            &mut command_source,
            &mut response_sink,
            &mut profile_store,
            &mut bond_store,
            BleConnectionState::Idle,
            &mut usb_ingress,
            &mut ble_output,
        ),
        Ok(PersonaAppPumpOutcome::Console(ServiceOutcome::Responded(
            Response::Info(expected_info)
        )))
    );

    assert_eq!(
        response_sink.last_response(),
        Some(Response::Info(expected_info))
    );
    assert_eq!(response_sink.send_calls(), 1);
    assert_eq!(command_source.poll_calls(), 1);
    assert_eq!(usb_ingress.poll_calls(), 0);
    assert_eq!(ble_output.last_persona(), None);
    assert_eq!(ble_output.last_wire(), None);
}

#[test]
fn service_once_persona_with_platform_adapters_runs_usb_pipeline_end_to_end() {
    let mut app = App::new(V1_PROFILE_ID);
    let mut command_source = QueuedCommandSource::new();
    let mut response_sink = RecordingResponseSink::new();
    let mut profile_store = MemoryProfileStore::new();
    let mut bond_store = MemoryBondStore::new();
    let mut usb_ingress = QueuedUsbIngress::new();
    let mut ble_output = PersonaWireRecordingBleOutput::new(BleConnectionState::Connected);

    let device_id = UsbDeviceId::new(91);

    // Stage 1: Attach
    usb_ingress.queue_event(UsbEvent::DeviceAttached(DeviceMeta {
        device_id,
        vendor_id: 1,
        product_id: 2,
    }));

    assert_eq!(
        app.service_once_persona(
            &mut command_source,
            &mut response_sink,
            &mut profile_store,
            &mut bond_store,
            BleConnectionState::Connected,
            &mut usb_ingress,
            &mut ble_output,
        ),
        Ok(PersonaAppPumpOutcome::Usb(UsbPersonaPumpOutcome::Handled(
            UsbServiceOutcome::DeviceAttached {
                device_id,
                vendor_id: 1,
                product_id: 2
            }
        )))
    );

    // Stage 2: Descriptor
    usb_ingress.queue_event(UsbEvent::ReportDescriptorReceived {
        device_id,
        bytes: xy_descriptor_bytes(),
        len: 18,
    });

    assert_eq!(
        app.service_once_persona(
            &mut command_source,
            &mut response_sink,
            &mut profile_store,
            &mut bond_store,
            BleConnectionState::Connected,
            &mut usb_ingress,
            &mut ble_output,
        ),
        Ok(PersonaAppPumpOutcome::Usb(UsbPersonaPumpOutcome::Handled(
            UsbServiceOutcome::DescriptorStored {
                device_id,
                field_count: 2,
            }
        )))
    );

    // Stage 3: Input
    let mut payload = [0_u8; 64];
    payload[0] = 0x05;
    payload[1] = 0xF6;
    usb_ingress.queue_event(UsbEvent::InputReportReceived {
        device_id,
        report_id: 0,
        bytes: payload,
        len: 2,
    });

    let expected_report = GenericBleGamepad16Report {
        x: 5,
        y: -10,
        rz: 0,
        hat: HatPosition::Centered,
        buttons: 0,
    };
    let expected_persona = OutputPersona::GenericBleGamepad16;
    let expected_encoded = encode_generic_ble_gamepad16_report(expected_report);

    assert_eq!(
        app.service_once_persona(
            &mut command_source,
            &mut response_sink,
            &mut profile_store,
            &mut bond_store,
            BleConnectionState::Connected,
            &mut usb_ingress,
            &mut ble_output,
        ),
        Ok(PersonaAppPumpOutcome::Usb(
            UsbPersonaPumpOutcome::Published {
                report: expected_report,
                persona: expected_persona,
                encoded: expected_encoded,
            }
        ))
    );

    assert_eq!(ble_output.last_persona(), Some(expected_persona));
    assert_eq!(ble_output.last_wire(), Some(expected_encoded));
    assert_eq!(response_sink.last_response(), None);
}

#[test]
fn service_once_with_console_buffer_persona_with_platform_adapters_prioritizes_console_then_usb(
) {
    let mut app = App::new(V1_PROFILE_ID);
    let mut buffer = FramedConsoleBuffer::new();
    let mut profile_store = MemoryProfileStore::new();
    let mut bond_store = MemoryBondStore::new();
    let mut usb_ingress = QueuedUsbIngress::with_event(UsbEvent::DeviceAttached(DeviceMeta {
        device_id: UsbDeviceId::new(92),
        vendor_id: 1,
        product_id: 2,
    }));
    let mut ble_output = PersonaWireRecordingBleOutput::new(BleConnectionState::Connected);

    let expected_info = app.device_info();

    // Push RX bytes
    assert_eq!(buffer.push_rx_bytes(b"GET_INFO\n"), Ok(()));

    // First call: Console priority
    assert_eq!(
        app.service_once_with_console_buffer_persona(
            &mut buffer,
            &mut profile_store,
            &mut bond_store,
            BleConnectionState::Connected,
            &mut usb_ingress,
            &mut ble_output,
        ),
        Ok(BufferedPersonaAppPumpOutcome::Console(
            BufferedConsoleOutcome::Responded(Response::Info(expected_info))
        ))
    );

    assert!(buffer
        .tx_bytes()
        .windows(5)
        .any(|window| window == b"INFO|"));
    assert_eq!(app.active_device(), None);
    assert_eq!(ble_output.last_persona(), None);
    assert_eq!(ble_output.last_wire(), None);

    // Second call: Handle queued USB event
    assert_eq!(
        app.service_once_with_console_buffer_persona(
            &mut buffer,
            &mut profile_store,
            &mut bond_store,
            BleConnectionState::Connected,
            &mut usb_ingress,
            &mut ble_output,
        ),
        Ok(BufferedPersonaAppPumpOutcome::Usb(
            UsbPersonaPumpOutcome::Handled(UsbServiceOutcome::DeviceAttached {
                device_id: UsbDeviceId::new(92),
                vendor_id: 1,
                product_id: 2
            })
        ))
    );

    assert_eq!(app.active_device(), Some(UsbDeviceId::new(92)));
}

#[test]
fn service_once_with_console_buffer_persona_with_platform_adapters_forget_bonds_roundtrip() {
    let mut app = App::new(V1_PROFILE_ID);
    let mut buffer = FramedConsoleBuffer::new();
    let mut profile_store = MemoryProfileStore::new();
    let mut bond_store = MemoryBondStore::with_bonds_present(true);
    let mut usb_ingress = QueuedUsbIngress::new();
    let mut ble_output = PersonaWireRecordingBleOutput::new(BleConnectionState::Idle);

    // Push RX bytes
    assert_eq!(buffer.push_rx_bytes(b"FORGET_BONDS\n"), Ok(()));

    // Call: Handle forget bonds
    assert_eq!(
        app.service_once_with_console_buffer_persona(
            &mut buffer,
            &mut profile_store,
            &mut bond_store,
            BleConnectionState::Idle,
            &mut usb_ingress,
            &mut ble_output,
        ),
        Ok(BufferedPersonaAppPumpOutcome::Console(
            BufferedConsoleOutcome::Responded(Response::Ack)
        ))
    );

    assert!(!bond_store.bonds_present());
    assert_eq!(buffer.tx_bytes(), b"ACK\n");
    assert_eq!(usb_ingress.poll_calls(), 0);
    assert_eq!(ble_output.last_persona(), None);
    assert_eq!(ble_output.last_wire(), None);
}

#[test]
fn embedded_runtime_state_new_for_host_bootstraps_v1_profile() {
    let runtime = EmbeddedRuntimeState::new_for_host();
    assert_eq!(runtime.app.runtime().active_profile(), V1_PROFILE_ID);
    assert_eq!(runtime.ble_state(), BleConnectionState::Idle);
    assert!(!runtime.bonds_present());
}

#[test]
fn embedded_runtime_state_boot_info_matches_app_contract() {
    let mut runtime = EmbeddedRuntimeState::new_for_host();
    runtime.set_ble_state(BleConnectionState::Connected);
    assert!(runtime.store_bonds_present(true).is_ok());

    let info = runtime.boot_info();

    assert_eq!(info.active_profile, V1_PROFILE_ID);
    assert_eq!(info.output_persona, OutputPersona::GenericBleGamepad16);
    assert_eq!(
        info.ble_descriptor,
        usb2ble::ble_hid::output_persona_descriptor(
            OutputPersona::GenericBleGamepad16
        )
    );
    assert_eq!(
        info.initial_encoded_report,
        usb2ble::ble_hid::encode_generic_ble_gamepad16_report(
            GenericBleGamepad16Report::default()
        )
    );
    assert_eq!(info.ble_state, BleConnectionState::Connected);
    assert!(info.bonds_present);
}

#[test]
fn embedded_runtime_state_step_persona_services_console_roundtrip() {
    let mut runtime = EmbeddedRuntimeState::new_for_host();
    assert!(runtime.console_buffer.push_rx_bytes(b"GET_INFO\n").is_ok());

    let result = runtime.step_persona(BleConnectionState::Idle);

    match result {
        Ok(BufferedPersonaAppPumpOutcome::Console(BufferedConsoleOutcome::Responded(
            Response::Info(_),
        ))) => {}
        _ => panic!("expected Info response, got {:?}", result),
    }

    assert!(!runtime.console_buffer.tx_bytes().is_empty());
    assert!(runtime.ble_output.last_persona().is_none());
}

#[test]
fn embedded_runtime_state_step_persona_services_usb_input_to_persona_wire() {
    let mut runtime = EmbeddedRuntimeState::new_for_host();
    let device_id = UsbDeviceId::new(1);

    // Queue attach
    runtime
        .usb_ingress
        .queue_event(UsbEvent::DeviceAttached(DeviceMeta {
            device_id,
            vendor_id: 1,
            product_id: 2,
        }));
    assert!(runtime.step_persona(BleConnectionState::Connected).is_ok());

    // Queue descriptor
    runtime
        .usb_ingress
        .queue_event(UsbEvent::ReportDescriptorReceived {
            device_id,
            bytes: xy_descriptor_bytes(),
            len: 18,
        });
    assert!(runtime.step_persona(BleConnectionState::Connected).is_ok());

    // Queue input [0x05, 0xF6]
    let mut payload = [0_u8; 64];
    payload[0] = 0x05;
    payload[1] = 0xF6;
    runtime
        .usb_ingress
        .queue_event(UsbEvent::InputReportReceived {
            device_id,
            report_id: 0,
            bytes: payload,
            len: 2,
        });

    let result = runtime.step_persona(BleConnectionState::Connected);

    let report = GenericBleGamepad16Report {
        x: 5,
        y: -10,
        rz: 0,
        hat: HatPosition::Centered,
        buttons: 0,
    };
    let persona = OutputPersona::GenericBleGamepad16;
    let encoded = encode_generic_ble_gamepad16_report(report);

    assert_eq!(
        result,
        Ok(BufferedPersonaAppPumpOutcome::Usb(
            UsbPersonaPumpOutcome::Published {
                report,
                persona,
                encoded
            }
        ))
    );

    assert_eq!(runtime.ble_output.last_persona(), Some(persona));
    assert_eq!(runtime.ble_output.last_wire(), Some(encoded));
}

#[test]
fn embedded_runtime_state_queue_usb_event_exposes_event_to_step_persona() {
    let mut runtime = EmbeddedRuntimeState::new_for_host();
    let device_id = UsbDeviceId::new(10);

    runtime.queue_usb_event(UsbEvent::DeviceAttached(DeviceMeta {
        device_id,
        vendor_id: 1,
        product_id: 2,
    }));

    let outcome = runtime.step_persona(BleConnectionState::Idle);
    assert_eq!(
        outcome,
        Ok(BufferedPersonaAppPumpOutcome::Usb(
            UsbPersonaPumpOutcome::Handled(UsbServiceOutcome::DeviceAttached {
                device_id,
                vendor_id: 1,
                product_id: 2
            })
        ))
    );
}

#[test]
fn embedded_runtime_state_push_console_bytes_allows_console_roundtrip() {
    let mut runtime = EmbeddedRuntimeState::new_for_host();
    assert!(runtime.push_console_bytes(b"GET_INFO\n").is_ok());

    let result = runtime.step_persona(BleConnectionState::Idle);
    match result {
        Ok(BufferedPersonaAppPumpOutcome::Console(BufferedConsoleOutcome::Responded(
            Response::Info(_),
        ))) => {}
        _ => panic!("expected Info response, got {:?}", result),
    }
    assert!(!runtime.console_buffer.tx_bytes().is_empty());
}

#[test]
fn embedded_runtime_state_last_persona_and_last_wire_reflect_publish() {
    let mut runtime = EmbeddedRuntimeState::new_for_host();
    let device_id = UsbDeviceId::new(11);

    runtime.queue_usb_event(UsbEvent::DeviceAttached(DeviceMeta {
        device_id,
        vendor_id: 1,
        product_id: 2,
    }));
    let _ = runtime.step_persona(BleConnectionState::Connected);

    runtime.queue_usb_event(UsbEvent::ReportDescriptorReceived {
        device_id,
        bytes: xy_descriptor_bytes(),
        len: 18,
    });
    let _ = runtime.step_persona(BleConnectionState::Connected);

    let mut payload = [0_u8; 64];
    payload[0] = 0x05;
    payload[1] = 0xF6;
    runtime.queue_usb_event(UsbEvent::InputReportReceived {
        device_id,
        report_id: 0,
        bytes: payload,
        len: 2,
    });

    let _ = runtime.step_persona(BleConnectionState::Connected);

    let report = GenericBleGamepad16Report {
        x: 5,
        y: -10,
        rz: 0,
        hat: HatPosition::Centered,
        buttons: 0,
    };
    let persona = OutputPersona::GenericBleGamepad16;
    let encoded = encode_generic_ble_gamepad16_report(report);

    assert_eq!(runtime.current_report(), report);
    assert_eq!(runtime.last_persona(), Some(persona));
    assert_eq!(runtime.last_wire(), Some(encoded));
}

#[test]
fn embedded_runtime_snapshot_matches_default_boot_state() {
    let mut runtime = EmbeddedRuntimeState::new_for_host();
    runtime.set_ble_state(BleConnectionState::Advertising);
    assert!(runtime.store_bonds_present(true).is_ok());

    let snapshot = runtime.snapshot();

    assert_eq!(snapshot.active_profile, V1_PROFILE_ID);
    assert_eq!(snapshot.output_persona, OutputPersona::GenericBleGamepad16);
    assert_eq!(
        snapshot.current_report,
        GenericBleGamepad16Report::default()
    );
    assert_eq!(
        snapshot.current_encoded_report,
        usb2ble::ble_hid::encode_generic_ble_gamepad16_report(
            GenericBleGamepad16Report::default()
        )
    );
    assert!(snapshot.last_persona.is_none());
    assert!(snapshot.last_wire.is_none());
    assert_eq!(snapshot.ble_state, BleConnectionState::Advertising);
    assert!(snapshot.bonds_present);
}

#[test]
fn embedded_runtime_state_device_status_reflects_owned_state() {
    let mut runtime = EmbeddedRuntimeState::new_for_host();
    runtime.set_ble_state(BleConnectionState::Connected);
    assert!(runtime.store_bonds_present(true).is_ok());

    let status = runtime.device_status();
    assert_eq!(
        status.ble_link_state,
        usb2ble::messages::BleLinkState::Connected
    );
    assert!(status.bonds_present);
}

#[test]
fn embedded_runtime_step_snapshot_includes_outcome_and_updated_state() {
    let mut runtime = EmbeddedRuntimeState::new_for_host();
    let device_id = UsbDeviceId::new(12);

    // Queue attach
    runtime.queue_usb_event(UsbEvent::DeviceAttached(DeviceMeta {
        device_id,
        vendor_id: 1,
        product_id: 2,
    }));
    let _ = runtime.step_persona_snapshot(BleConnectionState::Connected);

    // Queue descriptor
    runtime.queue_usb_event(UsbEvent::ReportDescriptorReceived {
        device_id,
        bytes: xy_descriptor_bytes(),
        len: 18,
    });
    let _ = runtime.step_persona_snapshot(BleConnectionState::Connected);

    // Queue input [0x05, 0xF6]
    let mut payload = [0_u8; 64];
    payload[0] = 0x05;
    payload[1] = 0xF6;
    runtime.queue_usb_event(UsbEvent::InputReportReceived {
        device_id,
        report_id: 0,
        bytes: payload,
        len: 2,
    });

    let snapshot = runtime.step_persona_snapshot(BleConnectionState::Connected);

    let report = GenericBleGamepad16Report {
        x: 5,
        y: -10,
        rz: 0,
        hat: HatPosition::Centered,
        buttons: 0,
    };
    let persona = OutputPersona::GenericBleGamepad16;
    let encoded = encode_generic_ble_gamepad16_report(report);

    assert_eq!(
        snapshot.outcome,
        Ok(BufferedPersonaAppPumpOutcome::Usb(
            UsbPersonaPumpOutcome::Published {
                report,
                persona,
                encoded
            }
        ))
    );

    assert_eq!(snapshot.runtime.current_report, report);
    assert_eq!(snapshot.runtime.output_persona, persona);
    assert_eq!(snapshot.runtime.current_encoded_report, encoded);
    assert_eq!(snapshot.runtime.last_persona, Some(persona));
    assert_eq!(snapshot.runtime.last_wire, Some(encoded));
}

#[test]
fn embedded_runtime_state_drain_persona_until_idle_returns_zero_actions_for_idle_runtime() {
    let mut runtime = EmbeddedRuntimeState::new_for_host();
    let result = runtime.drain_persona_until_idle(BleConnectionState::Idle, 4);

    let summary = match result {
        Ok(summary) => summary,
        Err(error) => panic!("drain failed: {:?}", error),
    };

    assert_eq!(summary.actions_processed, 0);
    assert_eq!(summary.last_non_idle_outcome, None);
    assert_eq!(summary.final_snapshot, runtime.snapshot());
    assert_eq!(
        summary.final_snapshot.current_report,
        GenericBleGamepad16Report::default()
    );
}

#[test]
fn embedded_runtime_state_drain_persona_until_idle_processes_console_then_stops() {
    let mut runtime = EmbeddedRuntimeState::new_for_host();
    assert!(runtime.push_console_bytes(b"GET_INFO\n").is_ok());

    let summary = match runtime.drain_persona_until_idle(BleConnectionState::Idle, 4) {
        Ok(summary) => summary,
        Err(error) => panic!("drain failed: {:?}", error),
    };

    assert_eq!(summary.actions_processed, 1);
    match summary.last_non_idle_outcome {
        Some(BufferedPersonaAppPumpOutcome::Console(BufferedConsoleOutcome::Responded(
            Response::Info(_),
        ))) => {}
        _ => {
            panic!(
                "expected Info outcome, got {:?}",
                summary.last_non_idle_outcome
            )
        }
    }
    assert!(!runtime.console_tx_bytes().is_empty());
    assert!(summary.final_snapshot.last_persona.is_none());
    assert!(runtime.ble_output.last_persona().is_none());
}

#[test]
fn embedded_runtime_state_drain_persona_until_idle_processes_usb_attach_descriptor_input_in_one_drain(
) {
    let mut runtime = EmbeddedRuntimeState::new_for_host();
    let device_id = UsbDeviceId::new(13);

    // Queue ALL THREE before one drain call
    runtime.queue_usb_event(UsbEvent::DeviceAttached(DeviceMeta {
        device_id,
        vendor_id: 1,
        product_id: 2,
    }));
    runtime.queue_usb_event(UsbEvent::ReportDescriptorReceived {
        device_id,
        bytes: xy_descriptor_bytes(),
        len: 18,
    });
    let mut payload = [0_u8; 64];
    payload[0] = 0x05;
    payload[1] = 0xF6;
    runtime.queue_usb_event(UsbEvent::InputReportReceived {
        device_id,
        report_id: 0,
        bytes: payload,
        len: 2,
    });

    let summary = match runtime.drain_persona_until_idle(BleConnectionState::Connected, 8) {
        Ok(summary) => summary,
        Err(error) => panic!("drain failed: {:?}", error),
    };

    assert_eq!(summary.actions_processed, 3);
    let report = GenericBleGamepad16Report {
        x: 5,
        y: -10,
        rz: 0,
        hat: HatPosition::Centered,
        buttons: 0,
    };
    let persona = OutputPersona::GenericBleGamepad16;
    let encoded = encode_generic_ble_gamepad16_report(report);

    match summary.last_non_idle_outcome {
        Some(BufferedPersonaAppPumpOutcome::Usb(UsbPersonaPumpOutcome::Published {
            report: r,
            persona: p,
            encoded: e,
        })) => {
            assert_eq!(r, report);
            assert_eq!(p, persona);
            assert_eq!(e, encoded);
        }
        _ => {
            panic!(
                "expected Published outcome, got {:?}",
                summary.last_non_idle_outcome
            )
        }
    }

    assert_eq!(summary.final_snapshot.current_report, report);
    assert_eq!(summary.final_snapshot.output_persona, persona);
    assert_eq!(summary.final_snapshot.current_encoded_report, encoded);
    assert_eq!(summary.final_snapshot.last_persona, Some(persona));
    assert_eq!(summary.final_snapshot.last_wire, Some(encoded));
}

#[test]
fn embedded_runtime_state_drain_persona_until_idle_respects_console_priority_before_usb() {
    let mut runtime = EmbeddedRuntimeState::new_for_host();
    let device_id = UsbDeviceId::new(14);

    // Queue console command AND USB event
    assert!(runtime.push_console_bytes(b"GET_INFO\n").is_ok());
    runtime.queue_usb_event(UsbEvent::DeviceAttached(DeviceMeta {
        device_id,
        vendor_id: 1,
        product_id: 2,
    }));

    let summary = match runtime.drain_persona_until_idle(BleConnectionState::Connected, 8) {
        Ok(summary) => summary,
        Err(error) => panic!("drain failed: {:?}", error),
    };

    // Console has priority, so it processes both: Console then USB Attach
    assert_eq!(summary.actions_processed, 2);
    match summary.last_non_idle_outcome {
        Some(BufferedPersonaAppPumpOutcome::Usb(UsbPersonaPumpOutcome::Handled(
            UsbServiceOutcome::DeviceAttached {
                device_id: id,
                vendor_id: 1,
                product_id: 2,
            },
        ))) => {
            assert_eq!(id, device_id);
        }
        _ => {
            panic!(
                "expected USB Attach outcome, got {:?}",
                summary.last_non_idle_outcome
            )
        }
    }
    assert_eq!(runtime.active_device(), Some(device_id));
    assert!(!runtime.console_tx_bytes().is_empty());
}

#[test]
fn embedded_runtime_state_drain_persona_until_idle_returns_step_limit_reached() {
    let mut runtime = EmbeddedRuntimeState::new_for_host();
    assert!(runtime.push_console_bytes(b"GET_INFO\n").is_ok());

    let result = runtime.drain_persona_until_idle(BleConnectionState::Idle, 0);

    match result {
        Err(EmbeddedDrainError::StepLimitReached { max_steps, .. }) => {
            assert_eq!(max_steps, 0);
        }
        other => panic!("expected StepLimitReached, got {:?}", other),
    }
}
