use usb2ble::app::{
    App, BufferedConsoleOutcome, BufferedPersonaAppPumpOutcome, UsbServiceOutcome,
};
use usb2ble::ble_hid::{
    encode_generic_ble_gamepad16_report, BleConnectionState, BleInitError,
    PersonaWireRecordingBleOutput,
};
use usb2ble::console_uart::{FrameBufferError, FramedConsoleBuffer};
use usb2ble::embedded::{EmbeddedDrainError, EmbeddedRuntimeState};
use usb2ble::framing::{decode_command, FrameError};
use usb2ble::hid_descriptor::{parse_descriptor_summary, DescriptorError, DescriptorParseError};
use usb2ble::messages::{BleLinkState, Command, Response};
use usb2ble::normalize::HatPosition;
use usb2ble::nvs_store::{
    BondStore, MemoryBondStore, MemoryProfileStore, ProfileStore,
};
use usb2ble::profile::V1_PROFILE_ID;
use usb2ble::replay::{
    hex_format, parse_replay_script, run_replay_host, HostToolError, ReplayCommand,
    ReplayParseError,
};
use usb2ble::runtime::GenericBleGamepad16Report;
use usb2ble::usb_host::{DeviceMeta, QueuedUsbIngress, UsbDeviceId, UsbEvent, UsbIngress};

const XY_DESCRIPTOR: [u8; 18] = [
    0x05, 0x01, 0x15, 0x81, 0x25, 0x7F, 0x75, 0x08, 0x95, 0x01, 0x09, 0x30, 0x81, 0x02, 0x09,
    0x31, 0x81, 0x02,
];

fn padded(bytes: &[u8]) -> [u8; 64] {
    let mut out = [0_u8; 64];
    out[..bytes.len()].copy_from_slice(bytes);
    out
}

fn text(bytes: Vec<u8>) -> String {
    String::from_utf8(bytes).unwrap()
}

fn attach(raw: u8) -> UsbEvent {
    UsbEvent::DeviceAttached(DeviceMeta {
        device_id: UsbDeviceId::new(raw),
        vendor_id: 1,
        product_id: 2,
    })
}

#[test]
fn set_profile_is_persisted_and_restored_on_boot() {
    let mut app = App::new(V1_PROFILE_ID);
    let mut profiles = MemoryProfileStore::new();
    let mut bonds = MemoryBondStore::new();

    let response = app.handle_command(
        Command::SetProfile {
            profile: V1_PROFILE_ID,
        },
        &mut profiles,
        &mut bonds,
        BleConnectionState::Idle,
    );

    assert_eq!(response, Response::Ack);
    assert_eq!(profiles.load_active_profile(), Some(V1_PROFILE_ID));
    let rebooted = App::bootstrap(&profiles);
    assert_eq!(rebooted.runtime().active_profile(), V1_PROFILE_ID);
}

#[test]
fn get_profile_after_set_reports_the_profile() {
    let mut app = App::new(V1_PROFILE_ID);
    let mut profiles = MemoryProfileStore::new();
    let mut bonds = MemoryBondStore::new();

    app.handle_command(
        Command::SetProfile {
            profile: V1_PROFILE_ID,
        },
        &mut profiles,
        &mut bonds,
        BleConnectionState::Idle,
    );
    let response = app.handle_command(
        Command::GetProfile,
        &mut profiles,
        &mut bonds,
        BleConnectionState::Idle,
    );

    assert_eq!(
        response,
        Response::Profile {
            active_profile: V1_PROFILE_ID
        }
    );
}

#[test]
fn forget_bonds_then_status_reports_no_bonds() {
    let mut app = App::new(V1_PROFILE_ID);
    let mut profiles = MemoryProfileStore::new();
    let mut bonds = MemoryBondStore::with_bonds_present(true);

    let forget = app.handle_command(
        Command::ForgetBonds,
        &mut profiles,
        &mut bonds,
        BleConnectionState::Connected,
    );
    let status = app.handle_command(
        Command::GetStatus,
        &mut profiles,
        &mut bonds,
        BleConnectionState::Connected,
    );

    assert_eq!(forget, Response::Ack);
    match status {
        Response::Status(status) => {
            assert!(!status.bonds_present);
            assert_eq!(status.ble_link_state, BleLinkState::Connected);
        }
        other => panic!("expected status, got {other:?}"),
    }
}

#[test]
fn initialization_failure_is_reported_as_idle_link() {
    let app = App::new(V1_PROFILE_ID);
    let bonds = MemoryBondStore::new();

    let status = app.device_status(BleConnectionState::InitializationFailed, &bonds);

    assert_eq!(status.ble_link_state, BleLinkState::Idle);
}

#[test]
fn events_for_another_device_change_nothing() {
    let mut app = App::new(V1_PROFILE_ID);
    assert!(app.handle_usb_event(attach(7)).is_ok());
    let before = app;

    let outcomes = [
        app.handle_usb_event(UsbEvent::ReportDescriptorReceived {
            device_id: UsbDeviceId::new(8),
            bytes: padded(&XY_DESCRIPTOR),
            len: XY_DESCRIPTOR.len(),
        }),
        app.handle_usb_event(UsbEvent::InputReportReceived {
            device_id: UsbDeviceId::new(8),
            report_id: 0,
            bytes: padded(&[0x05, 0xF6]),
            len: 2,
        }),
        app.handle_usb_event(UsbEvent::DeviceDetached(UsbDeviceId::new(8))),
        app.handle_usb_event(UsbEvent::InputTransferStopped(UsbDeviceId::new(7))),
    ];

    for outcome in outcomes {
        assert_eq!(outcome, Ok(UsbServiceOutcome::Ignored));
    }
    assert_eq!(app, before);
}

#[test]
fn detach_returns_the_report_to_neutral() {
    let mut app = App::new(V1_PROFILE_ID);
    assert!(app.handle_usb_event(attach(7)).is_ok());
    assert!(app
        .handle_usb_event(UsbEvent::ReportDescriptorReceived {
            device_id: UsbDeviceId::new(7),
            bytes: padded(&XY_DESCRIPTOR),
            len: XY_DESCRIPTOR.len(),
        })
        .is_ok());
    assert_eq!(
        app.handle_usb_event(UsbEvent::InputReportReceived {
            device_id: UsbDeviceId::new(7),
            report_id: 0,
            bytes: padded(&[0x05, 0xF6]),
            len: 2,
        }),
        Ok(UsbServiceOutcome::InputApplied(GenericBleGamepad16Report {
            x: 5,
            y: -10,
            rz: 0,
            hat: HatPosition::Centered,
            buttons: 0,
        }))
    );

    let detached = app.handle_usb_event(UsbEvent::DeviceDetached(UsbDeviceId::new(7)));

    assert_eq!(
        detached,
        Ok(UsbServiceOutcome::DeviceDetached(UsbDeviceId::new(7)))
    );
    assert_eq!(
        app.runtime().current_report(),
        GenericBleGamepad16Report::default()
    );
    assert_eq!(app.active_descriptor(), None);
    assert_eq!(app.active_device(), None);
}

#[test]
fn console_work_goes_before_usb_work() {
    let mut runtime = EmbeddedRuntimeState::new_for_host();
    runtime.queue_usb_event(attach(3));
    assert!(runtime.push_console_bytes(b"GET_PROFILE\n").is_ok());

    let first = runtime.step_persona(BleConnectionState::Idle);

    assert_eq!(
        first,
        Ok(BufferedPersonaAppPumpOutcome::Console(
            BufferedConsoleOutcome::Responded(Response::Profile {
                active_profile: V1_PROFILE_ID
            })
        ))
    );
    assert_eq!(runtime.active_device(), None);
    assert_eq!(runtime.usb_ingress.poll_calls(), 0);
    assert_eq!(runtime.last_wire(), None);
}

#[test]
fn queued_usb_events_come_out_in_order() {
    let mut ingress = QueuedUsbIngress::new();
    ingress.queue_event(attach(1));
    ingress.queue_event(UsbEvent::DeviceDetached(UsbDeviceId::new(1)));

    assert_eq!(ingress.poll_event(), Some(attach(1)));
    assert_eq!(
        ingress.poll_event(),
        Some(UsbEvent::DeviceDetached(UsbDeviceId::new(1)))
    );
    assert_eq!(ingress.poll_event(), None);
    assert_eq!(ingress.poll_calls(), 3);
}

#[test]
fn distinct_reports_have_distinct_wire_bytes() {
    let a = GenericBleGamepad16Report {
        x: -1,
        y: 256,
        rz: i16::MIN,
        hat: HatPosition::UpLeft,
        buttons: 0x8001,
    };
    let b = GenericBleGamepad16Report { y: 255, ..a };

    let wire_a = encode_generic_ble_gamepad16_report(a);
    let wire_b = encode_generic_ble_gamepad16_report(b);

    assert_eq!(
        wire_a.as_bytes(),
        &[0x01, 0xFF, 0xFF, 0x00, 0x01, 0x00, 0x80, 0x07, 0x01, 0x80]
    );
    assert_ne!(wire_a.as_bytes(), wire_b.as_bytes());
}

#[test]
fn memory_stores_read_back_what_was_written() {
    let mut profiles = MemoryProfileStore::new();
    assert_eq!(profiles.load_active_profile(), None);
    assert_eq!(profiles.store_active_profile(V1_PROFILE_ID), Ok(()));
    assert_eq!(profiles.load_active_profile(), Some(V1_PROFILE_ID));

    let mut bonds = MemoryBondStore::new();
    assert_eq!(bonds.store_bonds_present(true), Ok(()));
    assert!(bonds.bonds_present());
    assert_eq!(bonds.clear_bonds(), Ok(()));
    assert!(!bonds.bonds_present());
}

#[test]
fn frames_decode_in_arrival_order() {
    let mut buffer = FramedConsoleBuffer::new();
    assert!(buffer.push_rx_bytes(b"GET_INFO\nREBOOT\nGET_").is_ok());

    assert_eq!(buffer.try_decode_command(), Ok(Some(Command::GetInfo)));
    assert_eq!(buffer.try_decode_command(), Ok(Some(Command::Reboot)));
    assert_eq!(buffer.try_decode_command(), Ok(None));
    assert_eq!(buffer.rx_len(), 4);
}

#[test]
fn frame_with_invalid_utf8_is_rejected() {
    assert_eq!(decode_command(&[0xFF, 0xFE, b'\n']), Err(FrameError::InvalidUtf8));
    assert_eq!(decode_command(b"REBOOT\n"), Ok(Command::Reboot));
}

#[test]
fn descriptor_fields_must_not_go_backwards() {
    let ordered = parse_descriptor_summary(&XY_DESCRIPTOR);
    match ordered {
        Ok(summary) => {
            assert_eq!(summary.field_count(), 2);
            let first = summary.field(0).unwrap();
            let second = summary.field(1).unwrap();
            assert!(first.bit_offset <= second.bit_offset);
        }
        Err(error) => panic!("expected a summary, got {error:?}"),
    }
}

#[test]
fn too_many_descriptor_fields_are_refused() {
    let mut bytes = vec![0x05, 0x01, 0x15, 0x00, 0x25, 0x01, 0x75, 0x01];
    for _ in 0..33 {
        bytes.extend_from_slice(&[0x09, 0x30, 0x81, 0x02]);
    }

    assert_eq!(
        parse_descriptor_summary(&bytes).err(),
        Some(DescriptorParseError::Summary(DescriptorError::TooManyFields {
            attempted: 33,
            max: 32
        }))
    );
}

#[test]
fn parsed_scripts_always_replay() {
    let script = "ATTACH 9 4 5\nDESCRIPTOR 05 01 15 81 25 7F 75 08 95 01 09 30 81 02 09 31 81 02\nINPUT +0 05 F6\n";
    let commands = parse_replay_script(script).unwrap();

    assert_eq!(commands.len(), 3);
    let result = run_replay_host(commands).unwrap();
    assert_eq!(result.command_count, 3);
    assert_eq!(result.final_report.x, 5);
    assert_eq!(result.final_report.y, -10);
}

#[test]
fn replay_tokens_split_on_unicode_white_space() {
    let script = "\u{3000}ATTACH\u{a0}7\t1\u{2003}2\r\n  # note\nDETACH\u{85}7";
    let commands = parse_replay_script(script).unwrap();

    assert_eq!(
        commands,
        vec![
            ReplayCommand::Attach {
                device_id: 7,
                vendor_id: 1,
                product_id: 2
            },
            ReplayCommand::Detach(7)
        ]
    );
}

#[test]
fn replay_parse_errors_name_their_line() {
    let cases: Vec<(&str, ReplayParseError, &str)> = vec![
        (
            "ATTACH 1 2",
            ReplayParseError::InvalidAttach(1),
            "line 1: ATTACH requires 3 arguments",
        ),
        (
            "\nATTACH 256 1 2",
            ReplayParseError::InvalidAttach(2),
            "line 2: ATTACH requires 3 arguments",
        ),
        (
            "DESCRIPTOR 123",
            ReplayParseError::InvalidDescriptor(1, b"invalid hex byte: 123".to_vec()),
            "line 1: descriptor error: invalid hex byte: 123",
        ),
        (
            "DESCRIPTOR 0G",
            ReplayParseError::InvalidDescriptor(
                1,
                b"invalid hex byte 0G: invalid digit found in string".to_vec(),
            ),
            "line 1: descriptor error: invalid hex byte 0G: invalid digit found in string",
        ),
        (
            "INPUT",
            ReplayParseError::InvalidInput(1, b"requires report_id".to_vec()),
            "line 1: input error: requires report_id",
        ),
        (
            "INPUT 100",
            ReplayParseError::InvalidInput(1, b"number too large to fit in target type".to_vec()),
            "line 1: input error: number too large to fit in target type",
        ),
        (
            "INPUT +",
            ReplayParseError::InvalidInput(1, b"invalid digit found in string".to_vec()),
            "line 1: input error: invalid digit found in string",
        ),
        (
            "DETACH",
            ReplayParseError::InvalidDetach(1),
            "line 1: DETACH requires 1 argument",
        ),
        (
            "PING",
            ReplayParseError::UnknownCommand(1, b"PING".to_vec()),
            "line 1: unknown command PING",
        ),
    ];

    for (script, expected, message) in cases {
        let error = parse_replay_script(script).unwrap_err();
        assert_eq!(error, expected);
        assert_eq!(text(error.message()), message);
    }
}

#[test]
fn replay_payloads_longer_than_the_event_buffer_are_refused() {
    let long = vec!["00"; 65].join(" ");

    let descriptor = parse_replay_script(&format!("DESCRIPTOR {long}")).unwrap_err();
    let input = parse_replay_script(&format!("\n\nINPUT 01 {long}")).unwrap_err();

    assert_eq!(descriptor, ReplayParseError::DescriptorTooLong(1, 65));
    assert_eq!(text(descriptor.message()), "line 1: descriptor too long (65 > 64)");
    assert_eq!(input, ReplayParseError::InputTooLong(3, 65));
    assert_eq!(text(input.message()), "line 3: input data too long (65 > 64)");
}

#[test]
fn host_tool_error_messages() {
    assert_eq!(
        text(HostToolError::NoActiveDevice("INPUT").message()),
        "no active device for INPUT"
    );
    assert_eq!(
        text(HostToolError::UnexpectedConsoleOutcome.message()),
        "unexpected console outcome during replay"
    );
    assert_eq!(
        text(HostToolError::ReplayParse(ReplayParseError::InvalidDetach(4)).message()),
        "replay parse error: line 4: DETACH requires 1 argument"
    );
    assert_eq!(
        text(
            HostToolError::ConsolePush(FrameBufferError::RxOverflow {
                attempted: 130,
                max: 128
            })
            .message()
        ),
        "console push failed: RxOverflow { attempted: 130, max: 128 }"
    );
    assert_eq!(
        text(
            HostToolError::Drain(EmbeddedDrainError::Step(
                usb2ble::app::BufferedPersonaAppPumpError::Console(
                    usb2ble::app::BufferedConsoleError::Buffer(FrameBufferError::Decode(
                        FrameError::Empty
                    ))
                )
            ))
            .message()
        ),
        "drain failed: Step(Console(Buffer(Decode(Empty))))"
    );
    assert_eq!(
        text(
            HostToolError::UnexpectedDemoOutcome("attach", BufferedPersonaAppPumpOutcome::Idle)
                .message()
        ),
        "unexpected outcome during demo stage attach: Idle"
    );
}

#[test]
fn replay_without_active_device_is_refused() {
    let commands = parse_replay_script("INPUT 00 01").unwrap();

    assert_eq!(
        run_replay_host(commands).err(),
        Some(HostToolError::NoActiveDevice("INPUT"))
    );
}

#[test]
fn hex_format_renders_upper_case_pairs() {
    assert_eq!(hex_format(&[0x00, 0xAB, 0x7F]), "00 AB 7F");
    assert_eq!(hex_format(&[0xFF]), "FF");
}

#[test]
fn ble_init_error_messages() {
    assert_eq!(BleInitError::Controller.message(), "controller init failed");
    assert_eq!(BleInitError::Bluedroid.message(), "bluedroid init failed");
    assert_eq!(BleInitError::HidDevice.message(), "hid device init failed");
    assert_eq!(BleInitError::Advertising.message(), "advertising init failed");
    assert_eq!(BleInitError::UnsupportedPersona.message(), "unsupported persona");
}

#[test]
fn drain_stops_at_its_step_limit() {
    let mut runtime = EmbeddedRuntimeState::new_for_host();
    runtime.queue_usb_event(attach(1));
    runtime.queue_usb_event(attach(2));

    let drained = runtime.drain_persona_until_idle(BleConnectionState::Idle, 0);

    match drained {
        Err(EmbeddedDrainError::StepLimitReached {
            max_steps,
            last_snapshot,
        }) => {
            assert_eq!(max_steps, 0);
            assert_eq!(last_snapshot.current_report, GenericBleGamepad16Report::default());
        }
        other => panic!("expected the step limit, got {other:?}"),
    }
    assert_eq!(runtime.active_device(), Some(UsbDeviceId::new(1)));
}

#[test]
fn persona_output_records_the_published_wire() {
    let mut runtime = EmbeddedRuntimeState::new_for_host();
    runtime.queue_usb_event(attach(7));
    runtime.queue_usb_event(UsbEvent::ReportDescriptorReceived {
        device_id: UsbDeviceId::new(7),
        bytes: padded(&XY_DESCRIPTOR),
        len: XY_DESCRIPTOR.len(),
    });
    runtime.queue_usb_event(UsbEvent::InputReportReceived {
        device_id: UsbDeviceId::new(7),
        report_id: 0,
        bytes: padded(&[0xFF, 0x01]),
        len: 2,
    });

    let summary = runtime
        .drain_persona_until_idle(BleConnectionState::Connected, 8)
        .unwrap();

    assert_eq!(summary.actions_processed, 3);
    let wire = runtime.last_wire().unwrap();
    assert_eq!(
        wire.as_bytes(),
        &[0x01, 0xFF, 0xFF, 0x01, 0x00, 0x00, 0x00, 0x08, 0x00, 0x00]
    );
    let fresh = PersonaWireRecordingBleOutput::new(BleConnectionState::Idle);
    assert_eq!(fresh.last_wire(), None);
}
