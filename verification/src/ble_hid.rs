//! BLE HID persona contracts: the fixed gamepad report map, the wire
//! encoding of input reports, and the BLE output seams with in-memory
//! recording adapters.
use vstd::prelude::*;
use crate::normalize::{spec_hat_from_value, HatPosition};
use crate::profile::OutputPersona;
use crate::runtime::GenericBleGamepad16Report;

verus! {

/// The fixed report ID used for the lean v1 generic BLE gamepad input report.
pub const GENERIC_BLE_GAMEPAD16_REPORT_ID: u8 = 1;

/// The fixed payload length, excluding the report ID byte.
pub const GENERIC_BLE_GAMEPAD16_PAYLOAD_LEN: usize = 9;

/// The full fixed wire length, including the report ID byte.
pub const GENERIC_BLE_GAMEPAD16_WIRE_LEN: usize = 10;

/// The stable persona name for the lean v1 generic BLE gamepad persona.
pub const GENERIC_BLE_GAMEPAD16_PERSONA_NAME: &'static str = "generic_ble_gamepad_16";

/// The fixed HID report map length for the lean v1 generic BLE gamepad persona.
pub const GENERIC_BLE_GAMEPAD16_REPORT_MAP_LEN: usize = 66;

/// The fixed HID report descriptor for the lean v1 generic BLE gamepad persona.
pub const GENERIC_BLE_GAMEPAD16_REPORT_MAP: [u8; 66] = [
    0x05, 0x01, // Usage Page (Generic Desktop)
    0x09, 0x05, // Usage (Game Pad)
    0xA1, 0x01, // Collection (Application)
    0x85, 0x01, // Report ID (1)
    0x09, 0x30, // Usage (X)
    0x09, 0x31, // Usage (Y)
    0x09, 0x35, // Usage (Rz)
    0x16, 0x00, 0x80, // Logical Minimum (-32768)
    0x26, 0xFF, 0x7F, // Logical Maximum (32767)
    0x75, 0x10, // Report Size (16)
    0x95, 0x03, // Report Count (3)
    0x81, 0x02, // Input (Data,Var,Abs)
    0x09, 0x39, // Usage (Hat switch)
    0x15, 0x00, // Logical Minimum (0)
    0x25, 0x08, // Logical Maximum (8)
    0x35, 0x00, // Physical Minimum (0)
    0x46, 0x3B, 0x01, // Physical Maximum (315)
    0x75, 0x04, // Report Size (4)
    0x95, 0x01, // Report Count (1)
    0x81, 0x42, // Input (Data,Var,Abs,Null State)
    0x75, 0x04, // Report Size (4)
    0x95, 0x01, // Report Count (1)
    0x81, 0x01, // Input (Const,Array,Abs)
    0x05, 0x09, // Usage Page (Button)
    0x19, 0x01, // Usage Minimum (1)
    0x29, 0x10, // Usage Maximum (16)
    0x15, 0x00, // Logical Minimum (0)
    0x25, 0x01, // Logical Maximum (1)
    0x75, 0x01, // Report Size (1)
    0x95, 0x10, // Report Count (16)
    0x81, 0x02, // Input (Data,Var,Abs)
    0xC0, // End Collection
];

/// The current BLE connection state.
#[derive(Debug, Clone, Copy, PartialEq, Eq, Structural)]
pub enum BleConnectionState {
    /// No BLE activity is active.
    Idle,
    /// The BLE persona is advertising.
    Advertising,
    /// The BLE persona is connected.
    Connected,
    /// The BLE persona failed to initialize (async failure).
    InitializationFailed,
}

/// Errors that can occur when publishing a BLE report.
#[derive(Debug, Clone, Copy, PartialEq, Eq, Structural)]
pub enum BlePublishError {
    /// The BLE output path is not ready to accept reports.
    NotReady,
    /// A transport-level failure occurred.
    Transport,
}

/// Errors that can occur during BLE stack initialization.
#[derive(Debug, Clone, Copy, PartialEq, Eq, Structural)]
pub enum BleInitError {
    /// Controller initialization failed.
    Controller,
    /// Bluedroid initialization or enablement failed.
    Bluedroid,
    /// HID device profile initialization or registration failed.
    HidDevice,
    /// Advertising configuration or startup failed.
    Advertising,
    /// The requested persona is not supported by this backend.
    UnsupportedPersona,
}

impl BleInitError {
    /// The human-readable description of the error.
    pub fn message(self) -> (r: &'static str)
        ensures
            r@ == match self {
                BleInitError::Controller => "controller init failed"@,
                BleInitError::Bluedroid => "bluedroid init failed"@,
                BleInitError::HidDevice => "hid device init failed"@,
                BleInitError::Advertising => "advertising init failed"@,
                BleInitError::UnsupportedPersona => "unsupported persona"@,
            },
    {
        match self {
            BleInitError::Controller => "controller init failed",
            BleInitError::Bluedroid => "bluedroid init failed",
            BleInitError::HidDevice => "hid device init failed",
            BleInitError::Advertising => "advertising init failed",
            BleInitError::UnsupportedPersona => "unsupported persona",
        }
    }
}

/// A fixed-width encoded BLE input report ready for transport.
#[derive(Debug, Clone, Copy, PartialEq, Eq)]
pub struct EncodedBleInputReport {
    bytes: [u8; 10],
}

impl EncodedBleInputReport {
    /// The wire bytes.
    pub closed spec fn wire(self) -> Seq<u8> {
        self.bytes@
    }

    /// Reports are equal exactly when their wire bytes are.
    pub proof fn lemma_wire_determines_report(a: Self, b: Self)
        ensures
            (a == b) == (a.wire() == b.wire()),
    {
        if a.wire() == b.wire() {
            assert(a.bytes =~= b.bytes);
        }
    }

    /// Returns the full fixed wire encoding as a slice.
    pub fn as_bytes(&self) -> (r: &[u8])
        ensures
            r@ == self.wire(),
    {
        self.bytes.as_slice()
    }

    /// Returns the full fixed wire encoding as an owned array.
    pub fn into_bytes(self) -> (r: [u8; 10])
        ensures
            r@ == self.wire(),
    {
        self.bytes
    }
}

/// Static BLE persona metadata describing a fixed report contract.
#[derive(Debug, Clone, Copy, PartialEq, Eq)]
pub struct BlePersonaDescriptor {
    /// The output persona this BLE descriptor serves.
    pub persona: OutputPersona,
    /// The stable human-readable persona name.
    pub name: &'static str,
    /// The fixed report ID used by this persona.
    pub report_id: u8,
    /// The fixed payload length, excluding the report ID byte.
    pub payload_len: usize,
    /// The full fixed wire length, including the report ID byte.
    pub wire_len: usize,
    /// The fixed HID report map bytes for the persona.
    pub report_map: &'static [u8],
}

/// Typed BLE input reports keyed by output persona.
#[derive(Debug, Clone, Copy, PartialEq, Eq, Structural)]
pub enum BleInputReport {
    /// The lean v1 generic BLE gamepad report.
    GenericBleGamepad16(GenericBleGamepad16Report),
}

// ---------------------------------------------------------------------------
// Mathematical model
// ---------------------------------------------------------------------------
/// The wire value of a hat position: 0 to 7 clockwise from up, 8 centered.
pub open spec fn spec_hat_wire(hat: HatPosition) -> u8 {
    match hat {
        HatPosition::Up => 0,
        HatPosition::UpRight => 1,
        HatPosition::Right => 2,
        HatPosition::DownRight => 3,
        HatPosition::Down => 4,
        HatPosition::DownLeft => 5,
        HatPosition::Left => 6,
        HatPosition::UpLeft => 7,
        HatPosition::Centered => 8,
    }
}

/// The 16-bit two's complement pattern of a signed axis value.
pub open spec fn twos_complement16(v: i16) -> int {
    if v < 0 {
        v + 0x1_0000
    } else {
        v as int
    }
}

/// The low byte of a 16-bit pattern.
pub open spec fn low_byte(w: int) -> u8 {
    (w % 0x100) as u8
}

/// The high byte of a 16-bit pattern.
pub open spec fn high_byte(w: int) -> u8 {
    (w / 0x100) as u8
}

/// The ten wire bytes of a gamepad report: report ID 1, then X, Y and Rz as
/// little-endian 16-bit values, the hat wire value, and the button bits
/// little-endian.
pub open spec fn spec_encode_gamepad16(report: GenericBleGamepad16Report) -> Seq<u8> {
    seq![
        GENERIC_BLE_GAMEPAD16_REPORT_ID,
        low_byte(twos_complement16(report.x)),
        high_byte(twos_complement16(report.x)),
        low_byte(twos_complement16(report.y)),
        high_byte(twos_complement16(report.y)),
        low_byte(twos_complement16(report.rz)),
        high_byte(twos_complement16(report.rz)),
        spec_hat_wire(report.hat),
        low_byte(report.buttons as int),
        high_byte(report.buttons as int),
    ]
}

/// The hat byte of an encoded gamepad report counts 45-degree steps
/// clockwise from up (0 up, 1 up-right, 2 right, 3 down-right, 4 down,
/// 5 down-left, 6 left, 7 up-left) and is 8 when the hat is released. It is
/// the very value a HID hat switch reports for that direction: read back as
/// a hat switch value it gives the report's hat, and every hat switch value
/// from 0 to 8 encodes back to itself.
pub proof fn lemma_hat_wire_is_clockwise_step(report: GenericBleGamepad16Report, value: i32)
    ensures
        spec_encode_gamepad16(report)[7] == match report.hat {
            HatPosition::Up => 0u8,
            HatPosition::UpRight => 1u8,
            HatPosition::Right => 2u8,
            HatPosition::DownRight => 3u8,
            HatPosition::Down => 4u8,
            HatPosition::DownLeft => 5u8,
            HatPosition::Left => 6u8,
            HatPosition::UpLeft => 7u8,
            HatPosition::Centered => 8u8,
        },
        spec_hat_from_value(spec_encode_gamepad16(report)[7] as i32) == Some(report.hat),
        0 <= value <= 8 ==> (spec_hat_from_value(value) matches Some(hat) && spec_hat_wire(hat)
            == value),
{
}

/// The low and high bytes of a 16-bit pattern give the pattern back.
proof fn lemma_bytes_determine_pattern(a: int, b: int)
    requires
        0 <= a < 0x1_0000,
        0 <= b < 0x1_0000,
        low_byte(a) == low_byte(b),
        high_byte(a) == high_byte(b),
    ensures
        a == b,
{
    assert(a == 0x100 * (a / 0x100) + a % 0x100) by (nonlinear_arith)
        requires
            0 <= a,
    ;
    assert(b == 0x100 * (b / 0x100) + b % 0x100) by (nonlinear_arith)
        requires
            0 <= b,
    ;
    assert(0 <= a / 0x100 < 0x100) by (nonlinear_arith)
        requires
            0 <= a < 0x1_0000,
    ;
    assert(0 <= b / 0x100 < 0x100) by (nonlinear_arith)
        requires
            0 <= b < 0x1_0000,
    ;
}

/// The gamepad wire encoding is ten bytes led by the report ID, and loses
/// nothing: distinct reports have distinct wire bytes.
pub proof fn lemma_gamepad_encoding_lossless(a: GenericBleGamepad16Report, b: GenericBleGamepad16Report)
    ensures
        spec_encode_gamepad16(a).len() == 10,
        spec_encode_gamepad16(a)[0] == GENERIC_BLE_GAMEPAD16_REPORT_ID,
        spec_encode_gamepad16(a) == spec_encode_gamepad16(b) ==> a == b,
{
    if spec_encode_gamepad16(a) == spec_encode_gamepad16(b) {
        let ea = spec_encode_gamepad16(a);
        let eb = spec_encode_gamepad16(b);
        assert(ea[1] == eb[1] && ea[2] == eb[2]);
        lemma_bytes_determine_pattern(twos_complement16(a.x), twos_complement16(b.x));
        assert(ea[3] == eb[3] && ea[4] == eb[4]);
        lemma_bytes_determine_pattern(twos_complement16(a.y), twos_complement16(b.y));
        assert(ea[5] == eb[5] && ea[6] == eb[6]);
        lemma_bytes_determine_pattern(twos_complement16(a.rz), twos_complement16(b.rz));
        assert(ea[7] == eb[7]);
        assert(ea[8] == eb[8] && ea[9] == eb[9]);
        lemma_bytes_determine_pattern(a.buttons as int, b.buttons as int);
    }
}

/// The wire bytes of a typed report for a persona.
pub open spec fn spec_encode_for_persona(persona: OutputPersona, report: BleInputReport) -> Seq<u8> {
    match (persona, report) {
        (OutputPersona::GenericBleGamepad16, BleInputReport::GenericBleGamepad16(r)) => spec_encode_gamepad16(r),
    }
}

/// Returns the stable persona name for the provided output persona.
pub fn output_persona_name(persona: OutputPersona) -> (r: &'static str)
    ensures
        r@ == GENERIC_BLE_GAMEPAD16_PERSONA_NAME@,
{
    match persona {
        OutputPersona::GenericBleGamepad16 => GENERIC_BLE_GAMEPAD16_PERSONA_NAME,
    }
}

/// The descriptor metadata of a persona.
pub open spec fn spec_persona_descriptor(d: BlePersonaDescriptor, persona: OutputPersona) -> bool {
    match persona {
        OutputPersona::GenericBleGamepad16 => {
            &&& d.persona == OutputPersona::GenericBleGamepad16
            &&& d.name@ == GENERIC_BLE_GAMEPAD16_PERSONA_NAME@
            &&& d.report_id == GENERIC_BLE_GAMEPAD16_REPORT_ID
            &&& d.payload_len == GENERIC_BLE_GAMEPAD16_PAYLOAD_LEN
            &&& d.wire_len == GENERIC_BLE_GAMEPAD16_WIRE_LEN
            &&& d.report_map@ == GENERIC_BLE_GAMEPAD16_REPORT_MAP@
        },
    }
}

/// Returns the fixed BLE descriptor metadata for the provided output persona.
pub fn output_persona_descriptor(persona: OutputPersona) -> (r: BlePersonaDescriptor)
    ensures
        spec_persona_descriptor(r, persona),
{
    match persona {
        OutputPersona::GenericBleGamepad16 => BlePersonaDescriptor {
            persona: OutputPersona::GenericBleGamepad16,
            name: GENERIC_BLE_GAMEPAD16_PERSONA_NAME,
            report_id: GENERIC_BLE_GAMEPAD16_REPORT_ID,
            payload_len: GENERIC_BLE_GAMEPAD16_PAYLOAD_LEN,
            wire_len: GENERIC_BLE_GAMEPAD16_WIRE_LEN,
            report_map: generic_ble_gamepad16_report_map(),
        },
    }
}

/// Returns the fixed HID report map bytes for the provided output persona.
pub fn report_map_for_output_persona(persona: OutputPersona) -> (r: &'static [u8])
    ensures
        r@ == GENERIC_BLE_GAMEPAD16_REPORT_MAP@,
{
    output_persona_descriptor(persona).report_map
}

/// Returns the fixed HID report map bytes for the lean v1 generic BLE gamepad persona.
pub fn generic_ble_gamepad16_report_map() -> (r: &'static [u8])
    ensures
        r@ == GENERIC_BLE_GAMEPAD16_REPORT_MAP@,
{
    let map: &'static [u8; 66] = &GENERIC_BLE_GAMEPAD16_REPORT_MAP;
    map.as_slice()
}

/// Encodes the normalized hat position into the fixed lean v1 wire value.
pub fn hat_position_to_wire(hat: HatPosition) -> (r: u8)
    ensures
        r == spec_hat_wire(hat),
{
    match hat {
        HatPosition::Up => 0,
        HatPosition::UpRight => 1,
        HatPosition::Right => 2,
        HatPosition::DownRight => 3,
        HatPosition::Down => 4,
        HatPosition::DownLeft => 5,
        HatPosition::Left => 6,
        HatPosition::UpLeft => 7,
        HatPosition::Centered => 8,
    }
}

fn axis_pattern(v: i16) -> (r: u16)
    ensures
        r == twos_complement16(v),
{
    if v < 0 {
        (v as i32 + 0x1_0000) as u16
    } else {
        v as u16
    }
}

/// Encodes the fixed lean v1 generic BLE gamepad report into its wire format.
pub fn encode_generic_ble_gamepad16_report(report: GenericBleGamepad16Report) -> (r: EncodedBleInputReport)
    ensures
        r.wire() == spec_encode_gamepad16(report),
{
    let x = axis_pattern(report.x);
    let y = axis_pattern(report.y);
    let rz = axis_pattern(report.rz);
    let buttons = report.buttons;
    let r = EncodedBleInputReport {
        bytes: [
            GENERIC_BLE_GAMEPAD16_REPORT_ID,
            (x % 0x100) as u8,
            (x / 0x100) as u8,
            (y % 0x100) as u8,
            (y / 0x100) as u8,
            (rz % 0x100) as u8,
            (rz / 0x100) as u8,
            hat_position_to_wire(report.hat),
            (buttons % 0x100) as u8,
            (buttons / 0x100) as u8,
        ],
    };
    assert(r.wire() =~= spec_encode_gamepad16(report));
    r
}

/// Encodes a typed BLE input report for the provided output persona.
pub fn encode_input_report_for_output_persona(persona: OutputPersona, report: BleInputReport) -> (r:
    EncodedBleInputReport)
    ensures
        r.wire() == spec_encode_for_persona(persona, report),
{
    match (persona, report) {
        (OutputPersona::GenericBleGamepad16, BleInputReport::GenericBleGamepad16(report)) => {
            encode_generic_ble_gamepad16_report(report)
        },
    }
}

/// BLE output boundary for typed gamepad reports.
///
/// An implementation describes its behaviour through the predicates; by
/// default they promise nothing.
pub trait BleOutput {
    /// Whether publishing `report` may turn this output into `after` and answer `result`.
    open spec fn publish_effect(
        &self,
        after: &Self,
        report: GenericBleGamepad16Report,
        result: Result<(), BlePublishError>,
    ) -> bool {
        true
    }

    /// Whether `state` is a possible answer of `connection_state` here.
    open spec fn state_result(&self, state: BleConnectionState) -> bool {
        true
    }

    /// Publishes the latest fixed lean v1 BLE gamepad report.
    fn publish_report(&mut self, report: GenericBleGamepad16Report) -> (r: Result<(), BlePublishError>)
        ensures
            old(self).publish_effect(&*final(self), report, r),
    ;

    /// Returns the current BLE connection state.
    fn connection_state(&self) -> (r: BleConnectionState)
        ensures
            self.state_result(r),
    ;
}

/// Persona-oriented BLE output boundary for already-encoded reports.
///
/// An implementation describes its behaviour through the predicates; by
/// default they promise nothing.
pub trait BlePersonaOutput {
    /// Whether publishing `report` for `persona` may turn this output into
    /// `after` and answer `result`.
    open spec fn publish_effect(
        &self,
        after: &Self,
        persona: OutputPersona,
        report: EncodedBleInputReport,
        result: Result<(), BlePublishError>,
    ) -> bool {
        true
    }

    /// Whether `state` is a possible answer of `connection_state` here.
    open spec fn state_result(&self, state: BleConnectionState) -> bool {
        true
    }

    /// Publishes one already-encoded BLE report for the provided output persona.
    fn publish_encoded_report(&mut self, persona: OutputPersona, report: EncodedBleInputReport) -> (r:
        Result<(), BlePublishError>)
        ensures
            old(self).publish_effect(&*final(self), persona, report, r),
    ;

    /// Returns the current BLE connection state.
    fn connection_state(&self) -> (r: BleConnectionState)
        ensures
            self.state_result(r),
    ;
}

/// In-memory BLE output adapter that records the last published report.
#[derive(Debug, Clone, Copy, PartialEq, Eq)]
pub struct RecordingBleOutput {
    state: BleConnectionState,
    last_report: Option<GenericBleGamepad16Report>,
    fail_with: Option<BlePublishError>,
}

impl RecordingBleOutput {
    /// The connection state reported.
    pub closed spec fn link_state(self) -> BleConnectionState {
        self.state
    }

    /// The last report accepted, if any.
    pub closed spec fn recorded(self) -> Option<GenericBleGamepad16Report> {
        self.last_report
    }

    /// The error that publishes are forced to fail with, if any.
    pub closed spec fn forced_failure(self) -> Option<BlePublishError> {
        self.fail_with
    }

    /// Creates a recording output with the requested connection state.
    pub fn new(state: BleConnectionState) -> (r: Self)
        ensures
            r.link_state() == state,
            r.recorded() is None,
            r.forced_failure() is None,
    {
        RecordingBleOutput { state, last_report: None, fail_with: None }
    }

    /// Returns the most recently published report, if any.
    pub fn last_report(&self) -> (r: Option<GenericBleGamepad16Report>)
        ensures
            r == self.recorded(),
    {
        self.last_report
    }

    /// Forces future publishes to fail with the provided error.
    pub fn set_fail_with(&mut self, error: BlePublishError)
        ensures
            final(self).forced_failure() == Some(error),
            final(self).recorded() == old(self).recorded(),
            final(self).link_state() == old(self).link_state(),
    {
        self.fail_with = Some(error);
    }

    /// Clears any forced publish failure.
    pub fn clear_failure(&mut self)
        ensures
            final(self).forced_failure() is None,
            final(self).recorded() == old(self).recorded(),
            final(self).link_state() == old(self).link_state(),
    {
        self.fail_with = None;
    }

    /// Clears the last recorded report.
    pub fn clear_last_report(&mut self)
        ensures
            final(self).recorded() is None,
            final(self).forced_failure() == old(self).forced_failure(),
            final(self).link_state() == old(self).link_state(),
    {
        self.last_report = None;
    }
}

impl BleOutput for RecordingBleOutput {
    /// A forced failure is answered and changes nothing; otherwise the report
    /// is recorded.
    open spec fn publish_effect(
        &self,
        after: &Self,
        report: GenericBleGamepad16Report,
        result: Result<(), BlePublishError>,
    ) -> bool {
        match self.forced_failure() {
            Some(e) => result == Err::<(), BlePublishError>(e) && *after == *self,
            None => {
                &&& result is Ok
                &&& after.recorded() == Some(report)
                &&& after.forced_failure() == self.forced_failure()
                &&& after.link_state() == self.link_state()
            },
        }
    }

    open spec fn state_result(&self, state: BleConnectionState) -> bool {
        state == self.link_state()
    }

    fn publish_report(&mut self, report: GenericBleGamepad16Report) -> (r: Result<(), BlePublishError>) {
        match self.fail_with {
            Some(error) => Err(error),
            None => {
                self.last_report = Some(report);
                Ok(())
            },
        }
    }

    fn connection_state(&self) -> (r: BleConnectionState) {
        self.state
    }
}

/// In-memory BLE output adapter that records both typed reports and encoded wire bytes.
#[derive(Debug, Clone, Copy, PartialEq, Eq)]
pub struct WireRecordingBleOutput {
    state: BleConnectionState,
    last_report: Option<GenericBleGamepad16Report>,
    last_wire: Option<EncodedBleInputReport>,
    fail_with: Option<BlePublishError>,
}

impl WireRecordingBleOutput {
    /// The connection state reported.
    pub closed spec fn link_state(self) -> BleConnectionState {
        self.state
    }

    /// The last report accepted, if any.
    pub closed spec fn recorded(self) -> Option<GenericBleGamepad16Report> {
        self.last_report
    }

    /// The wire encoding of the last report accepted, if any.
    pub closed spec fn recorded_wire(self) -> Option<EncodedBleInputReport> {
        self.last_wire
    }

    /// The error that publishes are forced to fail with, if any.
    pub closed spec fn forced_failure(self) -> Option<BlePublishError> {
        self.fail_with
    }

    /// Creates a wire-recording output with the requested connection state.
    pub fn new(state: BleConnectionState) -> (r: Self)
        ensures
            r.link_state() == state,
            r.recorded() is None,
            r.recorded_wire() is None,
            r.forced_failure() is None,
    {
        WireRecordingBleOutput { state, last_report: None, last_wire: None, fail_with: None }
    }

    /// Returns the most recently published typed report, if any.
    pub fn last_report(&self) -> (r: Option<GenericBleGamepad16Report>)
        ensures
            r == self.recorded(),
    {
        self.last_report
    }

    /// Returns the most recently encoded wire report, if any.
    pub fn last_wire(&self) -> (r: Option<EncodedBleInputReport>)
        ensures
            r == self.recorded_wire(),
    {
        self.last_wire
    }

    /// Forces future publishes to fail with the provided error.
    pub fn set_fail_with(&mut self, error: BlePublishError)
        ensures
            final(self).forced_failure() == Some(error),
            final(self).recorded() == old(self).recorded(),
            final(self).recorded_wire() == old(self).recorded_wire(),
            final(self).link_state() == old(self).link_state(),
    {
        self.fail_with = Some(error);
    }

    /// Clears any forced publish failure.
    pub fn clear_failure(&mut self)
        ensures
            final(self).forced_failure() is None,
            final(self).recorded() == old(self).recorded(),
            final(self).recorded_wire() == old(self).recorded_wire(),
            final(self).link_state() == old(self).link_state(),
    {
        self.fail_with = None;
    }

    /// Clears the last recorded typed report.
    pub fn clear_last_report(&mut self)
        ensures
            final(self).recorded() is None,
            final(self).recorded_wire() == old(self).recorded_wire(),
            final(self).forced_failure() == old(self).forced_failure(),
            final(self).link_state() == old(self).link_state(),
    {
        self.last_report = None;
    }

    /// Clears the last recorded wire report.
    pub fn clear_last_wire(&mut self)
        ensures
            final(self).recorded_wire() is None,
            final(self).recorded() == old(self).recorded(),
            final(self).forced_failure() == old(self).forced_failure(),
            final(self).link_state() == old(self).link_state(),
    {
        self.last_wire = None;
    }
}

impl BleOutput for WireRecordingBleOutput {
    /// A forced failure is answered and changes nothing; otherwise the report
    /// and its wire encoding are recorded.
    open spec fn publish_effect(
        &self,
        after: &Self,
        report: GenericBleGamepad16Report,
        result: Result<(), BlePublishError>,
    ) -> bool {
        match self.forced_failure() {
            Some(e) => result == Err::<(), BlePublishError>(e) && *after == *self,
            None => {
                &&& result is Ok
                &&& after.recorded() == Some(report)
                &&& after.recorded_wire() matches Some(w) && w.wire() == spec_encode_gamepad16(report)
                &&& after.forced_failure() == self.forced_failure()
                &&& after.link_state() == self.link_state()
            },
        }
    }

    open spec fn state_result(&self, state: BleConnectionState) -> bool {
        state == self.link_state()
    }

    fn publish_report(&mut self, report: GenericBleGamepad16Report) -> (r: Result<(), BlePublishError>) {
        match self.fail_with {
            Some(error) => Err(error),
            None => {
                self.last_report = Some(report);
                self.last_wire = Some(encode_generic_ble_gamepad16_report(report));
                Ok(())
            },
        }
    }

    fn connection_state(&self) -> (r: BleConnectionState) {
        self.state
    }
}

/// In-memory BLE persona output adapter that records the last persona and encoded wire bytes.
#[derive(Debug, Clone, Copy, PartialEq, Eq)]
pub struct PersonaWireRecordingBleOutput {
    state: BleConnectionState,
    last_persona: Option<OutputPersona>,
    last_wire: Option<EncodedBleInputReport>,
    fail_with: Option<BlePublishError>,
}

impl PersonaWireRecordingBleOutput {
    /// The connection state reported.
    pub closed spec fn link_state(self) -> BleConnectionState {
        self.state
    }

    /// The persona of the last report accepted, if any.
    pub closed spec fn recorded_persona(self) -> Option<OutputPersona> {
        self.last_persona
    }

    /// The last encoded report accepted, if any.
    pub closed spec fn recorded_wire(self) -> Option<EncodedBleInputReport> {
        self.last_wire
    }

    /// The error that publishes are forced to fail with, if any.
    pub closed spec fn forced_failure(self) -> Option<BlePublishError> {
        self.fail_with
    }

    /// Recording outputs are equal exactly when all their observations are.
    pub proof fn lemma_observations_determine_output(a: Self, b: Self)
        requires
            a.link_state() == b.link_state(),
            a.recorded_persona() == b.recorded_persona(),
            a.recorded_wire() == b.recorded_wire(),
            a.forced_failure() == b.forced_failure(),
        ensures
            a == b,
    {
    }

    /// Creates a persona wire-recording output with the requested connection state.
    pub fn new(state: BleConnectionState) -> (r: Self)
        ensures
            r.link_state() == state,
            r.recorded_persona() is None,
            r.recorded_wire() is None,
            r.forced_failure() is None,
    {
        PersonaWireRecordingBleOutput { state, last_persona: None, last_wire: None, fail_with: None }
    }

    /// Returns the most recently published output persona, if any.
    pub fn last_persona(&self) -> (r: Option<OutputPersona>)
        ensures
            r == self.recorded_persona(),
    {
        self.last_persona
    }

    /// Returns the most recently published encoded wire report, if any.
    pub fn last_wire(&self) -> (r: Option<EncodedBleInputReport>)
        ensures
            r == self.recorded_wire(),
    {
        self.last_wire
    }

    /// Forces future publishes to fail with the provided error.
    pub fn set_fail_with(&mut self, error: BlePublishError)
        ensures
            final(self).forced_failure() == Some(error),
            final(self).recorded_persona() == old(self).recorded_persona(),
            final(self).recorded_wire() == old(self).recorded_wire(),
            final(self).link_state() == old(self).link_state(),
    {
        self.fail_with = Some(error);
    }

    /// Clears any forced publish failure.
    pub fn clear_failure(&mut self)
        ensures
            final(self).forced_failure() is None,
            final(self).recorded_persona() == old(self).recorded_persona(),
            final(self).recorded_wire() == old(self).recorded_wire(),
            final(self).link_state() == old(self).link_state(),
    {
        self.fail_with = None;
    }

    /// Clears the last recorded output persona.
    pub fn clear_last_persona(&mut self)
        ensures
            final(self).recorded_persona() is None,
            final(self).recorded_wire() == old(self).recorded_wire(),
            final(self).forced_failure() == old(self).forced_failure(),
            final(self).link_state() == old(self).link_state(),
    {
        self.last_persona = None;
    }

    /// Clears the last recorded wire report.
    pub fn clear_last_wire(&mut self)
        ensures
            final(self).recorded_wire() is None,
            final(self).recorded_persona() == old(self).recorded_persona(),
            final(self).forced_failure() == old(self).forced_failure(),
            final(self).link_state() == old(self).link_state(),
    {
        self.last_wire = None;
    }
}

impl BlePersonaOutput for PersonaWireRecordingBleOutput {
    /// A forced failure is answered and changes nothing; otherwise the persona
    /// and the encoded report are recorded.
    open spec fn publish_effect(
        &self,
        after: &Self,
        persona: OutputPersona,
        report: EncodedBleInputReport,
        result: Result<(), BlePublishError>,
    ) -> bool {
        match self.forced_failure() {
            Some(e) => result == Err::<(), BlePublishError>(e) && *after == *self,
            None => {
                &&& result is Ok
                &&& after.recorded_persona() == Some(persona)
                &&& after.recorded_wire() == Some(report)
                &&& after.forced_failure() == self.forced_failure()
                &&& after.link_state() == self.link_state()
            },
        }
    }

    open spec fn state_result(&self, state: BleConnectionState) -> bool {
        state == self.link_state()
    }

    fn publish_encoded_report(&mut self, persona: OutputPersona, report: EncodedBleInputReport) -> (r:
        Result<(), BlePublishError>) {
        match self.fail_with {
            Some(error) => Err(error),
            None => {
                self.last_persona = Some(persona);
                self.last_wire = Some(report);
                Ok(())
            },
        }
    }

    fn connection_state(&self) -> (r: BleConnectionState) {
        self.state
    }
}

/// Host stand-in for the ESP-IDF Bluedroid BLE HID backend, which is
/// unavailable outside the embedded target.
pub struct EspBlePersonaOutput;

impl EspBlePersonaOutput {
    /// Off target the BLE stack cannot be brought up.
    pub fn new_generic_gamepad_v1() -> (r: Result<Self, BleInitError>)
        ensures
            r matches Err(e) && e == BleInitError::UnsupportedPersona,
    {
        Err(BleInitError::UnsupportedPersona)
    }
}

impl BlePersonaOutput for EspBlePersonaOutput {
    open spec fn publish_effect(
        &self,
        after: &Self,
        persona: OutputPersona,
        report: EncodedBleInputReport,
        result: Result<(), BlePublishError>,
    ) -> bool {
        result == Err::<(), BlePublishError>(BlePublishError::NotReady)
    }

    open spec fn state_result(&self, state: BleConnectionState) -> bool {
        state == BleConnectionState::Idle
    }

    fn publish_encoded_report(&mut self, persona: OutputPersona, report: EncodedBleInputReport) -> (r:
        Result<(), BlePublishError>) {
        Err(BlePublishError::NotReady)
    }

    fn connection_state(&self) -> (r: BleConnectionState) {
        BleConnectionState::Idle
    }
}

} // verus!
