//! UART-friendly newline-terminated ASCII framing for the lean v1 control plane.
use vstd::prelude::*;
use vstd::slice::slice_subrange;
use vstd::string::StringSliceAdditionalSpecFns;
use vstd::utf8::valid_utf8;
use crate::messages::{BleLinkState, Command, DeviceStatus, ErrorCode, Response};
use crate::profile::{OutputPersona, ProfileId, V1_PROFILE_ID};

verus! {

/// The fixed frame terminator byte (`\n`).
pub const FRAME_TERMINATOR: u8 = 10;

/// The byte that separates the fields of a frame (`|`).
pub const FIELD_SEPARATOR: u8 = 124;

/// The maximum supported frame length in bytes.
pub const MAX_FRAME_LEN: usize = 96;

/// The ASCII bytes of `GET_INFO`.
pub const GET_INFO_TOKEN: [u8; 8] = [71, 69, 84, 95, 73, 78, 70, 79];

/// The ASCII bytes of `GET_STATUS`.
pub const GET_STATUS_TOKEN: [u8; 10] = [71, 69, 84, 95, 83, 84, 65, 84, 85, 83];

/// The ASCII bytes of `GET_PROFILE`.
pub const GET_PROFILE_TOKEN: [u8; 11] = [71, 69, 84, 95, 80, 82, 79, 70, 73, 76, 69];

/// The ASCII bytes of `REBOOT`.
pub const REBOOT_TOKEN: [u8; 6] = [82, 69, 66, 79, 79, 84];

/// The ASCII bytes of `FORGET_BONDS`.
pub const FORGET_BONDS_TOKEN: [u8; 12] = [70, 79, 82, 71, 69, 84, 95, 66, 79, 78, 68, 83];

/// The ASCII bytes of `SET_PROFILE`.
pub const SET_PROFILE_TOKEN: [u8; 11] = [83, 69, 84, 95, 80, 82, 79, 70, 73, 76, 69];

/// The ASCII bytes of `t16000m_v1`.
pub const V1_PROFILE_TOKEN: [u8; 10] = [116, 49, 54, 48, 48, 48, 109, 95, 118, 49];

/// The ASCII bytes of `generic_ble_gamepad_16`.
pub const GENERIC_BLE_GAMEPAD16_TOKEN: [u8; 22] = [103, 101, 110, 101, 114, 105, 99, 95, 98, 108, 101, 95, 103, 97, 109, 101, 112, 97, 100, 95, 49, 54];

/// The ASCII bytes of `INFO|`.
pub const INFO_PREFIX: [u8; 5] = [73, 78, 70, 79, 124];

/// The ASCII bytes of `STATUS|`.
pub const STATUS_PREFIX: [u8; 7] = [83, 84, 65, 84, 85, 83, 124];

/// The ASCII bytes of `PROFILE|`.
pub const PROFILE_PREFIX: [u8; 8] = [80, 82, 79, 70, 73, 76, 69, 124];

/// The ASCII bytes of `ACK\n`.
pub const ACK_FRAME: [u8; 4] = [65, 67, 75, 10];

/// The ASCII bytes of `ERROR|`.
pub const ERROR_PREFIX: [u8; 6] = [69, 82, 82, 79, 82, 124];

/// The ASCII bytes of `idle`.
pub const IDLE_TOKEN: [u8; 4] = [105, 100, 108, 101];

/// The ASCII bytes of `advertising`.
pub const ADVERTISING_TOKEN: [u8; 11] = [97, 100, 118, 101, 114, 116, 105, 115, 105, 110, 103];

/// The ASCII bytes of `connected`.
pub const CONNECTED_TOKEN: [u8; 9] = [99, 111, 110, 110, 101, 99, 116, 101, 100];

/// The ASCII bytes of `unsupported_profile`.
pub const UNSUPPORTED_PROFILE_TOKEN: [u8; 19] = [117, 110, 115, 117, 112, 112, 111, 114, 116, 101, 100, 95, 112, 114, 111, 102, 105, 108, 101];

/// The ASCII bytes of `invalid_request`.
pub const INVALID_REQUEST_TOKEN: [u8; 15] = [105, 110, 118, 97, 108, 105, 100, 95, 114, 101, 113, 117, 101, 115, 116];

/// The ASCII bytes of `internal`.
pub const INTERNAL_TOKEN: [u8; 8] = [105, 110, 116, 101, 114, 110, 97, 108];

/// A fixed-capacity encoded wire frame.
#[derive(Debug, Clone, Copy, PartialEq, Eq)]
pub struct EncodedFrame {
    bytes: [u8; 96],
    len: usize,
}

impl EncodedFrame {
    #[verifier::type_invariant]
    spec fn len_in_range(self) -> bool {
        self.len <= 96
    }

    /// The frame bytes.
    pub closed spec fn content(self) -> Seq<u8> {
        self.bytes@.take(self.len as int)
    }

    /// The whole fixed-capacity storage, including the unused tail.
    pub closed spec fn storage(self) -> Seq<u8> {
        self.bytes@
    }

    /// Returns the encoded frame as an exact slice without trailing zeroes.
    pub fn as_bytes(&self) -> (r: &[u8])
        ensures
            r@ == self.content(),
    {
        proof {
            use_type_invariant(self);
        }
        slice_subrange(self.bytes.as_slice(), 0, self.len)
    }

    /// Returns the encoded frame length.
    pub fn len(&self) -> (r: usize)
        ensures
            r == self.content().len(),
    {
        proof {
            use_type_invariant(self);
        }
        self.len
    }

    /// Returns whether the encoded frame is empty.
    pub fn is_empty(&self) -> (r: bool)
        ensures
            r == (self.content().len() == 0),
    {
        proof {
            use_type_invariant(self);
        }
        self.len == 0
    }
}

/// Errors that can occur while decoding or encoding wire frames.
#[derive(Debug, Clone, Copy, PartialEq, Eq, Structural)]
pub enum FrameError {
    /// The input frame is empty.
    Empty,
    /// The input frame is missing the required terminator.
    MissingTerminator,
    /// The input or output frame exceeds the fixed maximum length.
    TooLong {
        /// The full input or output length that was attempted.
        attempted: usize,
        /// The maximum supported frame length.
        max: usize,
    },
    /// The input frame body is not valid UTF-8.
    InvalidUtf8,
    /// The command token is not recognized.
    UnknownCommand,
    /// The general shape of the frame is invalid for the command.
    InvalidFormat,
    /// The requested profile is not supported by lean v1.
    UnsupportedProfile,
}

// ---------------------------------------------------------------------------
// Mathematical model
// ---------------------------------------------------------------------------
/// The first index at or after `from` where `s` holds `b`.
pub open spec fn spec_find_byte(s: Seq<u8>, b: u8, from: int) -> Option<int>
    decreases s.len() - from,
{
    if from < 0 || from >= s.len() {
        None
    } else if s[from] == b {
        Some(from)
    } else {
        spec_find_byte(s, b, from + 1)
    }
}

/// A found byte lies at or after the search start and holds the byte.
pub(crate) proof fn lemma_find_byte_range(s: Seq<u8>, b: u8, from: int)
    ensures
        spec_find_byte(s, b, from) matches Some(i) ==> 0 <= from <= i < s.len() && s[i] == b,
    decreases s.len() - from,
{
    if 0 <= from < s.len() && s[from] != b {
        lemma_find_byte_range(s, b, from + 1);
    }
}

/// Whether a token names one of the commands that take no argument.
pub open spec fn is_bare_command_token(token: Seq<u8>) -> bool {
    ||| token == GET_INFO_TOKEN@
    ||| token == GET_STATUS_TOKEN@
    ||| token == GET_PROFILE_TOKEN@
    ||| token == REBOOT_TOKEN@
    ||| token == FORGET_BONDS_TOKEN@
}

/// The command named by a frame body (the frame without its terminator).
pub open spec fn spec_command_text(body: Seq<u8>) -> Result<Command, FrameError> {
    if body == GET_INFO_TOKEN@ {
        Ok(Command::GetInfo)
    } else if body == GET_STATUS_TOKEN@ {
        Ok(Command::GetStatus)
    } else if body == GET_PROFILE_TOKEN@ {
        Ok(Command::GetProfile)
    } else if body == REBOOT_TOKEN@ {
        Ok(Command::Reboot)
    } else if body == FORGET_BONDS_TOKEN@ {
        Ok(Command::ForgetBonds)
    } else {
        match spec_find_byte(body, FIELD_SEPARATOR, 0) {
            Some(p) => {
                let token = body.take(p);
                let remainder = body.skip(p + 1);
                if is_bare_command_token(token) {
                    Err(FrameError::InvalidFormat)
                } else if token == SET_PROFILE_TOKEN@ {
                    if remainder.len() == 0 || spec_find_byte(remainder, FIELD_SEPARATOR, 0) is Some {
                        Err(FrameError::InvalidFormat)
                    } else if remainder == V1_PROFILE_TOKEN@ {
                        Ok(Command::SetProfile { profile: V1_PROFILE_ID })
                    } else {
                        Err(FrameError::UnsupportedProfile)
                    }
                } else {
                    Err(FrameError::UnknownCommand)
                }
            },
            None => {
                if body == SET_PROFILE_TOKEN@ {
                    Err(FrameError::InvalidFormat)
                } else {
                    Err(FrameError::UnknownCommand)
                }
            },
        }
    }
}

/// The command carried by a wire frame, or why the frame is refused.
pub open spec fn spec_decode_command(input: Seq<u8>) -> Result<Command, FrameError> {
    if input.len() == 0 {
        Err(FrameError::Empty)
    } else if input.len() > 96 {
        Err(FrameError::TooLong { attempted: input.len() as usize, max: 96 })
    } else if input.last() != FRAME_TERMINATOR {
        Err(FrameError::MissingTerminator)
    } else if !valid_utf8(input.drop_last()) {
        Err(FrameError::InvalidUtf8)
    } else {
        spec_command_text(input.drop_last())
    }
}

/// The decimal digits of a byte value, without leading zeros.
pub open spec fn spec_u8_decimal(value: u8) -> Seq<u8> {
    if value >= 100 {
        seq![(48 + value / 100) as u8, (48 + (value / 10) % 10) as u8, (48 + value % 10) as u8]
    } else if value >= 10 {
        seq![(48 + value / 10) as u8, (48 + value % 10) as u8]
    } else {
        seq![(48 + value) as u8]
    }
}

/// The wire token of a profile.
pub open spec fn profile_token(profile: ProfileId) -> Seq<u8> {
    match profile {
        ProfileId::T16000mV1 => V1_PROFILE_TOKEN@,
    }
}

/// The wire token of an output persona.
pub open spec fn persona_token(persona: OutputPersona) -> Seq<u8> {
    match persona {
        OutputPersona::GenericBleGamepad16 => GENERIC_BLE_GAMEPAD16_TOKEN@,
    }
}

/// The wire token of a BLE link state.
pub open spec fn link_state_token(state: BleLinkState) -> Seq<u8> {
    match state {
        BleLinkState::Idle => IDLE_TOKEN@,
        BleLinkState::Advertising => ADVERTISING_TOKEN@,
        BleLinkState::Connected => CONNECTED_TOKEN@,
    }
}

/// The wire token of an error code.
pub open spec fn error_code_token(code: ErrorCode) -> Seq<u8> {
    match code {
        ErrorCode::UnsupportedProfile => UNSUPPORTED_PROFILE_TOKEN@,
        ErrorCode::InvalidRequest => INVALID_REQUEST_TOKEN@,
        ErrorCode::Internal => INTERNAL_TOKEN@,
    }
}

/// `1` for true, `0` for false.
pub open spec fn flag_token(value: bool) -> Seq<u8> {
    if value {
        seq![49u8]
    } else {
        seq![48u8]
    }
}

/// The full wire text of a response: `|`-separated fields after a keyword,
/// ending with the terminator.
pub open spec fn spec_response_text(response: Response) -> Seq<u8> {
    let bar = seq![FIELD_SEPARATOR];
    let nl = seq![FRAME_TERMINATOR];
    match response {
        Response::Info(info) => INFO_PREFIX@ + info.firmware_name.spec_bytes() + bar
            + spec_u8_decimal(info.protocol_version.major) + bar + spec_u8_decimal(
            info.protocol_version.minor,
        ) + bar + profile_token(info.active_profile) + bar + persona_token(info.output_persona)
            + nl,
        Response::Status(status) => STATUS_PREFIX@ + profile_token(status.active_profile) + bar
            + persona_token(status.output_persona) + bar + link_state_token(status.ble_link_state)
            + bar + flag_token(status.bonds_present) + nl,
        Response::Profile { active_profile } => PROFILE_PREFIX@ + profile_token(active_profile)
            + nl,
        Response::Ack => ACK_FRAME@,
        Response::Error(code) => ERROR_PREFIX@ + error_code_token(code) + nl,
    }
}

/// The bytes of an ASCII text, one per character.
pub open spec fn ascii_bytes(text: Seq<char>) -> Seq<u8> {
    text.map_values(|c: char| c as u8)
}

/// A STATUS response is written as the line
/// `STATUS|t16000m_v1|generic_ble_gamepad_16|<link>|<bonds>`: the link
/// field is the name of the link state (`idle`, `advertising` or
/// `connected`) and the bonds field is `1` when bonds are present, `0`
/// otherwise.
pub proof fn lemma_status_frame_names_link_state(status: DeviceStatus)
    ensures
        spec_response_text(Response::Status(status)) == ascii_bytes(
            "STATUS|t16000m_v1|generic_ble_gamepad_16|"@,
        ) + ascii_bytes(
            match status.ble_link_state {
                BleLinkState::Idle => "idle"@,
                BleLinkState::Advertising => "advertising"@,
                BleLinkState::Connected => "connected"@,
            },
        ) + ascii_bytes(
            if status.bonds_present {
                "|1\n"@
            } else {
                "|0\n"@
            },
        ),
{
    reveal_strlit("STATUS|t16000m_v1|generic_ble_gamepad_16|");
    reveal_strlit("idle");
    reveal_strlit("advertising");
    reveal_strlit("connected");
    reveal_strlit("|1\n");
    reveal_strlit("|0\n");
    let head = ascii_bytes("STATUS|t16000m_v1|generic_ble_gamepad_16|"@);
    assert(head =~= STATUS_PREFIX@ + V1_PROFILE_TOKEN@ + seq![FIELD_SEPARATOR]
        + GENERIC_BLE_GAMEPAD16_TOKEN@ + seq![FIELD_SEPARATOR]);
    assert(ascii_bytes("idle"@) =~= IDLE_TOKEN@);
    assert(ascii_bytes("advertising"@) =~= ADVERTISING_TOKEN@);
    assert(ascii_bytes("connected"@) =~= CONNECTED_TOKEN@);
    assert(ascii_bytes("|1\n"@) =~= seq![FIELD_SEPARATOR] + flag_token(true) + seq![FRAME_TERMINATOR]);
    assert(ascii_bytes("|0\n"@) =~= seq![FIELD_SEPARATOR] + flag_token(false) + seq![FRAME_TERMINATOR]);
    let link = ascii_bytes(
        match status.ble_link_state {
            BleLinkState::Idle => "idle"@,
            BleLinkState::Advertising => "advertising"@,
            BleLinkState::Connected => "connected"@,
        },
    );
    let tail = ascii_bytes(
        if status.bonds_present {
            "|1\n"@
        } else {
            "|0\n"@
        },
    );
    assert(spec_response_text(Response::Status(status)) =~= head + link + tail);
}

/// A run of `n` zero bytes.
pub open spec fn zeros(n: nat) -> Seq<u8> {
    Seq::new(n, |i: int| 0u8)
}

/// Whether `frame` holds exactly `text`, followed by zero bytes.
pub open spec fn frame_holds(frame: EncodedFrame, text: Seq<u8>) -> bool {
    &&& text.len() <= 96
    &&& frame.content() == text
    &&& frame.storage() == text + zeros((96 - text.len()) as nat)
}

struct FrameWriter {
    bytes: [u8; 96],
    len: usize,
    attempted: usize,
}

/// The writer has been handed `text`: it counted all of it and stored as
/// much as fits, with zeros after.
spec fn writer_holds(w: FrameWriter, text: Seq<u8>) -> bool {
    let kept = if text.len() <= 96 {
        text.len()
    } else {
        96
    };
    &&& w.attempted == text.len()
    &&& w.len == kept
    &&& w.bytes@ == text.take(kept as int) + zeros((96 - kept) as nat)
}

impl FrameWriter {
    fn new() -> (r: Self)
        ensures
            writer_holds(r, Seq::empty()),
    {
        let r = FrameWriter { bytes: [0u8;96], len: 0, attempted: 0 };
        assert(r.bytes@ =~= Seq::<u8>::empty().take(0) + zeros(96));
        r
    }

    fn push_bytes(&mut self, bytes: &[u8], Ghost(text): Ghost<Seq<u8>>)
        requires
            writer_holds(*old(self), text),
            text.len() + bytes@.len() <= usize::MAX,
        ensures
            writer_holds(*final(self), text + bytes@),
    {
        let ghost start = self.bytes@;
        self.attempted = self.attempted + bytes.len();
        if self.len < MAX_FRAME_LEN {
            let remaining = MAX_FRAME_LEN - self.len;
            let copy_len = if remaining < bytes.len() {
                remaining
            } else {
                bytes.len()
            };
            let base = self.len;
            assert(text.len() == base);
            assert(forall|k: int| 0 <= k < base ==> start[k] == text[k]);
            assert(forall|k: int| base <= k < 96 ==> start[k] == 0);
            let mut i: usize = 0;
            while i < copy_len
                invariant
                    base + copy_len <= 96,
                    copy_len <= bytes@.len(),
                    self.attempted == text.len() + bytes@.len(),
                    self.len == base,
                    i <= copy_len,
                    self.bytes@.len() == 96,
                    forall|k: int| 0 <= k < base ==> self.bytes@[k] == start[k],
                    forall|k: int| base <= k < base + i ==> self.bytes@[k] == bytes@[k - base],
                    forall|k: int| base + i <= k < 96 ==> self.bytes@[k] == start[k],
                decreases copy_len - i,
            {
                self.bytes[base + i] = bytes[i];
                i = i + 1;
            }
            self.len = base + copy_len;
            let ghost t2 = text + bytes@;
            let ghost kept: int = if t2.len() <= 96 {
                t2.len() as int
            } else {
                96
            };
            assert(kept == base + copy_len);
            assert forall|k: int| 0 <= k < 96 implies self.bytes@[k] == (t2.take(kept) + zeros(
                (96 - kept) as nat,
            ))[k] by {
                if k < base {
                    assert(self.bytes@[k] == start[k]);
                    assert(start[k] == text[k]);
                    assert(t2[k] == text[k]);
                    assert((t2.take(kept) + zeros((96 - kept) as nat))[k] == t2.take(kept)[k]);
                } else if k < kept {
                    assert(self.bytes@[k] == bytes@[k - base]);
                    assert(t2[k] == bytes@[k - base]);
                    assert((t2.take(kept) + zeros((96 - kept) as nat))[k] == t2.take(kept)[k]);
                } else {
                    assert(self.bytes@[k] == start[k]);
                    assert(start[k] == 0);
                    assert((t2.take(kept) + zeros((96 - kept) as nat))[k] == zeros(
                        (96 - kept) as nat,
                    )[k - kept]);
                }
            }
            assert(self.bytes@ =~= t2.take(kept) + zeros((96 - kept) as nat));
        } else {
            let ghost t2 = text + bytes@;
            assert(t2.take(96) =~= text.take(96));
        }
    }

    fn push_byte(&mut self, byte: u8, Ghost(text): Ghost<Seq<u8>>)
        requires
            writer_holds(*old(self), text),
            text.len() + 1 <= usize::MAX,
        ensures
            writer_holds(*final(self), text.push(byte)),
    {
        let one = [byte];
        assert(one@ =~= seq![byte]);
        assert(text.push(byte) =~= text + one@);
        self.push_bytes(one.as_slice(), Ghost(text));
    }

    fn push_u8_decimal(&mut self, value: u8, Ghost(text): Ghost<Seq<u8>>)
        requires
            writer_holds(*old(self), text),
            text.len() + 3 <= usize::MAX,
        ensures
            writer_holds(*final(self), text + spec_u8_decimal(value)),
    {
        let hundreds = value / 100;
        let tens = (value / 10) % 10;
        let ones = value % 10;
        let ghost t = text;
        if hundreds != 0 {
            self.push_byte(48 + hundreds, Ghost(t));
            proof {
                t = t.push((48 + hundreds) as u8);
            }
        }
        if hundreds != 0 || tens != 0 {
            self.push_byte(48 + tens, Ghost(t));
            proof {
                t = t.push((48 + tens) as u8);
            }
        }
        self.push_byte(48 + ones, Ghost(t));
        proof {
            t = t.push((48 + ones) as u8);
            assert(t =~= text + spec_u8_decimal(value));
        }
    }

    fn finish(self, Ghost(text): Ghost<Seq<u8>>) -> (r: Result<EncodedFrame, FrameError>)
        requires
            writer_holds(self, text),
        ensures
            text.len() > 96 ==> r == Err::<EncodedFrame, FrameError>(
                FrameError::TooLong { attempted: text.len() as usize, max: 96 },
            ),
            text.len() <= 96 ==> (r matches Ok(f) && frame_holds(f, text)),
    {
        if self.attempted > MAX_FRAME_LEN {
            Err(FrameError::TooLong { attempted: self.attempted, max: MAX_FRAME_LEN })
        } else {
            assert(text.take(text.len() as int) =~= text);
            let f = EncodedFrame { bytes: self.bytes, len: self.len };
            assert(f.content() =~= text);
            Ok(f)
        }
    }
}

pub(crate) fn bytes_equal(a: &[u8], b: &[u8]) -> (r: bool)
    ensures
        r == (a@ == b@),
{
    if a.len() != b.len() {
        return false;
    }
    let mut i: usize = 0;
    while i < a.len()
        invariant
            a@.len() == b@.len(),
            i <= a@.len(),
            forall|k: int| 0 <= k < i ==> a@[k] == b@[k],
        decreases a@.len() - i,
    {
        if a[i] != b[i] {
            return false;
        }
        i = i + 1;
    }
    assert(a@ =~= b@);
    true
}

fn find_byte(s: &[u8], b: u8) -> (r: Option<usize>)
    ensures
        match spec_find_byte(s@, b, 0) {
            Some(p) => r == Some(p as usize) && 0 <= p < s@.len(),
            None => r is None,
        },
        r matches Some(p) ==> p < s@.len() && s@[p as int] == b,
{
    proof {
        lemma_find_byte_range(s@, b, 0);
    }
    let mut i: usize = 0;
    while i < s.len()
        invariant
            i <= s@.len(),
            spec_find_byte(s@, b, 0) == spec_find_byte(s@, b, i as int),
        decreases s@.len() - i,
    {
        if s[i] == b {
            return Some(i);
        }
        i = i + 1;
    }
    None
}

/// `core::str::from_utf8`: succeeds exactly when `bytes` is well-formed UTF-8
/// (as vstd's `valid_utf8` defines it); only that success is reported.
#[verifier::external_body]
fn utf8_is_valid(bytes: &[u8]) -> (r: bool)
    ensures
        r == valid_utf8(bytes@),
{
    core::str::from_utf8(bytes).is_ok()
}

fn command_from_text(body: &[u8]) -> (r: Result<Command, FrameError>)
    ensures
        r == spec_command_text(body@),
{
    if bytes_equal(body, &GET_INFO_TOKEN) {
        return Ok(Command::GetInfo);
    }
    if bytes_equal(body, &GET_STATUS_TOKEN) {
        return Ok(Command::GetStatus);
    }
    if bytes_equal(body, &GET_PROFILE_TOKEN) {
        return Ok(Command::GetProfile);
    }
    if bytes_equal(body, &REBOOT_TOKEN) {
        return Ok(Command::Reboot);
    }
    if bytes_equal(body, &FORGET_BONDS_TOKEN) {
        return Ok(Command::ForgetBonds);
    }
    match find_byte(body, FIELD_SEPARATOR) {
        Some(p) => {
            let n = body.len();
            let token = slice_subrange(body, 0, p);
            let remainder = slice_subrange(body, p + 1, n);
            assert(token@ =~= body@.take(p as int));
            assert(remainder@ =~= body@.skip(p + 1));
            if bytes_equal(token, &GET_INFO_TOKEN) || bytes_equal(token, &GET_STATUS_TOKEN)
                || bytes_equal(token, &GET_PROFILE_TOKEN) || bytes_equal(token, &REBOOT_TOKEN)
                || bytes_equal(token, &FORGET_BONDS_TOKEN) {
                Err(FrameError::InvalidFormat)
            } else if bytes_equal(token, &SET_PROFILE_TOKEN) {
                if remainder.len() == 0 || find_byte(remainder, FIELD_SEPARATOR).is_some() {
                    Err(FrameError::InvalidFormat)
                } else if bytes_equal(remainder, &V1_PROFILE_TOKEN) {
                    Ok(Command::SetProfile { profile: V1_PROFILE_ID })
                } else {
                    Err(FrameError::UnsupportedProfile)
                }
            } else {
                Err(FrameError::UnknownCommand)
            }
        },
        None => {
            if bytes_equal(body, &SET_PROFILE_TOKEN) {
                Err(FrameError::InvalidFormat)
            } else {
                Err(FrameError::UnknownCommand)
            }
        },
    }
}

/// Decodes a typed command from a newline-terminated ASCII wire frame.
pub fn decode_command(input: &[u8]) -> (r: Result<Command, FrameError>)
    ensures
        r == spec_decode_command(input@),
{
    if input.len() == 0 {
        return Err(FrameError::Empty);
    }
    if input.len() > MAX_FRAME_LEN {
        return Err(FrameError::TooLong { attempted: input.len(), max: MAX_FRAME_LEN });
    }
    if input[input.len() - 1] != FRAME_TERMINATOR {
        return Err(FrameError::MissingTerminator);
    }
    let body = slice_subrange(input, 0, input.len() - 1);
    assert(body@ =~= input@.drop_last());
    if !utf8_is_valid(body) {
        return Err(FrameError::InvalidUtf8);
    }
    command_from_text(body)
}

fn push_profile(writer: &mut FrameWriter, profile: ProfileId, Ghost(text): Ghost<Seq<u8>>)
    requires
        writer_holds(*old(writer), text),
        text.len() + 10 <= usize::MAX,
    ensures
        writer_holds(*final(writer), text + profile_token(profile)),
{
    match profile {
        ProfileId::T16000mV1 => writer.push_bytes(&V1_PROFILE_TOKEN, Ghost(text)),
    }
}

fn push_persona(writer: &mut FrameWriter, persona: OutputPersona, Ghost(text): Ghost<Seq<u8>>)
    requires
        writer_holds(*old(writer), text),
        text.len() + 22 <= usize::MAX,
    ensures
        writer_holds(*final(writer), text + persona_token(persona)),
{
    match persona {
        OutputPersona::GenericBleGamepad16 => writer.push_bytes(
            &GENERIC_BLE_GAMEPAD16_TOKEN,
            Ghost(text),
        ),
    }
}

fn push_link_state(writer: &mut FrameWriter, state: BleLinkState, Ghost(text): Ghost<Seq<u8>>)
    requires
        writer_holds(*old(writer), text),
        text.len() + 11 <= usize::MAX,
    ensures
        writer_holds(*final(writer), text + link_state_token(state)),
{
    match state {
        BleLinkState::Idle => writer.push_bytes(&IDLE_TOKEN, Ghost(text)),
        BleLinkState::Advertising => writer.push_bytes(&ADVERTISING_TOKEN, Ghost(text)),
        BleLinkState::Connected => writer.push_bytes(&CONNECTED_TOKEN, Ghost(text)),
    }
}

fn push_error_code(writer: &mut FrameWriter, code: ErrorCode, Ghost(text): Ghost<Seq<u8>>)
    requires
        writer_holds(*old(writer), text),
        text.len() + 19 <= usize::MAX,
    ensures
        writer_holds(*final(writer), text + error_code_token(code)),
{
    match code {
        ErrorCode::UnsupportedProfile => writer.push_bytes(&UNSUPPORTED_PROFILE_TOKEN, Ghost(text)),
        ErrorCode::InvalidRequest => writer.push_bytes(&INVALID_REQUEST_TOKEN, Ghost(text)),
        ErrorCode::Internal => writer.push_bytes(&INTERNAL_TOKEN, Ghost(text)),
    }
}

fn push_flag(writer: &mut FrameWriter, value: bool, Ghost(text): Ghost<Seq<u8>>)
    requires
        writer_holds(*old(writer), text),
        text.len() + 1 <= usize::MAX,
    ensures
        writer_holds(*final(writer), text + flag_token(value)),
{
    if value {
        writer.push_byte(49, Ghost(text));
        assert(text.push(49u8) =~= text + flag_token(value));
    } else {
        writer.push_byte(48, Ghost(text));
        assert(text.push(48u8) =~= text + flag_token(value));
    }
}

/// Encodes a typed response into a newline-terminated ASCII wire frame.
pub fn encode_response(response: Response) -> (r: Result<EncodedFrame, FrameError>)
    requires
        spec_response_text(response).len() <= usize::MAX,
    ensures
        spec_response_text(response).len() > 96 ==> r == Err::<EncodedFrame, FrameError>(
            FrameError::TooLong { attempted: spec_response_text(response).len() as usize, max: 96 },
        ),
        spec_response_text(response).len() <= 96 ==> (r matches Ok(f) && frame_holds(
            f,
            spec_response_text(response),
        )),
{
    let mut writer = FrameWriter::new();
    let ghost t: Seq<u8> = Seq::empty();
    let ghost full = spec_response_text(response);
    let ghost bar = seq![FIELD_SEPARATOR];
    let ghost nl = seq![FRAME_TERMINATOR];
    match response {
        Response::Info(info) => {
            let name = info.firmware_name.as_bytes();
            assert(full.len() >= 5 + name@.len() + 20);
            writer.push_bytes(&INFO_PREFIX, Ghost(t));
            proof { t = t + INFO_PREFIX@; }
            writer.push_bytes(name, Ghost(t));
            proof { t = t + name@; }
            writer.push_byte(FIELD_SEPARATOR, Ghost(t));
            proof { t = t.push(FIELD_SEPARATOR); }
            writer.push_u8_decimal(info.protocol_version.major, Ghost(t));
            proof { t = t + spec_u8_decimal(info.protocol_version.major); }
            writer.push_byte(FIELD_SEPARATOR, Ghost(t));
            proof { t = t.push(FIELD_SEPARATOR); }
            writer.push_u8_decimal(info.protocol_version.minor, Ghost(t));
            proof { t = t + spec_u8_decimal(info.protocol_version.minor); }
            writer.push_byte(FIELD_SEPARATOR, Ghost(t));
            proof { t = t.push(FIELD_SEPARATOR); }
            push_profile(&mut writer, info.active_profile, Ghost(t));
            proof { t = t + profile_token(info.active_profile); }
            writer.push_byte(FIELD_SEPARATOR, Ghost(t));
            proof { t = t.push(FIELD_SEPARATOR); }
            push_persona(&mut writer, info.output_persona, Ghost(t));
            proof { t = t + persona_token(info.output_persona); }
            writer.push_byte(FRAME_TERMINATOR, Ghost(t));
            proof {
                t = t.push(FRAME_TERMINATOR);
                assert(t =~= full);
            }
        },
        Response::Status(status) => {
            writer.push_bytes(&STATUS_PREFIX, Ghost(t));
            proof { t = t + STATUS_PREFIX@; }
            push_profile(&mut writer, status.active_profile, Ghost(t));
            proof { t = t + profile_token(status.active_profile); }
            writer.push_byte(FIELD_SEPARATOR, Ghost(t));
            proof { t = t.push(FIELD_SEPARATOR); }
            push_persona(&mut writer, status.output_persona, Ghost(t));
            proof { t = t + persona_token(status.output_persona); }
            writer.push_byte(FIELD_SEPARATOR, Ghost(t));
            proof { t = t.push(FIELD_SEPARATOR); }
            push_link_state(&mut writer, status.ble_link_state, Ghost(t));
            proof { t = t + link_state_token(status.ble_link_state); }
            writer.push_byte(FIELD_SEPARATOR, Ghost(t));
            proof { t = t.push(FIELD_SEPARATOR); }
            push_flag(&mut writer, status.bonds_present, Ghost(t));
            proof { t = t + flag_token(status.bonds_present); }
            writer.push_byte(FRAME_TERMINATOR, Ghost(t));
            proof {
                t = t.push(FRAME_TERMINATOR);
                assert(t =~= full);
            }
        },
        Response::Profile { active_profile } => {
            writer.push_bytes(&PROFILE_PREFIX, Ghost(t));
            proof { t = t + PROFILE_PREFIX@; }
            push_profile(&mut writer, active_profile, Ghost(t));
            proof { t = t + profile_token(active_profile); }
            writer.push_byte(FRAME_TERMINATOR, Ghost(t));
            proof {
                t = t.push(FRAME_TERMINATOR);
                assert(t =~= full);
            }
        },
        Response::Ack => {
            writer.push_bytes(&ACK_FRAME, Ghost(t));
            proof {
                t = t + ACK_FRAME@;
                assert(t =~= full);
            }
        },
        Response::Error(code) => {
            writer.push_bytes(&ERROR_PREFIX, Ghost(t));
            proof { t = t + ERROR_PREFIX@; }
            push_error_code(&mut writer, code, Ghost(t));
            proof { t = t + error_code_token(code); }
            writer.push_byte(FRAME_TERMINATOR, Ghost(t));
            proof {
                t = t.push(FRAME_TERMINATOR);
                assert(t =~= full);
            }
        },
    }
    writer.finish(Ghost(t))
}

} // verus!
