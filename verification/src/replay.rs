//! Host replay scripts: a line-oriented text format of simulated USB events
//! (`ATTACH`, `DESCRIPTOR`, `INPUT`, `DETACH`), its parser, and the host
//! drivers that feed scripted or demo traffic through the embedded runtime.
use vstd::prelude::*;
use vstd::string::StringSliceAdditionalSpecFns;
use crate::app::{BufferedConsoleOutcome, BufferedPersonaAppPumpOutcome, UsbPersonaPumpOutcome};
use crate::ble_hid::{
    spec_persona_descriptor, BleConnectionState, BlePersonaDescriptor, EncodedBleInputReport,
};
use crate::console_uart::{push_effect, FrameBufferError};
use crate::embedded::{
    drain_result, fresh_host_state, EmbeddedDrainError, EmbeddedDrainSummary, EmbeddedRuntimeState,
};
use crate::framing::{bytes_equal, zeros};
use crate::profile::{OutputPersona, ProfileId};
use crate::runtime::{spec_report_from, GenericBleGamepad16Report};
use crate::usb_host::{DeviceMeta, UsbDeviceId, UsbEvent};

verus! {

/// The largest descriptor or input payload a replay command may carry.
pub const REPLAY_PAYLOAD_MAX: usize = 64;

/// One parsed replay script command.
#[derive(Debug, Clone, PartialEq, Eq)]
pub enum ReplayCommand {
    /// Attach a device.
    Attach {
        /// The platform-local device identifier.
        device_id: u8,
        /// The USB vendor identifier.
        vendor_id: u16,
        /// The USB product identifier.
        product_id: u16,
    },
    /// Deliver a report descriptor to the active device.
    Descriptor(Vec<u8>),
    /// Deliver an input report to the active device.
    Input {
        /// The HID report identifier.
        report_id: u8,
        /// The report payload.
        data: Vec<u8>,
    },
    /// Detach a device.
    Detach(u8),
}

/// A replay command with its byte payloads seen as sequences.
pub ghost enum ReplayCommandView {
    Attach { device_id: u8, vendor_id: u16, product_id: u16 },
    Descriptor(Seq<u8>),
    Input { report_id: u8, data: Seq<u8> },
    Detach(u8),
}

impl View for ReplayCommand {
    type V = ReplayCommandView;

    open spec fn view(&self) -> ReplayCommandView {
        match self {
            ReplayCommand::Attach { device_id, vendor_id, product_id } => ReplayCommandView::Attach {
                device_id: *device_id,
                vendor_id: *vendor_id,
                product_id: *product_id,
            },
            ReplayCommand::Descriptor(bytes) => ReplayCommandView::Descriptor(bytes@),
            ReplayCommand::Input { report_id, data } => ReplayCommandView::Input {
                report_id: *report_id,
                data: data@,
            },
            ReplayCommand::Detach(device_id) => ReplayCommandView::Detach(*device_id),
        }
    }
}

/// Errors met while parsing a replay script; each carries its 1-based line.
/// Texts are UTF-8 bytes.
#[derive(Debug, Clone, PartialEq, Eq)]
pub enum ReplayParseError {
    /// `ATTACH` did not have three valid numeric arguments.
    InvalidAttach(usize),
    /// A descriptor byte was malformed; the text says which.
    InvalidDescriptor(usize, Vec<u8>),
    /// The descriptor held more than 64 bytes; the count is given.
    DescriptorTooLong(usize, usize),
    /// The input line was malformed; the text says how.
    InvalidInput(usize, Vec<u8>),
    /// The input data held more than 64 bytes; the count is given.
    InputTooLong(usize, usize),
    /// `DETACH` did not have one valid numeric argument.
    InvalidDetach(usize),
    /// The line started with an unknown command, which is given.
    UnknownCommand(usize, Vec<u8>),
}

/// A replay parse error with its texts seen as sequences.
pub ghost enum ReplayParseErrorView {
    InvalidAttach(usize),
    InvalidDescriptor(usize, Seq<u8>),
    DescriptorTooLong(usize, usize),
    InvalidInput(usize, Seq<u8>),
    InputTooLong(usize, usize),
    InvalidDetach(usize),
    UnknownCommand(usize, Seq<u8>),
}

impl View for ReplayParseError {
    type V = ReplayParseErrorView;

    open spec fn view(&self) -> ReplayParseErrorView {
        match self {
            ReplayParseError::InvalidAttach(line) => ReplayParseErrorView::InvalidAttach(*line),
            ReplayParseError::InvalidDescriptor(line, text) => ReplayParseErrorView::InvalidDescriptor(
                *line,
                text@,
            ),
            ReplayParseError::DescriptorTooLong(line, len) => ReplayParseErrorView::DescriptorTooLong(
                *line,
                *len,
            ),
            ReplayParseError::InvalidInput(line, text) => ReplayParseErrorView::InvalidInput(
                *line,
                text@,
            ),
            ReplayParseError::InputTooLong(line, len) => ReplayParseErrorView::InputTooLong(
                *line,
                *len,
            ),
            ReplayParseError::InvalidDetach(line) => ReplayParseErrorView::InvalidDetach(*line),
            ReplayParseError::UnknownCommand(line, text) => ReplayParseErrorView::UnknownCommand(
                *line,
                text@,
            ),
        }
    }
}

/// Why an integer token was refused, as the standard integer parser reports it.
#[derive(Debug, Clone, Copy, PartialEq, Eq, Structural)]
pub enum IntErrorKind {
    /// The token was empty.
    Empty,
    /// The token held a character that is not a digit of the radix.
    InvalidDigit,
    /// The value does not fit in the target type.
    PosOverflow,
}

// ---------------------------------------------------------------------------
// Specification of the script format
// ---------------------------------------------------------------------------
/// Whether byte `b` is an ASCII white-space character.
pub open spec fn is_ascii_space(b: u8) -> bool {
    b == 9 || b == 10 || b == 11 || b == 12 || b == 13 || b == 32
}

/// The byte length of the Unicode white-space character whose UTF-8
/// encoding starts at `i` in `s`, or 0 when none starts there.
pub open spec fn space_width(s: Seq<u8>, i: int) -> int {
    if i < 0 || i >= s.len() {
        0
    } else if is_ascii_space(s[i]) {
        1
    } else if s[i] == 0xC2 && i + 1 < s.len() && (s[i + 1] == 0x85 || s[i + 1] == 0xA0) {
        2
    } else if i + 2 < s.len() && ((s[i] == 0xE1 && s[i + 1] == 0x9A && s[i + 2] == 0x80) || (s[i]
        == 0xE2 && s[i + 1] == 0x80 && ((0x80 <= s[i + 2] && s[i + 2] <= 0x8A) || s[i + 2] == 0xA8
        || s[i + 2] == 0xA9 || s[i + 2] == 0xAF)) || (s[i] == 0xE2 && s[i + 1] == 0x81 && s[i + 2]
        == 0x9F) || (s[i] == 0xE3 && s[i + 1] == 0x80 && s[i + 2] == 0x80)) {
        3
    } else {
        0
    }
}

/// The white-space separated tokens of `s` from byte `i` on, after the
/// tokens `done` already split off and the partial token `cur`.
pub open spec fn tokens_from(s: Seq<u8>, i: int, done: Seq<Seq<u8>>, cur: Seq<u8>) -> Seq<Seq<u8>>
    decreases s.len() - i,
{
    if i >= s.len() {
        if cur.len() > 0 {
            done.push(cur)
        } else {
            done
        }
    } else if space_width(s, i) > 0 {
        tokens_from(
            s,
            i + space_width(s, i),
            if cur.len() > 0 {
                done.push(cur)
            } else {
                done
            },
            Seq::empty(),
        )
    } else {
        tokens_from(s, i + 1, done, cur.push(s[i]))
    }
}

/// The white-space separated tokens of `s`.
pub open spec fn spec_tokens(s: Seq<u8>) -> Seq<Seq<u8>> {
    tokens_from(s, 0, Seq::empty(), Seq::empty())
}

/// The index of the first line feed at or after `i`, or the length of `s`.
pub open spec fn line_end(s: Seq<u8>, i: int) -> int
    decreases s.len() - i,
{
    if i >= s.len() || s[i] == 10 {
        i
    } else {
        line_end(s, i + 1)
    }
}

/// The value of a digit character in `radix`, if it is one.
pub open spec fn digit_value(b: u8, radix: nat) -> Option<nat> {
    let d: int = if 48 <= b && b <= 57 {
        b - 48
    } else if 97 <= b && b <= 122 {
        b - 87
    } else if 65 <= b && b <= 90 {
        b - 55
    } else {
        36
    };
    if d < radix {
        Some(d as nat)
    } else {
        None
    }
}

/// Accumulating the digits of `s` from `i` onto `value`, stopping at the
/// first digit that is invalid or that takes the value past `max`.
pub open spec fn digits_value(s: Seq<u8>, i: int, value: nat, radix: nat, max: nat) -> Result<
    nat,
    IntErrorKind,
>
    decreases s.len() - i,
{
    if i >= s.len() {
        Ok(value)
    } else {
        match digit_value(s[i], radix) {
            None => Err(IntErrorKind::InvalidDigit),
            Some(d) => {
                if value * radix + d > max {
                    Err(IntErrorKind::PosOverflow)
                } else {
                    digits_value(s, i + 1, value * radix + d, radix, max)
                }
            },
        }
    }
}

/// The unsigned integer in `radix` written by `s`, at most `max`: digits
/// after an optional `+`.
pub open spec fn parse_unsigned(s: Seq<u8>, radix: nat, max: nat) -> Result<nat, IntErrorKind> {
    if s.len() == 0 {
        Err(IntErrorKind::Empty)
    } else if s.len() == 1 && (s[0] == 43 || s[0] == 45) {
        Err(IntErrorKind::InvalidDigit)
    } else if s[0] == 43 {
        digits_value(s, 1, 0, radix, max)
    } else {
        digits_value(s, 0, 0, radix, max)
    }
}

/// The standard description of an integer parse failure.
pub open spec fn int_error_text(kind: IntErrorKind) -> Seq<u8> {
    match kind {
        IntErrorKind::Empty => "cannot parse integer from empty string".spec_bytes(),
        IntErrorKind::InvalidDigit => "invalid digit found in string".spec_bytes(),
        IntErrorKind::PosOverflow => "number too large to fit in target type".spec_bytes(),
    }
}

/// The bytes written by two-digit hexadecimal tokens `tokens[k..]`, after
/// `acc`, or the description of the first malformed token.
pub open spec fn hex_bytes_from(tokens: Seq<Seq<u8>>, k: int, acc: Seq<u8>) -> Result<
    Seq<u8>,
    Seq<u8>,
>
    decreases tokens.len() - k,
{
    if k >= tokens.len() {
        Ok(acc)
    } else if tokens[k].len() != 2 {
        Err("invalid hex byte: ".spec_bytes() + tokens[k])
    } else {
        match parse_unsigned(tokens[k], 16, 255) {
            Err(kind) => Err(
                "invalid hex byte ".spec_bytes() + tokens[k] + ": ".spec_bytes() + int_error_text(
                    kind,
                ),
            ),
            Ok(value) => hex_bytes_from(tokens, k + 1, acc.push(value as u8)),
        }
    }
}

/// The command on a line with tokens `t` (none for a blank or `#` comment
/// line), or the error for line number `line`.
pub open spec fn parse_line(t: Seq<Seq<u8>>, line: usize) -> Result<
    Option<ReplayCommandView>,
    ReplayParseErrorView,
> {
    if t.len() == 0 || t[0][0] == 35 {
        Ok(None)
    } else if t[0] == "ATTACH".spec_bytes() {
        if t.len() != 4 {
            Err(ReplayParseErrorView::InvalidAttach(line))
        } else {
            match (
                parse_unsigned(t[1], 10, 255),
                parse_unsigned(t[2], 10, 65535),
                parse_unsigned(t[3], 10, 65535),
            ) {
                (Ok(device_id), Ok(vendor_id), Ok(product_id)) => Ok(
                    Some(
                        ReplayCommandView::Attach {
                            device_id: device_id as u8,
                            vendor_id: vendor_id as u16,
                            product_id: product_id as u16,
                        },
                    ),
                ),
                _ => Err(ReplayParseErrorView::InvalidAttach(line)),
            }
        }
    } else if t[0] == "DESCRIPTOR".spec_bytes() {
        match hex_bytes_from(t, 1, Seq::empty()) {
            Err(text) => Err(ReplayParseErrorView::InvalidDescriptor(line, text)),
            Ok(bytes) => if bytes.len() > 64 {
                Err(ReplayParseErrorView::DescriptorTooLong(line, bytes.len() as usize))
            } else {
                Ok(Some(ReplayCommandView::Descriptor(bytes)))
            },
        }
    } else if t[0] == "INPUT".spec_bytes() {
        if t.len() < 2 {
            Err(ReplayParseErrorView::InvalidInput(line, "requires report_id".spec_bytes()))
        } else {
            match parse_unsigned(t[1], 16, 255) {
                Err(kind) => Err(ReplayParseErrorView::InvalidInput(line, int_error_text(kind))),
                Ok(report_id) => match hex_bytes_from(t, 2, Seq::empty()) {
                    Err(text) => Err(ReplayParseErrorView::InvalidInput(line, text)),
                    Ok(data) => if data.len() > 64 {
                        Err(ReplayParseErrorView::InputTooLong(line, data.len() as usize))
                    } else {
                        Ok(Some(ReplayCommandView::Input { report_id: report_id as u8, data }))
                    },
                },
            }
        }
    } else if t[0] == "DETACH".spec_bytes() {
        if t.len() != 2 {
            Err(ReplayParseErrorView::InvalidDetach(line))
        } else {
            match parse_unsigned(t[1], 10, 255) {
                Ok(device_id) => Ok(Some(ReplayCommandView::Detach(device_id as u8))),
                Err(_) => Err(ReplayParseErrorView::InvalidDetach(line)),
            }
        }
    } else {
        Err(ReplayParseErrorView::UnknownCommand(line, t[0]))
    }
}

/// A line end is never before the line start, nor past the text.
pub proof fn lemma_line_end(s: Seq<u8>, i: int)
    requires
        0 <= i <= s.len(),
    ensures
        i <= line_end(s, i) <= s.len(),
        line_end(s, i) < s.len() ==> s[line_end(s, i)] == 10,
        forall|k: int| i <= k < line_end(s, i) ==> s[k] != 10,
    decreases s.len() - i,
{
    if i < s.len() && s[i] != 10 {
        lemma_line_end(s, i + 1);
    }
}

/// Accumulated digits never exceed the bound they are checked against.
proof fn lemma_digits_bound(s: Seq<u8>, i: int, value: nat, radix: nat, max: nat)
    requires
        value <= max,
    ensures
        digits_value(s, i, value, radix, max) matches Ok(v) ==> v <= max,
    decreases s.len() - i,
{
    if i < s.len() {
        match digit_value(s[i], radix) {
            Some(d) => {
                if value * radix + d <= max {
                    lemma_digits_bound(s, i + 1, value * radix + d, radix, max);
                }
            },
            None => {},
        }
    }
}

/// A parsed unsigned value never exceeds its bound.
proof fn lemma_parse_bound(s: Seq<u8>, radix: nat, max: nat)
    ensures
        parse_unsigned(s, radix, max) matches Ok(v) ==> v <= max,
{
    lemma_digits_bound(s, 0, 0, radix, max);
    lemma_digits_bound(s, 1, 0, radix, max);
}

/// Every token is non-empty.
proof fn lemma_tokens_nonempty(s: Seq<u8>, i: int, done: Seq<Seq<u8>>, cur: Seq<u8>)
    requires
        forall|k: int| 0 <= k < done.len() ==> (#[trigger] done[k]).len() > 0,
    ensures
        forall|k: int|
            0 <= k < tokens_from(s, i, done, cur).len() ==> (#[trigger] tokens_from(
                s,
                i,
                done,
                cur,
            )[k]).len() > 0,
    decreases s.len() - i,
{
    if i >= s.len() {
        let all = if cur.len() > 0 {
            done.push(cur)
        } else {
            done
        };
        assert forall|k: int| 0 <= k < all.len() implies (#[trigger] all[k]).len() > 0 by {
            if k < done.len() {
                assert(all[k] == done[k]);
            }
        }
        assert(tokens_from(s, i, done, cur) == all);
    } else if space_width(s, i) > 0 {
        let next = if cur.len() > 0 {
            done.push(cur)
        } else {
            done
        };
        assert forall|k: int| 0 <= k < next.len() implies (#[trigger] next[k]).len() > 0 by {
            if k < done.len() {
                assert(next[k] == done[k]);
            }
        }
        lemma_tokens_nonempty(s, i + space_width(s, i), next, Seq::empty());
        assert(tokens_from(s, i, done, cur) == tokens_from(
            s,
            i + space_width(s, i),
            next,
            Seq::empty(),
        ));
    } else {
        lemma_tokens_nonempty(s, i + 1, done, cur.push(s[i]));
        assert(tokens_from(s, i, done, cur) == tokens_from(s, i + 1, done, cur.push(s[i])));
    }
}

/// The commands of the lines of `s` from byte `start` on, numbered from
/// `line`, after the commands `acc` already parsed; or the first error.
pub open spec fn parse_from(
    s: Seq<u8>,
    start: int,
    line: int,
    acc: Seq<ReplayCommandView>,
) -> Result<Seq<ReplayCommandView>, ReplayParseErrorView>
    decreases s.len() - start,
{
    if start < 0 || start > s.len() {
        Ok(acc)
    } else {
        let end = line_end(s, start);
        match parse_line(spec_tokens(s.subrange(start, end)), line as usize) {
            Err(e) => Err(e),
            Ok(parsed) => {
                let next = match parsed {
                    Some(command) => acc.push(command),
                    None => acc,
                };
                if end < s.len() {
                    proof {
                        lemma_line_end(s, start);
                    }
                    parse_from(s, end + 1, line + 1, next)
                } else {
                    Ok(next)
                }
            },
        }
    }
}

/// The commands of a replay script, or the first error: lines are numbered
/// from 1, and blank lines and lines starting with `#` are skipped.
pub open spec fn spec_parse_script(s: Seq<u8>) -> Result<Seq<ReplayCommandView>, ReplayParseErrorView> {
    parse_from(s, 0, 1, Seq::empty())
}

// ---------------------------------------------------------------------------
// The parser
// ---------------------------------------------------------------------------
/// The byte sequences held by a list of byte vectors.
pub open spec fn byte_views(v: Seq<Vec<u8>>) -> Seq<Seq<u8>> {
    v.map_values(|t: Vec<u8>| t@)
}

/// The views of a list of replay commands.
pub open spec fn command_views(v: Seq<ReplayCommand>) -> Seq<ReplayCommandView> {
    v.map_values(|c: ReplayCommand| c@)
}

fn space_width_at(s: &[u8], i: usize) -> (r: usize)
    requires
        i < s@.len(),
    ensures
        r == space_width(s@, i as int),
{
    let b = s[i];
    if b == 9 || b == 10 || b == 11 || b == 12 || b == 13 || b == 32 {
        return 1;
    }
    if b == 0xC2 && i + 1 < s.len() && (s[i + 1] == 0x85 || s[i + 1] == 0xA0) {
        return 2;
    }
    if s.len() >= 3 && i < s.len() - 2 {
        let b1 = s[i + 1];
        let b2 = s[i + 2];
        if (b == 0xE1 && b1 == 0x9A && b2 == 0x80) || (b == 0xE2 && b1 == 0x80 && ((0x80 <= b2
            && b2 <= 0x8A) || b2 == 0xA8 || b2 == 0xA9 || b2 == 0xAF)) || (b == 0xE2 && b1 == 0x81
            && b2 == 0x9F) || (b == 0xE3 && b1 == 0x80 && b2 == 0x80) {
            return 3;
        }
    }
    0
}

fn tokenize(s: &[u8]) -> (r: Vec<Vec<u8>>)
    ensures
        byte_views(r@) == spec_tokens(s@),
{
    let mut done: Vec<Vec<u8>> = Vec::new();
    let mut cur: Vec<u8> = Vec::new();
    let mut i: usize = 0;
    assert(byte_views(done@) =~= Seq::<Seq<u8>>::empty());
    assert(cur@ =~= Seq::<u8>::empty());
    while i < s.len()
        invariant
            i <= s@.len(),
            tokens_from(s@, i as int, byte_views(done@), cur@) == spec_tokens(s@),
        decreases s@.len() - i,
    {
        let ghost done_before = byte_views(done@);
        let ghost cur_before = cur@;
        let w = space_width_at(s, i);
        if w > 0 {
            if cur.len() > 0 {
                done.push(cur);
                cur = Vec::new();
                assert(byte_views(done@) =~= done_before.push(cur_before));
            }
            assert(cur@ =~= Seq::<u8>::empty());
            i = i + w;
        } else {
            cur.push(s[i]);
            i = i + 1;
        }
    }
    if cur.len() > 0 {
        let ghost before = done@;
        done.push(cur);
        assert(byte_views(done@) =~= byte_views(before).push(cur@));
    }
    done
}

fn find_line_end(s: &[u8], start: usize) -> (r: usize)
    requires
        start <= s@.len(),
    ensures
        r == line_end(s@, start as int),
{
    let mut i = start;
    while i < s.len() && s[i] != 10
        invariant
            start <= i <= s@.len(),
            line_end(s@, start as int) == line_end(s@, i as int),
        decreases s@.len() - i,
    {
        i = i + 1;
    }
    i
}

fn digit_of(b: u8, radix: u32) -> (r: Option<u32>)
    requires
        radix <= 36,
    ensures
        match digit_value(b, radix as nat) {
            Some(d) => r == Some(d as u32),
            None => r is None,
        },
{
    let d: u32 = if 48 <= b && b <= 57 {
        (b - 48) as u32
    } else if 97 <= b && b <= 122 {
        (b - 87) as u32
    } else if 65 <= b && b <= 90 {
        (b - 55) as u32
    } else {
        36
    };
    if d < radix {
        Some(d)
    } else {
        None
    }
}

fn parse_number(s: &[u8], radix: u32, max: u32) -> (r: Result<u32, IntErrorKind>)
    requires
        2 <= radix <= 36,
        max <= 65535,
    ensures
        match parse_unsigned(s@, radix as nat, max as nat) {
            Ok(v) => r == Ok::<u32, IntErrorKind>(v as u32) && v <= max,
            Err(kind) => r == Err::<u32, IntErrorKind>(kind),
        },
{
    proof {
        lemma_parse_bound(s@, radix as nat, max as nat);
    }
    if s.len() == 0 {
        return Err(IntErrorKind::Empty);
    }
    if s.len() == 1 && (s[0] == 43 || s[0] == 45) {
        return Err(IntErrorKind::InvalidDigit);
    }
    let mut i: usize = if s[0] == 43 {
        1
    } else {
        0
    };
    let ghost start = i;
    let mut value: u32 = 0;
    while i < s.len()
        invariant
            2 <= radix <= 36,
            max <= 65535,
            i <= s@.len(),
            value <= max,
            parse_unsigned(s@, radix as nat, max as nat) == digits_value(
                s@,
                i as int,
                value as nat,
                radix as nat,
                max as nat,
            ),
        decreases s@.len() - i,
    {
        let d = match digit_of(s[i], radix) {
            Some(d) => d,
            None => {
                return Err(IntErrorKind::InvalidDigit);
            },
        };
        assert(value * radix <= 65535 * 36) by (nonlinear_arith)
            requires
                value <= 65535,
                radix <= 36,
        ;
        let next = value * radix + d;
        if next > max {
            return Err(IntErrorKind::PosOverflow);
        }
        value = next;
        i = i + 1;
    }
    Ok(value)
}

fn int_error_bytes(kind: IntErrorKind) -> (r: &'static [u8])
    ensures
        r@ == int_error_text(kind),
{
    match kind {
        IntErrorKind::Empty => "cannot parse integer from empty string".as_bytes(),
        IntErrorKind::InvalidDigit => "invalid digit found in string".as_bytes(),
        IntErrorKind::PosOverflow => "number too large to fit in target type".as_bytes(),
    }
}

/// Appends `src` to `dst`.
fn append_bytes(dst: &mut Vec<u8>, src: &[u8])
    ensures
        final(dst)@ == old(dst)@ + src@,
{
    let mut i: usize = 0;
    while i < src.len()
        invariant
            i <= src@.len(),
            dst@ == old(dst)@ + src@.take(i as int),
        decreases src@.len() - i,
    {
        dst.push(src[i]);
        i = i + 1;
        assert(src@.take(i as int) =~= src@.take(i - 1).push(src@[i - 1]));
    }
    assert(src@.take(i as int) =~= src@);
}

fn hex_bytes(tokens: &Vec<Vec<u8>>, from: usize) -> (r: Result<Vec<u8>, Vec<u8>>)
    requires
        from <= tokens@.len(),
    ensures
        match hex_bytes_from(byte_views(tokens@), from as int, Seq::empty()) {
            Ok(bytes) => r matches Ok(v) && v@ == bytes,
            Err(text) => r matches Err(v) && v@ == text,
        },
{
    let mut out: Vec<u8> = Vec::new();
    let mut k = from;
    assert(out@ =~= Seq::<u8>::empty());
    while k < tokens.len()
        invariant
            from <= k <= tokens@.len(),
            hex_bytes_from(byte_views(tokens@), from as int, Seq::empty()) == hex_bytes_from(
                byte_views(tokens@),
                k as int,
                out@,
            ),
        decreases tokens@.len() - k,
    {
        let token = tokens[k].as_slice();
        assert(token@ == byte_views(tokens@)[k as int]);
        if token.len() != 2 {
            let mut text: Vec<u8> = Vec::new();
            append_bytes(&mut text, "invalid hex byte: ".as_bytes());
            append_bytes(&mut text, token);
            return Err(text);
        }
        match parse_number(token, 16, 255) {
            Err(kind) => {
                let mut text: Vec<u8> = Vec::new();
                append_bytes(&mut text, "invalid hex byte ".as_bytes());
                append_bytes(&mut text, token);
                append_bytes(&mut text, ": ".as_bytes());
                append_bytes(&mut text, int_error_bytes(kind));
                return Err(text);
            },
            Ok(value) => {
                out.push(value as u8);
            },
        }
        k = k + 1;
    }
    Ok(out)
}

fn parse_line_tokens(tokens: &Vec<Vec<u8>>, line: usize) -> (r: Result<
    Option<ReplayCommand>,
    ReplayParseError,
>)
    requires
        forall|k: int| 0 <= k < tokens@.len() ==> (#[trigger] tokens@[k])@.len() > 0,
    ensures
        match parse_line(byte_views(tokens@), line) {
            Ok(None) => r matches Ok(None),
            Ok(Some(command)) => r matches Ok(Some(c)) && c@ == command,
            Err(e) => r matches Err(x) && x@ == e,
        },
{
    let ghost t = byte_views(tokens@);
    if tokens.len() == 0 {
        return Ok(None);
    }
    let first = tokens[0].as_slice();
    assert(first@ == t[0]);
    if first.len() > 0 && first[0] == 35 {
        return Ok(None);
    }
    if bytes_equal(first, "ATTACH".as_bytes()) {
        if tokens.len() != 4 {
            return Err(ReplayParseError::InvalidAttach(line));
        }
        assert(tokens[1]@ == t[1] && tokens[2]@ == t[2] && tokens[3]@ == t[3]);
        let device_id = parse_number(tokens[1].as_slice(), 10, 255);
        let vendor_id = parse_number(tokens[2].as_slice(), 10, 65535);
        let product_id = parse_number(tokens[3].as_slice(), 10, 65535);
        match (device_id, vendor_id, product_id) {
            (Ok(device_id), Ok(vendor_id), Ok(product_id)) => {
                return Ok(
                    Some(
                        ReplayCommand::Attach {
                            device_id: device_id as u8,
                            vendor_id: vendor_id as u16,
                            product_id: product_id as u16,
                        },
                    ),
                );
            },
            _ => {
                return Err(ReplayParseError::InvalidAttach(line));
            },
        }
    }
    if bytes_equal(first, "DESCRIPTOR".as_bytes()) {
        return match hex_bytes(tokens, 1) {
            Err(text) => Err(ReplayParseError::InvalidDescriptor(line, text)),
            Ok(bytes) => if bytes.len() > REPLAY_PAYLOAD_MAX {
                Err(ReplayParseError::DescriptorTooLong(line, bytes.len()))
            } else {
                Ok(Some(ReplayCommand::Descriptor(bytes)))
            },
        };
    }
    if bytes_equal(first, "INPUT".as_bytes()) {
        if tokens.len() < 2 {
            let mut text: Vec<u8> = Vec::new();
            append_bytes(&mut text, "requires report_id".as_bytes());
            return Err(ReplayParseError::InvalidInput(line, text));
        }
        assert(tokens[1]@ == t[1]);
        let report_id = match parse_number(tokens[1].as_slice(), 16, 255) {
            Ok(report_id) => report_id,
            Err(kind) => {
                let mut text: Vec<u8> = Vec::new();
                append_bytes(&mut text, int_error_bytes(kind));
                return Err(ReplayParseError::InvalidInput(line, text));
            },
        };
        return match hex_bytes(tokens, 2) {
            Err(text) => Err(ReplayParseError::InvalidInput(line, text)),
            Ok(data) => if data.len() > REPLAY_PAYLOAD_MAX {
                Err(ReplayParseError::InputTooLong(line, data.len()))
            } else {
                Ok(Some(ReplayCommand::Input { report_id: report_id as u8, data }))
            },
        };
    }
    if bytes_equal(first, "DETACH".as_bytes()) {
        if tokens.len() != 2 {
            return Err(ReplayParseError::InvalidDetach(line));
        }
        assert(tokens[1]@ == t[1]);
        return match parse_number(tokens[1].as_slice(), 10, 255) {
            Ok(device_id) => Ok(Some(ReplayCommand::Detach(device_id as u8))),
            Err(_) => Err(ReplayParseError::InvalidDetach(line)),
        };
    }
    let mut command: Vec<u8> = Vec::new();
    append_bytes(&mut command, first);
    Err(ReplayParseError::UnknownCommand(line, command))
}

/// Parses a replay script into commands: one command per line, lines
/// numbered from 1, blank lines and `#` comments skipped, white space as
/// Unicode defines it.
pub fn parse_replay_script(script: &str) -> (r: Result<Vec<ReplayCommand>, ReplayParseError>)
    requires
        script.spec_bytes().len() < usize::MAX,
    ensures
        match spec_parse_script(script.spec_bytes()) {
            Ok(commands) => r matches Ok(v) && command_views(v@) == commands,
            Err(e) => r matches Err(x) && x@ == e,
        },
{
    let s = script.as_bytes();
    let mut commands: Vec<ReplayCommand> = Vec::new();
    let mut start: usize = 0;
    let mut line: usize = 1;
    assert(command_views(commands@) =~= Seq::<ReplayCommandView>::empty());
    loop
        invariant
            s@ == script.spec_bytes(),
            s@.len() < usize::MAX,
            start <= s@.len(),
            line <= start + 1,
            spec_parse_script(s@) == parse_from(s@, start as int, line as int, command_views(commands@)),
        decreases s@.len() - start,
    {
        let end = find_line_end(s, start);
        proof {
            lemma_line_end(s@, start as int);
        }
        let text = vstd::slice::slice_subrange(s, start, end);
        let tokens = tokenize(text);
        proof {
            lemma_tokens_nonempty(text@, 0, Seq::empty(), Seq::empty());
            assert forall|k: int| 0 <= k < tokens@.len() implies (#[trigger] tokens@[k])@.len() > 0 by {
                assert(tokens@[k]@ == byte_views(tokens@)[k]);
            }
        }
        let ghost before = command_views(commands@);
        match parse_line_tokens(&tokens, line) {
            Err(e) => {
                return Err(e);
            },
            Ok(Some(command)) => {
                let ghost view = command@;
                commands.push(command);
                assert(command_views(commands@) =~= before.push(view));
            },
            Ok(None) => {},
        }
        if end >= s.len() {
            return Ok(commands);
        }
        start = end + 1;
        line = line + 1;
    }
}

// ---------------------------------------------------------------------------
// Messages
// ---------------------------------------------------------------------------
/// The decimal digits of `n`, most significant first.
pub open spec fn spec_decimal(n: nat) -> Seq<u8>
    decreases n,
{
    if n < 10 {
        seq![(48 + n) as u8]
    } else {
        spec_decimal(n / 10).push((48 + n % 10) as u8)
    }
}

/// Appends the decimal digits of `n` to `out`.
fn push_decimal(out: &mut Vec<u8>, n: usize)
    ensures
        final(out)@ == old(out)@ + spec_decimal(n as nat),
    decreases n,
{
    if n >= 10 {
        push_decimal(out, n / 10);
    }
    out.push((48 + n % 10) as u8);
    proof {
        if n >= 10 {
            assert(final(out)@ =~= old(out)@ + spec_decimal(n as nat));
        } else {
            assert(final(out)@ =~= old(out)@ + spec_decimal(n as nat));
        }
    }
}

/// The text of a replay parse error: its line, then what went wrong.
pub open spec fn parse_error_text(e: ReplayParseErrorView) -> Seq<u8> {
    let line = match e {
        ReplayParseErrorView::InvalidAttach(line) => line,
        ReplayParseErrorView::InvalidDescriptor(line, _) => line,
        ReplayParseErrorView::DescriptorTooLong(line, _) => line,
        ReplayParseErrorView::InvalidInput(line, _) => line,
        ReplayParseErrorView::InputTooLong(line, _) => line,
        ReplayParseErrorView::InvalidDetach(line) => line,
        ReplayParseErrorView::UnknownCommand(line, _) => line,
    };
    "line ".spec_bytes() + spec_decimal(line as nat) + ": ".spec_bytes() + match e {
        ReplayParseErrorView::InvalidAttach(_) => "ATTACH requires 3 arguments".spec_bytes(),
        ReplayParseErrorView::InvalidDescriptor(_, text) => "descriptor error: ".spec_bytes() + text,
        ReplayParseErrorView::DescriptorTooLong(_, len) => "descriptor too long (".spec_bytes()
            + spec_decimal(len as nat) + " > 64)".spec_bytes(),
        ReplayParseErrorView::InvalidInput(_, text) => "input error: ".spec_bytes() + text,
        ReplayParseErrorView::InputTooLong(_, len) => "input data too long (".spec_bytes()
            + spec_decimal(len as nat) + " > 64)".spec_bytes(),
        ReplayParseErrorView::InvalidDetach(_) => "DETACH requires 1 argument".spec_bytes(),
        ReplayParseErrorView::UnknownCommand(_, text) => "unknown command ".spec_bytes() + text,
    }
}

impl ReplayParseError {
    /// The human-readable description of the error, as UTF-8 bytes.
    pub fn message(&self) -> (r: Vec<u8>)
        ensures
            r@ == parse_error_text(self@),
    {
        let mut out: Vec<u8> = Vec::new();
        append_bytes(&mut out, "line ".as_bytes());
        let line = match self {
            ReplayParseError::InvalidAttach(line) => *line,
            ReplayParseError::InvalidDescriptor(line, _) => *line,
            ReplayParseError::DescriptorTooLong(line, _) => *line,
            ReplayParseError::InvalidInput(line, _) => *line,
            ReplayParseError::InputTooLong(line, _) => *line,
            ReplayParseError::InvalidDetach(line) => *line,
            ReplayParseError::UnknownCommand(line, _) => *line,
        };
        push_decimal(&mut out, line);
        append_bytes(&mut out, ": ".as_bytes());
        match self {
            ReplayParseError::InvalidAttach(_) => {
                append_bytes(&mut out, "ATTACH requires 3 arguments".as_bytes());
            },
            ReplayParseError::InvalidDescriptor(_, text) => {
                append_bytes(&mut out, "descriptor error: ".as_bytes());
                append_bytes(&mut out, text.as_slice());
            },
            ReplayParseError::DescriptorTooLong(_, len) => {
                append_bytes(&mut out, "descriptor too long (".as_bytes());
                push_decimal(&mut out, *len);
                append_bytes(&mut out, " > 64)".as_bytes());
            },
            ReplayParseError::InvalidInput(_, text) => {
                append_bytes(&mut out, "input error: ".as_bytes());
                append_bytes(&mut out, text.as_slice());
            },
            ReplayParseError::InputTooLong(_, len) => {
                append_bytes(&mut out, "input data too long (".as_bytes());
                push_decimal(&mut out, *len);
                append_bytes(&mut out, " > 64)".as_bytes());
            },
            ReplayParseError::InvalidDetach(_) => {
                append_bytes(&mut out, "DETACH requires 1 argument".as_bytes());
            },
            ReplayParseError::UnknownCommand(_, text) => {
                append_bytes(&mut out, "unknown command ".as_bytes());
                append_bytes(&mut out, text.as_slice());
            },
        }
        out
    }
}

/// Errors of the host replay and demo drivers.
#[derive(Debug, Clone, PartialEq, Eq)]
pub enum HostToolError {
    /// Pushing console bytes failed.
    ConsolePush(FrameBufferError),
    /// Draining the runtime failed.
    Drain(EmbeddedDrainError),
    /// The replay script did not parse.
    ReplayParse(ReplayParseError),
    /// A command needed an active device and there was none.
    NoActiveDevice(&'static str),
    /// A replay command produced no work.
    ReplayNoWork,
    /// A replay command was answered by the console instead of USB.
    UnexpectedConsoleOutcome,
    /// A demo stage produced an outcome of the wrong kind.
    UnexpectedDemoOutcome(&'static str, BufferedPersonaAppPumpOutcome),
}

/// The `Debug` rendering of a frame buffer error, as UTF-8 bytes. The
/// derived rendering depends on the value alone.
pub uninterp spec fn frame_buffer_error_debug_text(e: FrameBufferError) -> Seq<u8>;

/// The `Debug` rendering of a drain error, as UTF-8 bytes. The derived
/// rendering depends on the value alone.
pub uninterp spec fn drain_error_debug_text(e: EmbeddedDrainError) -> Seq<u8>;

/// The `Debug` rendering of a step outcome, as UTF-8 bytes. The derived
/// rendering depends on the value alone.
pub uninterp spec fn outcome_debug_text(outcome: BufferedPersonaAppPumpOutcome) -> Seq<u8>;

/// `std::format!` with `{:?}`: the derived `Debug` rendering of a frame
/// buffer error, as UTF-8 bytes. Claimed: the bytes are
/// `frame_buffer_error_debug_text(e)`, a function of the value alone; the
/// text itself, whose form std leaves open, is not written out.
#[verifier::external_body]
fn frame_buffer_error_debug(e: FrameBufferError) -> (r: Vec<u8>)
    ensures
        r@ == frame_buffer_error_debug_text(e),
{
    format!("{:?}", e).into_bytes()
}

/// `std::format!` with `{:?}`: the derived `Debug` rendering of a drain
/// error, as UTF-8 bytes. Claimed: the bytes are `drain_error_debug_text(e)`,
/// a function of the value alone; the text itself is not written out.
#[verifier::external_body]
fn drain_error_debug(e: EmbeddedDrainError) -> (r: Vec<u8>)
    ensures
        r@ == drain_error_debug_text(e),
{
    format!("{:?}", e).into_bytes()
}

/// `std::format!` with `{:?}`: the derived `Debug` rendering of a step
/// outcome, as UTF-8 bytes. Claimed: the bytes are
/// `outcome_debug_text(outcome)`, a function of the value alone; the text
/// itself is not written out.
#[verifier::external_body]
fn outcome_debug(outcome: BufferedPersonaAppPumpOutcome) -> (r: Vec<u8>)
    ensures
        r@ == outcome_debug_text(outcome),
{
    format!("{:?}", outcome).into_bytes()
}

impl HostToolError {
    /// The human-readable description of the error, as UTF-8 bytes; the debug
    /// rendering of a carried value follows its fixed prefix.
    pub fn message(&self) -> (r: Vec<u8>)
        ensures
            match self {
                HostToolError::ConsolePush(e) => r@ == "console push failed: ".spec_bytes()
                    + frame_buffer_error_debug_text(*e),
                HostToolError::Drain(e) => r@ == "drain failed: ".spec_bytes() + drain_error_debug_text(
                    *e,
                ),
                HostToolError::ReplayParse(e) => r@ == "replay parse error: ".spec_bytes()
                    + parse_error_text(e@),
                HostToolError::NoActiveDevice(name) => r@ == "no active device for ".spec_bytes()
                    + name.spec_bytes(),
                HostToolError::ReplayNoWork => r@ == "replay command produced no work".spec_bytes(),
                HostToolError::UnexpectedConsoleOutcome => r@
                    == "unexpected console outcome during replay".spec_bytes(),
                HostToolError::UnexpectedDemoOutcome(stage, outcome) => r@
                    == "unexpected outcome during demo stage ".spec_bytes() + stage.spec_bytes()
                    + ": ".spec_bytes() + outcome_debug_text(*outcome),
            },
    {
        let mut out: Vec<u8> = Vec::new();
        match self {
            HostToolError::ConsolePush(e) => {
                append_bytes(&mut out, "console push failed: ".as_bytes());
                let detail = frame_buffer_error_debug(*e);
                append_bytes(&mut out, detail.as_slice());
            },
            HostToolError::Drain(e) => {
                append_bytes(&mut out, "drain failed: ".as_bytes());
                let detail = drain_error_debug(*e);
                append_bytes(&mut out, detail.as_slice());
            },
            HostToolError::ReplayParse(e) => {
                append_bytes(&mut out, "replay parse error: ".as_bytes());
                let detail = e.message();
                append_bytes(&mut out, detail.as_slice());
            },
            HostToolError::NoActiveDevice(name) => {
                append_bytes(&mut out, "no active device for ".as_bytes());
                append_bytes(&mut out, name.as_bytes());
            },
            HostToolError::ReplayNoWork => {
                append_bytes(&mut out, "replay command produced no work".as_bytes());
            },
            HostToolError::UnexpectedConsoleOutcome => {
                append_bytes(&mut out, "unexpected console outcome during replay".as_bytes());
            },
            HostToolError::UnexpectedDemoOutcome(stage, outcome) => {
                append_bytes(&mut out, "unexpected outcome during demo stage ".as_bytes());
                append_bytes(&mut out, stage.as_bytes());
                append_bytes(&mut out, ": ".as_bytes());
                let detail = outcome_debug(*outcome);
                append_bytes(&mut out, detail.as_slice());
            },
        }
        out
    }
}

// ---------------------------------------------------------------------------
// Hexadecimal rendering
// ---------------------------------------------------------------------------
/// The upper-case hexadecimal digit of `n`.
pub open spec fn hex_char(n: nat) -> char {
    if n < 10 {
        (48 + n) as char
    } else {
        (55 + n) as char
    }
}

/// Bytes as two-digit upper-case hexadecimal pairs separated by single spaces.
pub open spec fn spec_hex_text(bytes: Seq<u8>) -> Seq<char>
    decreases bytes.len(),
{
    if bytes.len() == 0 {
        Seq::empty()
    } else {
        let last = bytes.last();
        let pair = seq![hex_char((last / 16) as nat), hex_char((last % 16) as nat)];
        if bytes.len() == 1 {
            pair
        } else {
            spec_hex_text(bytes.drop_last()) + seq![' '] + pair
        }
    }
}

fn hex_digit(n: u8) -> (r: &'static str)
    requires
        n < 16,
    ensures
        r@ == seq![hex_char(n as nat)],
{
    proof {
        reveal_strlit("0");
        reveal_strlit("1");
        reveal_strlit("2");
        reveal_strlit("3");
        reveal_strlit("4");
        reveal_strlit("5");
        reveal_strlit("6");
        reveal_strlit("7");
        reveal_strlit("8");
        reveal_strlit("9");
        reveal_strlit("A");
        reveal_strlit("B");
        reveal_strlit("C");
        reveal_strlit("D");
        reveal_strlit("E");
        reveal_strlit("F");
    }
    match n {
        0 => "0",
        1 => "1",
        2 => "2",
        3 => "3",
        4 => "4",
        5 => "5",
        6 => "6",
        7 => "7",
        8 => "8",
        9 => "9",
        10 => "A",
        11 => "B",
        12 => "C",
        13 => "D",
        14 => "E",
        _ => "F",
    }
}

/// Renders bytes as upper-case hexadecimal pairs separated by single spaces.
pub fn hex_format(bytes: &[u8]) -> (r: String)
    ensures
        r@ == spec_hex_text(bytes@),
{
    let mut out = String::new();
    let mut i: usize = 0;
    assert(bytes@.take(0) =~= Seq::<u8>::empty());
    while i < bytes.len()
        invariant
            i <= bytes@.len(),
            out@ == spec_hex_text(bytes@.take(i as int)),
        decreases bytes@.len() - i,
    {
        proof {
            reveal_strlit(" ");
        }
        let ghost before = out@;
        let b = bytes[i];
        if i > 0 {
            out.append(" ");
        }
        out.append(hex_digit(b / 16));
        out.append(hex_digit(b % 16));
        let ghost pair = seq![hex_char((b / 16) as nat), hex_char((b % 16) as nat)];
        proof {
            let prefix = bytes@.take(i + 1);
            assert(prefix.drop_last() =~= bytes@.take(i as int));
            assert(prefix.last() == b);
            if i > 0 {
                assert(out@ =~= before + seq![' '] + pair);
            } else {
                assert(out@ =~= pair);
            }
        }
        i = i + 1;
    }
    assert(bytes@.take(i as int) =~= bytes@);
    out
}

// ---------------------------------------------------------------------------
// Host replay
// ---------------------------------------------------------------------------
/// The outcome of replaying a script on the host runtime.
#[derive(Debug, Clone)]
pub struct ReplayResult {
    /// How many commands were replayed.
    pub command_count: usize,
    /// The USB outcome of each command, in order.
    pub outcomes: Vec<UsbPersonaPumpOutcome>,
    /// The output persona at the end.
    pub final_persona: OutputPersona,
    /// The normalized report at the end.
    pub final_report: GenericBleGamepad16Report,
    /// The persona-encoded report at the end.
    pub final_encoded: EncodedBleInputReport,
}

/// A payload padded with zeros to the fixed event buffer.
pub open spec fn padded(bytes: Seq<u8>) -> Seq<u8> {
    bytes + zeros((64 - bytes.len()) as nat)
}

/// Whether a replay command's payload fits the fixed event buffer.
pub open spec fn payload_fits(command: ReplayCommandView) -> bool {
    match command {
        ReplayCommandView::Descriptor(bytes) => bytes.len() <= 64,
        ReplayCommandView::Input { data, .. } => data.len() <= 64,
        _ => true,
    }
}

/// Whether `event` is the USB event that `command` queues on `state`:
/// payload commands go to the active device.
pub open spec fn replay_event(state: EmbeddedRuntimeState, command: ReplayCommandView, event: UsbEvent) -> bool {
    match command {
        ReplayCommandView::Attach { device_id, vendor_id, product_id } => match event {
            UsbEvent::DeviceAttached(meta) => meta.device_id.raw_value() == device_id
                && meta.vendor_id == vendor_id && meta.product_id == product_id,
            _ => false,
        },
        ReplayCommandView::Descriptor(payload) => match event {
            UsbEvent::ReportDescriptorReceived { device_id, bytes, len } => state.app.device()
                == Some(device_id) && len == payload.len() && bytes@ == padded(payload),
            _ => false,
        },
        ReplayCommandView::Input { report_id, data } => match event {
            UsbEvent::InputReportReceived { device_id, report_id: id, bytes, len } => state.app.device()
                == Some(device_id) && id == report_id && len == data.len() && bytes@ == padded(data),
            _ => false,
        },
        ReplayCommandView::Detach(device_id) => match event {
            UsbEvent::DeviceDetached(id) => id.raw_value() == device_id,
            _ => false,
        },
    }
}

/// Whether `after` is `before` with `event` queued on the USB ingress.
pub open spec fn queued_event(before: EmbeddedRuntimeState, after: EmbeddedRuntimeState, event: UsbEvent) -> bool {
    &&& after.usb_ingress.queued() == before.usb_ingress.queued().push(event)
    &&& after.usb_ingress.polls() == before.usb_ingress.polls()
    &&& after == (EmbeddedRuntimeState { usb_ingress: after.usb_ingress, ..before })
}

/// Whether draining with up to eight steps under the owned link state may
/// take the runtime from `before` to `after` and answer `r`.
pub open spec fn drain_stage(
    before: EmbeddedRuntimeState,
    after: EmbeddedRuntimeState,
    r: Result<EmbeddedDrainSummary, EmbeddedDrainError>,
) -> bool {
    exists|
        states: Seq<EmbeddedRuntimeState>,
        outcomes: Seq<Result<BufferedPersonaAppPumpOutcome, crate::app::BufferedPersonaAppPumpError>>,
    | #[trigger] drain_result(before, after, before.ble_state, 8, states, outcomes, r)
}

/// The USB outcome a replay command reports for its drain.
pub open spec fn replay_outcome(drained: Result<EmbeddedDrainSummary, EmbeddedDrainError>) -> Result<
    UsbPersonaPumpOutcome,
    HostToolError,
> {
    match drained {
        Err(e) => Err(HostToolError::Drain(e)),
        Ok(summary) => match summary.last_non_idle_outcome {
            Some(BufferedPersonaAppPumpOutcome::Usb(outcome)) => Ok(outcome),
            Some(BufferedPersonaAppPumpOutcome::Console(_)) => Err(
                HostToolError::UnexpectedConsoleOutcome,
            ),
            _ => Err(HostToolError::ReplayNoWork),
        },
    }
}

/// Whether replaying `command` may take the runtime from `before` to `after`
/// and answer `r`: a payload command without an active device is refused;
/// otherwise its event is queued and the runtime drained.
pub open spec fn replay_step(
    before: EmbeddedRuntimeState,
    after: EmbeddedRuntimeState,
    command: ReplayCommandView,
    r: Result<UsbPersonaPumpOutcome, HostToolError>,
) -> bool {
    let needs_device = match command {
        ReplayCommandView::Descriptor(_) => true,
        ReplayCommandView::Input { .. } => true,
        _ => false,
    };
    if needs_device && before.app.device() is None {
        &&& after == before
        &&& match r {
            Err(HostToolError::NoActiveDevice(name)) => name@ == match command {
                ReplayCommandView::Descriptor(_) => "DESCRIPTOR"@,
                _ => "INPUT"@,
            },
            _ => false,
        }
    } else {
        exists|
            event: UsbEvent,
            queued: EmbeddedRuntimeState,
            drained: Result<EmbeddedDrainSummary, EmbeddedDrainError>,
        |
            #![trigger queued_event(before, queued, event), drain_stage(queued, after, drained)]
            replay_event(before, command, event) && queued_event(before, queued, event)
                && drain_stage(queued, after, drained) && r == replay_outcome(drained)
    }
}

/// Whether a replay of `commands` passed through `states`, command `i`
/// taking `states[i]` to `states[i + 1]` with outcome `outcomes[i]`, and
/// answered `r`: it starts from a fresh connected runtime, stops at the
/// first failing command, and otherwise reports the final state.
pub open spec fn replay_run(
    commands: Seq<ReplayCommandView>,
    states: Seq<EmbeddedRuntimeState>,
    outcomes: Seq<UsbPersonaPumpOutcome>,
    r: Result<ReplayResult, HostToolError>,
) -> bool {
    let last = states[outcomes.len() as int];
    &&& states.len() == outcomes.len() + 1
    &&& outcomes.len() <= commands.len()
    &&& fresh_host_state(states[0], BleConnectionState::Connected)
    &&& forall|i: int|
        0 <= i < outcomes.len() ==> replay_step(
            states[i],
            states[i + 1],
            commands[i],
            Ok(#[trigger] outcomes[i]),
        )
    &&& match r {
        Ok(result) => {
            &&& outcomes.len() == commands.len()
            &&& result.command_count == commands.len()
            &&& result.outcomes@ == outcomes
            &&& result.final_persona == last.app.persona()
            &&& result.final_report == spec_report_from(last.app.input())
            &&& result.final_encoded.wire() == last.app.current_wire()
        },
        Err(e) => outcomes.len() < commands.len() && exists|after: EmbeddedRuntimeState|
            #[trigger] replay_step(last, after, commands[outcomes.len() as int], Err(e)),
    }
}

/// Parsing keeps every command's payload within the event buffer, given
/// that the commands already parsed fit.
proof fn lemma_parse_from_fits(s: Seq<u8>, start: int, line: int, acc: Seq<ReplayCommandView>)
    requires
        forall|i: int| 0 <= i < acc.len() ==> payload_fits(#[trigger] acc[i]),
    ensures
        parse_from(s, start, line, acc) matches Ok(commands) ==> forall|i: int|
            0 <= i < commands.len() ==> payload_fits(#[trigger] commands[i]),
    decreases s.len() - start,
{
    if 0 <= start <= s.len() {
        let end = line_end(s, start);
        lemma_line_end(s, start);
        match parse_line(spec_tokens(s.subrange(start, end)), line as usize) {
            Err(_) => {},
            Ok(parsed) => {
                let next = match parsed {
                    Some(command) => acc.push(command),
                    None => acc,
                };
                assert forall|i: int| 0 <= i < next.len() implies payload_fits(#[trigger] next[i]) by {
                    if i < acc.len() {
                        assert(next[i] == acc[i]);
                    }
                }
                if end < s.len() {
                    lemma_parse_from_fits(s, end + 1, line + 1, next);
                }
            },
        }
    }
}

/// Every command a script parses to carries a payload that fits the event
/// buffer, so parsed scripts can always be replayed.
pub proof fn lemma_parsed_commands_fit(s: Seq<u8>)
    ensures
        spec_parse_script(s) matches Ok(commands) ==> forall|i: int|
            0 <= i < commands.len() ==> payload_fits(#[trigger] commands[i]),
{
    lemma_parse_from_fits(s, 0, 1, Seq::empty());
}

/// Copies a payload of at most 64 bytes into a zero-padded event buffer.
fn pad_payload(payload: &[u8]) -> (r: [u8; 64])
    requires
        payload@.len() <= 64,
    ensures
        r@ == padded(payload@),
{
    let mut fixed = [0u8; 64];
    let mut j: usize = 0;
    while j < payload.len()
        invariant
            j <= payload@.len() <= 64,
            fixed@.len() == 64,
            forall|k: int| 0 <= k < j ==> fixed@[k] == payload@[k],
            forall|k: int| j <= k < 64 ==> fixed@[k] == 0,
        decreases payload@.len() - j,
    {
        fixed[j] = payload[j];
        j = j + 1;
    }
    assert(fixed@ =~= padded(payload@));
    fixed
}

/// Queues `event` and drains the runtime with up to eight steps.
fn queue_and_drain(runtime: &mut EmbeddedRuntimeState, event: UsbEvent) -> (r: Result<
    EmbeddedDrainSummary,
    EmbeddedDrainError,
>)
    ensures
        exists|queued: EmbeddedRuntimeState|
            queued_event(*old(runtime), queued, event) && #[trigger] drain_stage(
                queued,
                *final(runtime),
                r,
            ),
{
    runtime.queue_usb_event(event);
    let ghost queued = *runtime;
    let r = runtime.drain_persona_until_idle_with_runtime_state(8);
    assert(drain_stage(queued, *runtime, r));
    r
}

/// Replays one command on the runtime.
fn replay_command(runtime: &mut EmbeddedRuntimeState, command: &ReplayCommand) -> (r: Result<
    UsbPersonaPumpOutcome,
    HostToolError,
>)
    requires
        payload_fits(command@),
    ensures
        replay_step(*old(runtime), *final(runtime), command@, r),
{
    let ghost before = *runtime;
    let event = match command {
        ReplayCommand::Attach { device_id, vendor_id, product_id } => UsbEvent::DeviceAttached(
            DeviceMeta {
                device_id: UsbDeviceId::new(*device_id),
                vendor_id: *vendor_id,
                product_id: *product_id,
            },
        ),
        ReplayCommand::Descriptor(bytes) => {
            let device_id = match runtime.active_device() {
                Some(device_id) => device_id,
                None => {
                    return Err(HostToolError::NoActiveDevice("DESCRIPTOR"));
                },
            };
            UsbEvent::ReportDescriptorReceived {
                device_id,
                bytes: pad_payload(bytes.as_slice()),
                len: bytes.len(),
            }
        },
        ReplayCommand::Input { report_id, data } => {
            let device_id = match runtime.active_device() {
                Some(device_id) => device_id,
                None => {
                    return Err(HostToolError::NoActiveDevice("INPUT"));
                },
            };
            UsbEvent::InputReportReceived {
                device_id,
                report_id: *report_id,
                bytes: pad_payload(data.as_slice()),
                len: data.len(),
            }
        },
        ReplayCommand::Detach(device_id) => UsbEvent::DeviceDetached(UsbDeviceId::new(*device_id)),
    };
    assert(replay_event(before, command@, event));
    let drained = queue_and_drain(runtime, event);
    let r = match drained {
        Err(e) => Err(HostToolError::Drain(e)),
        Ok(summary) => match summary.last_non_idle_outcome {
            Some(BufferedPersonaAppPumpOutcome::Usb(outcome)) => Ok(outcome),
            Some(BufferedPersonaAppPumpOutcome::Console(_)) => Err(
                HostToolError::UnexpectedConsoleOutcome,
            ),
            _ => Err(HostToolError::ReplayNoWork),
        },
    };
    assert(r == replay_outcome(drained));
    r
}

/// Replays parsed commands on a fresh connected host runtime: each command
/// queues its USB event and drains the runtime; the result holds each
/// command's USB outcome and the final report.
pub fn run_replay_host(commands: Vec<ReplayCommand>) -> (r: Result<ReplayResult, HostToolError>)
    requires
        forall|i: int| 0 <= i < commands@.len() ==> payload_fits(#[trigger] commands@[i]@),
    ensures
        exists|states: Seq<EmbeddedRuntimeState>, outcomes: Seq<UsbPersonaPumpOutcome>|
            #[trigger] replay_run(command_views(commands@), states, outcomes, r),
{
    let mut runtime = EmbeddedRuntimeState::new_for_host();
    runtime.set_ble_state(BleConnectionState::Connected);
    let mut outcomes: Vec<UsbPersonaPumpOutcome> = Vec::new();
    let ghost views = command_views(commands@);
    let ghost mut states: Seq<EmbeddedRuntimeState> = seq![runtime];
    let mut i: usize = 0;
    while i < commands.len()
        invariant
            i <= commands@.len(),
            views == command_views(commands@),
            forall|k: int| 0 <= k < commands@.len() ==> payload_fits(#[trigger] commands@[k]@),
            states.len() == outcomes@.len() + 1,
            outcomes@.len() == i,
            fresh_host_state(states[0], BleConnectionState::Connected),
            states[i as int] == runtime,
            forall|k: int|
                0 <= k < outcomes@.len() ==> replay_step(
                    states[k],
                    states[k + 1],
                    views[k],
                    Ok(#[trigger] outcomes@[k]),
                ),
        decreases commands@.len() - i,
    {
        let ghost before = runtime;
        assert(views[i as int] == commands@[i as int]@);
        let step = replay_command(&mut runtime, &commands[i]);
        match step {
            Ok(outcome) => {
                let ghost old_outcomes = outcomes@;
                let ghost old_states = states;
                outcomes.push(outcome);
                proof {
                    states = states.push(runtime);
                    assert forall|k: int| 0 <= k < outcomes@.len() implies replay_step(
                        states[k],
                        states[k + 1],
                        views[k],
                        Ok(#[trigger] outcomes@[k]),
                    ) by {
                        if k < old_outcomes.len() {
                            assert(outcomes@[k] == old_outcomes[k]);
                            assert(states[k] == old_states[k]);
                            assert(states[k + 1] == old_states[k + 1]);
                        }
                    }
                }
            },
            Err(e) => {
                let r = Err(e);
                assert(replay_step(before, runtime, views[i as int], Err(e)));
                assert(replay_run(views, states, outcomes@, r));
                return r;
            },
        }
        i = i + 1;
    }
    let snapshot = runtime.snapshot();
    let r = Ok(
        ReplayResult {
            command_count: commands.len(),
            outcomes,
            final_persona: snapshot.output_persona,
            final_report: snapshot.current_report,
            final_encoded: snapshot.current_encoded_report,
        },
    );
    assert(replay_run(views, states, r->Ok_0.outcomes@, r));
    r
}

// ---------------------------------------------------------------------------
// Host demo
// ---------------------------------------------------------------------------
/// The device identifier used by the host demo.
pub const DEMO_DEVICE_ID: u8 = 101;

/// The console request sent by the host demo: `GET_INFO` and a line feed.
pub const DEMO_CONSOLE_REQUEST: [u8; 9] = [71, 69, 84, 95, 73, 78, 70, 79, 10];

/// The report descriptor used by the host demo: two signed 8-bit axes, X
/// and Y, from -127 to 127.
pub const DEMO_DESCRIPTOR: [u8; 18] = [
    0x05, 0x01, 0x15, 0x81, 0x25, 0x7F, 0x75, 0x08, 0x95, 0x01, 0x09, 0x30, 0x81, 0x02, 0x09,
    0x31, 0x81, 0x02,
];

/// The input report payload used by the host demo: X = 5, Y = -10.
pub const DEMO_REPORT: [u8; 2] = [0x05, 0xF6];

/// The outcome of the host demo.
#[derive(Debug, Clone)]
pub struct HostDemoResult {
    /// The active profile at boot.
    pub boot_profile: ProfileId,
    /// The output persona at boot.
    pub boot_persona: OutputPersona,
    /// The BLE persona descriptor at boot.
    pub boot_descriptor: BlePersonaDescriptor,
    /// The encoded report at boot.
    pub boot_encoded: EncodedBleInputReport,
    /// The console outcome of the info request.
    pub console_outcome: BufferedConsoleOutcome,
    /// The console bytes queued for transmission after the info request.
    pub console_tx: Vec<u8>,
    /// The USB outcome of the attach.
    pub usb_attach_outcome: UsbPersonaPumpOutcome,
    /// The USB outcome of the descriptor.
    pub usb_descriptor_outcome: UsbPersonaPumpOutcome,
    /// The USB outcome of the input report.
    pub usb_input_outcome: UsbPersonaPumpOutcome,
    /// The normalized report at the end.
    pub final_report: GenericBleGamepad16Report,
    /// The output persona at the end.
    pub final_persona: OutputPersona,
    /// The persona-encoded report at the end.
    pub final_encoded: EncodedBleInputReport,
    /// The last published persona, if any.
    pub last_persona: Option<OutputPersona>,
    /// The last published wire report, if any.
    pub last_wire: Option<EncodedBleInputReport>,
}

/// The name of USB demo stage `k`.
pub open spec fn demo_stage_name(k: int) -> Seq<char> {
    if k == 0 {
        "attach"@
    } else if k == 1 {
        "descriptor"@
    } else {
        "input"@
    }
}

/// Whether `event` is the event of USB demo stage `k`: attach device 101
/// (vendor 1, product 2), its descriptor, then one input report.
pub open spec fn demo_event(k: int, event: UsbEvent) -> bool {
    if k == 0 {
        match event {
            UsbEvent::DeviceAttached(meta) => meta.device_id.raw_value() == DEMO_DEVICE_ID
                && meta.vendor_id == 1 && meta.product_id == 2,
            _ => false,
        }
    } else if k == 1 {
        match event {
            UsbEvent::ReportDescriptorReceived { device_id, bytes, len } => device_id.raw_value()
                == DEMO_DEVICE_ID && len == 18 && bytes@ == padded(DEMO_DESCRIPTOR@),
            _ => false,
        }
    } else {
        match event {
            UsbEvent::InputReportReceived { device_id, report_id, bytes, len } => device_id.raw_value()
                == DEMO_DEVICE_ID && report_id == 0 && len == 2 && bytes@ == padded(DEMO_REPORT@),
            _ => false,
        }
    }
}

/// The console outcome the demo takes from its drain.
pub open spec fn demo_console_outcome(
    drained: Result<EmbeddedDrainSummary, EmbeddedDrainError>,
    r: Result<BufferedConsoleOutcome, HostToolError>,
) -> bool {
    match drained {
        Err(e) => r == Err::<BufferedConsoleOutcome, HostToolError>(HostToolError::Drain(e)),
        Ok(summary) => match summary.last_non_idle_outcome {
            Some(BufferedPersonaAppPumpOutcome::Console(outcome)) => r == Ok::<
                BufferedConsoleOutcome,
                HostToolError,
            >(outcome),
            Some(other) => match r {
                Err(HostToolError::UnexpectedDemoOutcome(name, outcome)) => name@ == "console"@
                    && outcome == other,
                _ => false,
            },
            None => r == Err::<BufferedConsoleOutcome, HostToolError>(HostToolError::ReplayNoWork),
        },
    }
}

/// The USB outcome demo stage `k` takes from its drain.
pub open spec fn demo_usb_outcome(
    drained: Result<EmbeddedDrainSummary, EmbeddedDrainError>,
    k: int,
    r: Result<UsbPersonaPumpOutcome, HostToolError>,
) -> bool {
    match drained {
        Err(e) => r == Err::<UsbPersonaPumpOutcome, HostToolError>(HostToolError::Drain(e)),
        Ok(summary) => match summary.last_non_idle_outcome {
            Some(BufferedPersonaAppPumpOutcome::Usb(outcome)) => r == Ok::<
                UsbPersonaPumpOutcome,
                HostToolError,
            >(outcome),
            Some(other) => match r {
                Err(HostToolError::UnexpectedDemoOutcome(name, outcome)) => name@
                    == demo_stage_name(k) && outcome == other,
                _ => false,
            },
            None => r == Err::<UsbPersonaPumpOutcome, HostToolError>(HostToolError::ReplayNoWork),
        },
    }
}

/// Whether USB demo stage `k` may take the runtime from `before` to `after`
/// through the drain `drained` and answer `r`.
pub open spec fn demo_usb_stage(
    before: EmbeddedRuntimeState,
    after: EmbeddedRuntimeState,
    k: int,
    drained: Result<EmbeddedDrainSummary, EmbeddedDrainError>,
    r: Result<UsbPersonaPumpOutcome, HostToolError>,
) -> bool {
    &&& exists|event: UsbEvent, queued: EmbeddedRuntimeState|
        #![trigger queued_event(before, queued, event), drain_stage(queued, after, drained)]
        demo_event(k, event) && queued_event(before, queued, event) && drain_stage(
            queued,
            after,
            drained,
        )
    &&& demo_usb_outcome(drained, k, r)
}

/// Whether the demo passed through `states` and answered `r`: from a fresh
/// connected runtime it requests the device information over the console,
/// then attaches a device, delivers its descriptor and one input report,
/// draining after each step and stopping at the first failure.
pub open spec fn demo_run(
    states: Seq<EmbeddedRuntimeState>,
    pushed: Result<(), FrameBufferError>,
    drains: Seq<Result<EmbeddedDrainSummary, EmbeddedDrainError>>,
    console: Result<BufferedConsoleOutcome, HostToolError>,
    usb: Seq<Result<UsbPersonaPumpOutcome, HostToolError>>,
    r: Result<HostDemoResult, HostToolError>,
) -> bool {
    &&& states.len() == 6
    &&& drains.len() == 4
    &&& usb.len() == 3
    &&& fresh_host_state(states[0], BleConnectionState::Connected)
    &&& push_effect(states[0].console_buffer, states[1].console_buffer, DEMO_CONSOLE_REQUEST@, pushed)
    &&& states[1] == (EmbeddedRuntimeState { console_buffer: states[1].console_buffer, ..states[0] })
    &&& match pushed {
        Err(e) => r == Err::<HostDemoResult, HostToolError>(HostToolError::ConsolePush(e)),
        Ok(()) => {
            &&& drain_stage(states[1], states[2], drains[0])
            &&& demo_console_outcome(drains[0], console)
            &&& match console {
                Err(e) => r == Err::<HostDemoResult, HostToolError>(e),
                Ok(console_outcome) => {
                    &&& demo_usb_stage(states[2], states[3], 0, drains[1], usb[0])
                    &&& match usb[0] {
                        Err(e) => r == Err::<HostDemoResult, HostToolError>(e),
                        Ok(attach) => {
                            &&& demo_usb_stage(states[3], states[4], 1, drains[2], usb[1])
                            &&& match usb[1] {
                                Err(e) => r == Err::<HostDemoResult, HostToolError>(e),
                                Ok(descriptor) => {
                                    &&& demo_usb_stage(states[4], states[5], 2, drains[3], usb[2])
                                    &&& match (usb[2], drains[3]) {
                                        (Err(e), _) => r == Err::<HostDemoResult, HostToolError>(e),
                                        (Ok(input), Ok(summary)) => match r {
                                            Ok(result) => {
                                                let boot = states[0].app;
                                                let last = summary.final_snapshot;
                                                &&& result.boot_profile == boot.profile()
                                                &&& result.boot_persona == boot.persona()
                                                &&& spec_persona_descriptor(
                                                    result.boot_descriptor,
                                                    boot.persona(),
                                                )
                                                &&& result.boot_encoded.wire() == boot.current_wire()
                                                &&& result.console_outcome == console_outcome
                                                &&& result.console_tx@
                                                    == states[2].console_buffer.tx_content()
                                                &&& result.usb_attach_outcome == attach
                                                &&& result.usb_descriptor_outcome == descriptor
                                                &&& result.usb_input_outcome == input
                                                &&& result.final_report == last.current_report
                                                &&& result.final_persona == last.output_persona
                                                &&& result.final_encoded == last.current_encoded_report
                                                &&& result.last_persona == last.last_persona
                                                &&& result.last_wire == last.last_wire
                                            },
                                            Err(_) => false,
                                        },
                                        _ => false,
                                    }
                                },
                            }
                        },
                    }
                },
            }
        },
    }
}

/// Runs USB demo stage `k` with `event`, answering the stage outcome and the drain.
fn demo_usb(
    runtime: &mut EmbeddedRuntimeState,
    event: UsbEvent,
    stage: &'static str,
    Ghost(k): Ghost<int>,
) -> (r: (Result<UsbPersonaPumpOutcome, HostToolError>, Result<EmbeddedDrainSummary, EmbeddedDrainError>))
    requires
        demo_event(k, event),
        stage@ == demo_stage_name(k),
    ensures
        demo_usb_stage(*old(runtime), *final(runtime), k, r.1, r.0),
{
    let drained = queue_and_drain(runtime, event);
    let r = match drained {
        Err(e) => Err(HostToolError::Drain(e)),
        Ok(summary) => match summary.last_non_idle_outcome {
            Some(BufferedPersonaAppPumpOutcome::Usb(outcome)) => Ok(outcome),
            Some(other) => Err(HostToolError::UnexpectedDemoOutcome(stage, other)),
            None => Err(HostToolError::ReplayNoWork),
        },
    };
    (r, drained)
}

/// Runs the host demo: on a fresh connected runtime, requests the device
/// information over the console, then attaches device 101, delivers its
/// descriptor and one input report, draining after each step.
#[verifier::rlimit(60)]
pub fn run_host_demo() -> (r: Result<HostDemoResult, HostToolError>)
    ensures
        exists|
            states: Seq<EmbeddedRuntimeState>,
            pushed: Result<(), FrameBufferError>,
            drains: Seq<Result<EmbeddedDrainSummary, EmbeddedDrainError>>,
            console: Result<BufferedConsoleOutcome, HostToolError>,
            usb: Seq<Result<UsbPersonaPumpOutcome, HostToolError>>,
        | #[trigger] demo_run(states, pushed, drains, console, usb, r),
{
    let mut runtime = EmbeddedRuntimeState::new_for_host();
    runtime.set_ble_state(BleConnectionState::Connected);
    let ghost s0 = runtime;
    let ghost none_drain: Result<EmbeddedDrainSummary, EmbeddedDrainError> = arbitrary();
    let ghost none_usb: Result<UsbPersonaPumpOutcome, HostToolError> = arbitrary();
    let ghost none_console: Result<BufferedConsoleOutcome, HostToolError> = arbitrary();
    let boot_info = runtime.boot_info();
    let request = DEMO_CONSOLE_REQUEST;
    let pushed = runtime.push_console_bytes(request.as_slice());
    let ghost s1 = runtime;
    if let Err(e) = pushed {
        let r = Err(HostToolError::ConsolePush(e));
        assert(demo_run(
            seq![s0, s1, s1, s1, s1, s1],
            pushed,
            seq![none_drain, none_drain, none_drain, none_drain],
            none_console,
            seq![none_usb, none_usb, none_usb],
            r,
        ));
        return r;
    }
    let drained = runtime.drain_persona_until_idle_with_runtime_state(8);
    let ghost s2 = runtime;
    assert(drain_stage(s1, s2, drained));
    let console = match drained {
        Err(e) => Err(HostToolError::Drain(e)),
        Ok(summary) => match summary.last_non_idle_outcome {
            Some(BufferedPersonaAppPumpOutcome::Console(outcome)) => Ok(outcome),
            Some(other) => Err(HostToolError::UnexpectedDemoOutcome("console", other)),
            None => Err(HostToolError::ReplayNoWork),
        },
    };
    proof {
        reveal_strlit("console");
    }
    let console_outcome = match console {
        Ok(outcome) => outcome,
        Err(e) => {
            let r = Err(e);
            assert(demo_run(
                seq![s0, s1, s2, s2, s2, s2],
                pushed,
                seq![drained, none_drain, none_drain, none_drain],
                console,
                seq![none_usb, none_usb, none_usb],
                r,
            ));
            return r;
        },
    };
    let mut console_tx: Vec<u8> = Vec::new();
    append_bytes(&mut console_tx, runtime.console_tx_bytes());
    let attach_event = UsbEvent::DeviceAttached(
        DeviceMeta { device_id: UsbDeviceId::new(DEMO_DEVICE_ID), vendor_id: 1, product_id: 2 },
    );
    proof {
        reveal_strlit("attach");
        reveal_strlit("descriptor");
        reveal_strlit("input");
    }
    let (attach, attach_drain) = demo_usb(&mut runtime, attach_event, "attach", Ghost(0));
    let ghost s3 = runtime;
    let usb_attach_outcome = match attach {
        Ok(outcome) => outcome,
        Err(e) => {
            let r = Err(e);
            assert(demo_run(
                seq![s0, s1, s2, s3, s3, s3],
                pushed,
                seq![drained, attach_drain, none_drain, none_drain],
                console,
                seq![attach, none_usb, none_usb],
                r,
            ));
            return r;
        },
    };
    let descriptor = DEMO_DESCRIPTOR;
    let descriptor_event = UsbEvent::ReportDescriptorReceived {
        device_id: UsbDeviceId::new(DEMO_DEVICE_ID),
        bytes: pad_payload(descriptor.as_slice()),
        len: 18,
    };
    let (stored, stored_drain) = demo_usb(&mut runtime, descriptor_event, "descriptor", Ghost(1));
    let ghost s4 = runtime;
    let usb_descriptor_outcome = match stored {
        Ok(outcome) => outcome,
        Err(e) => {
            let r = Err(e);
            assert(demo_run(
                seq![s0, s1, s2, s3, s4, s4],
                pushed,
                seq![drained, attach_drain, stored_drain, none_drain],
                console,
                seq![attach, stored, none_usb],
                r,
            ));
            return r;
        },
    };
    let report = DEMO_REPORT;
    let input_event = UsbEvent::InputReportReceived {
        device_id: UsbDeviceId::new(DEMO_DEVICE_ID),
        report_id: 0,
        bytes: pad_payload(report.as_slice()),
        len: 2,
    };
    let (applied, applied_drain) = demo_usb(&mut runtime, input_event, "input", Ghost(2));
    let ghost s5 = runtime;
    let usb_input_outcome = match applied {
        Ok(outcome) => outcome,
        Err(e) => {
            let r = Err(e);
            assert(demo_run(
                seq![s0, s1, s2, s3, s4, s5],
                pushed,
                seq![drained, attach_drain, stored_drain, applied_drain],
                console,
                seq![attach, stored, applied],
                r,
            ));
            return r;
        },
    };
    let final_snapshot = match applied_drain {
        Ok(summary) => summary.final_snapshot,
        Err(_) => {
            return Err(HostToolError::ReplayNoWork);
        },
    };
    let r = Ok(
        HostDemoResult {
            boot_profile: boot_info.active_profile,
            boot_persona: boot_info.output_persona,
            boot_descriptor: boot_info.ble_descriptor,
            boot_encoded: boot_info.initial_encoded_report,
            console_outcome,
            console_tx,
            usb_attach_outcome,
            usb_descriptor_outcome,
            usb_input_outcome,
            final_report: final_snapshot.current_report,
            final_persona: final_snapshot.output_persona,
            final_encoded: final_snapshot.current_encoded_report,
            last_persona: final_snapshot.last_persona,
            last_wire: final_snapshot.last_wire,
        },
    );
    assert(demo_run(
        seq![s0, s1, s2, s3, s4, s5],
        pushed,
        seq![drained, attach_drain, stored_drain, applied_drain],
        console,
        seq![attach, stored, applied],
        r,
    ));
    r
}

} // verus!
