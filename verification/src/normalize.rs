//! Normalized joystick state contracts shared across the workspace.
use vstd::prelude::*;
use crate::hid_decode::{DecodedFieldValue, DecodedReport};
use crate::hid_descriptor::{GenericDesktopUsage, Usage};

verus! {

/// The fixed number of buttons supported by the lean v1 normalized state.
pub const BUTTON_COUNT: usize = 16;

/// The minimum normalized axis value.
pub const AXIS_MIN: i16 = -32768;

/// The maximum normalized axis value.
pub const AXIS_MAX: i16 = 32767;

/// Identifies one of the normalized joystick axes.
#[derive(Debug, Clone, Copy, PartialEq, Eq, Structural)]
pub enum Axis {
    /// The primary X axis.
    X,
    /// The primary Y axis.
    Y,
    /// The twist axis carried as `Rz`.
    Rz,
}

/// Represents the normalized eight-way hat plus centered state.
#[derive(Debug, Clone, Copy, PartialEq, Eq, Structural)]
pub enum HatPosition {
    /// No hat direction is pressed.
    Centered,
    /// Up.
    Up,
    /// Up and right.
    UpRight,
    /// Right.
    Right,
    /// Down and right.
    DownRight,
    /// Down.
    Down,
    /// Down and left.
    DownLeft,
    /// Left.
    Left,
    /// Up and left.
    UpLeft,
}

/// A zero-based button index within the normalized v1 button range.
#[derive(Debug, Clone, Copy, PartialEq, Eq)]
pub struct ButtonIndex(u8);

/// Errors that can occur when constructing a [`ButtonIndex`].
#[derive(Debug, Clone, Copy, PartialEq, Eq, Structural)]
pub enum ButtonIndexError {
    /// The provided zero-based index is outside the supported range.
    OutOfRange {
        /// The invalid zero-based index supplied by the caller.
        index: u8,
        /// The exclusive upper bound for valid indices.
        max_exclusive: usize,
    },
}

impl ButtonIndex {
    #[verifier::type_invariant]
    spec fn in_range(self) -> bool {
        self.0 < 16
    }

    /// The zero-based index held.
    pub closed spec fn index(self) -> u8 {
        self.0
    }

    /// Creates a validated zero-based button index.
    pub fn new(index: u8) -> (r: Result<Self, ButtonIndexError>)
        ensures
            index < 16 ==> (r matches Ok(b) && b.index() == index),
            index >= 16 ==> r == Err::<Self, ButtonIndexError>(
                ButtonIndexError::OutOfRange { index, max_exclusive: 16 },
            ),
    {
        if (index as usize) < BUTTON_COUNT {
            Ok(ButtonIndex(index))
        } else {
            Err(ButtonIndexError::OutOfRange { index, max_exclusive: BUTTON_COUNT })
        }
    }

    /// Returns the zero-based button index.
    pub fn get(self) -> (r: u8)
        ensures
            r == self.index(),
            r < 16,
    {
        proof {
            use_type_invariant(&self);
        }
        self.0
    }
}

/// Compact normalized joystick state for the fixed lean v1 contract.
#[derive(Debug, Clone, Copy, PartialEq, Eq)]
pub struct NormalizedJoystickState {
    x: i16,
    y: i16,
    rz: i16,
    hat: HatPosition,
    buttons: u16,
}

/// Whether bit `i` of a 16-bit button field is set.
pub open spec fn bit_set(bits: u16, i: u16) -> bool {
    (bits >> i) & 1u16 == 1u16
}

/// The button field with bit `i` set to `pressed` and every other bit kept.
pub open spec fn with_bit(bits: u16, i: u16, pressed: bool) -> u16 {
    if pressed {
        bits | (1u16 << i)
    } else {
        bits & !(1u16 << i)
    }
}

impl NormalizedJoystickState {
    /// The value of one axis.
    pub closed spec fn axis_value(self, axis: Axis) -> i16 {
        match axis {
            Axis::X => self.x,
            Axis::Y => self.y,
            Axis::Rz => self.rz,
        }
    }

    /// The hat position.
    pub closed spec fn hat_value(self) -> HatPosition {
        self.hat
    }

    /// The 16 button bits; bit `i` is zero-based button `i`.
    pub closed spec fn button_bits(self) -> u16 {
        self.buttons
    }

    /// Whether zero-based button `i` is pressed.
    pub open spec fn pressed(self, i: u16) -> bool {
        bit_set(self.button_bits(), i)
    }

    /// The centered state: axes at zero, hat centered, no button pressed.
    pub closed spec fn centered() -> Self {
        NormalizedJoystickState { x: 0, y: 0, rz: 0, hat: HatPosition::Centered, buttons: 0 }
    }

    /// This state with one axis replaced.
    pub closed spec fn with_axis(self, axis: Axis, value: i16) -> Self {
        match axis {
            Axis::X => NormalizedJoystickState { x: value, ..self },
            Axis::Y => NormalizedJoystickState { y: value, ..self },
            Axis::Rz => NormalizedJoystickState { rz: value, ..self },
        }
    }

    /// This state with the hat replaced.
    pub closed spec fn with_hat(self, hat: HatPosition) -> Self {
        NormalizedJoystickState { hat, ..self }
    }

    /// This state with one button set or cleared.
    pub closed spec fn with_button(self, i: u16, pressed: bool) -> Self {
        NormalizedJoystickState { buttons: with_bit(self.buttons, i, pressed), ..self }
    }

    /// Two states are equal exactly when all their observations are.
    pub proof fn lemma_observations_determine_state(a: Self, b: Self)
        requires
            a.axis_value(Axis::X) == b.axis_value(Axis::X),
            a.axis_value(Axis::Y) == b.axis_value(Axis::Y),
            a.axis_value(Axis::Rz) == b.axis_value(Axis::Rz),
            a.hat_value() == b.hat_value(),
            a.button_bits() == b.button_bits(),
        ensures
            a == b,
    {
    }

    /// The centered state reads zero on every axis, a centered hat and no
    /// pressed button.
    pub proof fn lemma_centered_observations()
        ensures
            Self::centered().axis_value(Axis::X) == 0,
            Self::centered().axis_value(Axis::Y) == 0,
            Self::centered().axis_value(Axis::Rz) == 0,
            Self::centered().hat_value() == HatPosition::Centered,
            Self::centered().button_bits() == 0,
            forall|i: u16| i < 16 ==> !#[trigger] Self::centered().pressed(i),
    {
        assert forall|i: u16| i < 16 implies !#[trigger] Self::centered().pressed(i) by {
            assert((0u16 >> i) & 1u16 == 0u16) by (bit_vector);
        }
    }

    /// Writing an axis changes exactly that axis.
    pub proof fn lemma_axis_write_read(s: Self, written: Axis, read: Axis, value: i16)
        ensures
            s.with_axis(written, value).axis_value(read) == if read == written {
                value
            } else {
                s.axis_value(read)
            },
            s.with_axis(written, value).hat_value() == s.hat_value(),
            s.with_axis(written, value).button_bits() == s.button_bits(),
    {
    }

    /// Writing the hat changes only the hat.
    pub proof fn lemma_hat_write_read(s: Self, hat: HatPosition, read: Axis)
        ensures
            s.with_hat(hat).hat_value() == hat,
            s.with_hat(hat).axis_value(read) == s.axis_value(read),
            s.with_hat(hat).button_bits() == s.button_bits(),
    {
    }

    /// Setting or clearing a button changes exactly that button.
    pub proof fn lemma_button_write_read(s: Self, written: u16, read: u16, pressed: bool, axis: Axis)
        requires
            written < 16,
            read < 16,
        ensures
            s.with_button(written, pressed).pressed(read) == if read == written {
                pressed
            } else {
                s.pressed(read)
            },
            s.with_button(written, pressed).axis_value(axis) == s.axis_value(axis),
            s.with_button(written, pressed).hat_value() == s.hat_value(),
    {
        let b = s.buttons;
        if pressed {
            assert(bit_set(b | (1u16 << written), read) == if read == written {
                true
            } else {
                bit_set(b, read)
            }) by (bit_vector)
                requires
                    written < 16,
                    read < 16,
            ;
        } else {
            assert(bit_set(b & !(1u16 << written), read) == if read == written {
                false
            } else {
                bit_set(b, read)
            }) by (bit_vector)
                requires
                    written < 16,
                    read < 16,
            ;
        }
    }

    /// Returns the current value for the requested axis.
    pub fn axis(&self, axis: Axis) -> (r: i16)
        ensures
            r == self.axis_value(axis),
    {
        match axis {
            Axis::X => self.x,
            Axis::Y => self.y,
            Axis::Rz => self.rz,
        }
    }

    /// Sets the requested axis to the provided normalized value.
    pub fn set_axis(&mut self, axis: Axis, value: i16)
        ensures
            *final(self) == old(self).with_axis(axis, value),
    {
        match axis {
            Axis::X => self.x = value,
            Axis::Y => self.y = value,
            Axis::Rz => self.rz = value,
        }
    }

    /// Returns the current hat position.
    pub fn hat(&self) -> (r: HatPosition)
        ensures
            r == self.hat_value(),
    {
        self.hat
    }

    /// Sets the current hat position.
    pub fn set_hat(&mut self, hat: HatPosition)
        ensures
            *final(self) == old(self).with_hat(hat),
    {
        self.hat = hat;
    }

    /// Returns whether the requested button is currently pressed.
    pub fn button(&self, index: ButtonIndex) -> (r: bool)
        ensures
            r == self.pressed(index.index() as u16),
    {
        let i = index.get() as u16;
        let b = self.buttons;
        assert((b & (1u16 << i) != 0u16) == bit_set(b, i)) by (bit_vector)
            requires
                i < 16,
        ;
        self.buttons & (1u16 << i) != 0
    }

    /// Sets or clears the requested button bit.
    pub fn set_button(&mut self, index: ButtonIndex, pressed: bool)
        ensures
            *final(self) == old(self).with_button(index.index() as u16, pressed),
    {
        let mask = 1u16 << index.get() as u16;
        if pressed {
            self.buttons = self.buttons | mask;
        } else {
            self.buttons = self.buttons & !mask;
        }
    }

    /// Resets the full state back to the centered default.
    pub fn clear(&mut self)
        ensures
            *final(self) == Self::centered(),
    {
        *self = Self::default();
    }
}

impl Default for NormalizedJoystickState {
    fn default() -> (r: Self)
        ensures
            r == Self::centered(),
    {
        NormalizedJoystickState { x: 0, y: 0, rz: 0, hat: HatPosition::Centered, buttons: 0 }
    }
}

/// Errors that can occur while normalizing decoded HID fields.
#[derive(Debug, Clone, Copy, PartialEq, Eq, Structural)]
#[allow(inconsistent_fields)]
pub enum NormalizeError {
    /// A decoded axis value does not fit in the normalized axis range.
    AxisOutOfRange {
        /// The axis usage that failed normalization.
        usage: GenericDesktopUsage,
        /// The decoded value that was out of range.
        value: i32,
    },
    /// A decoded hat value is not supported by the lean v1 mapping.
    UnsupportedHatValue {
        /// The unsupported decoded hat value.
        value: i32,
    },
    /// A decoded button usage falls outside the supported v1 button range.
    ButtonOutOfRange {
        /// The one-based HID button usage that was out of range.
        usage: u16,
    },
}

/// The hat position of a decoded hat switch value: 0 to 7 clockwise from
/// up, and -1 or 8 for centered.
pub open spec fn spec_hat_from_value(value: i32) -> Option<HatPosition> {
    if value == -1 || value == 8 {
        Some(HatPosition::Centered)
    } else if value == 0 {
        Some(HatPosition::Up)
    } else if value == 1 {
        Some(HatPosition::UpRight)
    } else if value == 2 {
        Some(HatPosition::Right)
    } else if value == 3 {
        Some(HatPosition::DownRight)
    } else if value == 4 {
        Some(HatPosition::Down)
    } else if value == 5 {
        Some(HatPosition::DownLeft)
    } else if value == 6 {
        Some(HatPosition::Left)
    } else if value == 7 {
        Some(HatPosition::UpLeft)
    } else {
        None
    }
}

/// Storing a decoded axis value, which must fit the normalized range.
pub open spec fn spec_apply_axis(
    state: NormalizedJoystickState,
    axis: Axis,
    usage: GenericDesktopUsage,
    value: i32,
) -> Result<NormalizedJoystickState, NormalizeError> {
    if AXIS_MIN <= value <= AXIS_MAX {
        Ok(state.with_axis(axis, value as i16))
    } else {
        Err(NormalizeError::AxisOutOfRange { usage, value })
    }
}

/// The effect of one decoded field on the accumulating state: X, Y and Rz
/// set their axis, the hat switch sets the hat, buttons 1 to 16 set their
/// (zero-based) button to `value != 0`, and other usages are ignored.
pub open spec fn spec_apply_decoded_field(
    state: NormalizedJoystickState,
    field: DecodedFieldValue,
) -> Result<NormalizedJoystickState, NormalizeError> {
    match field.usage {
        Usage::GenericDesktop(GenericDesktopUsage::X) => spec_apply_axis(
            state,
            Axis::X,
            GenericDesktopUsage::X,
            field.value,
        ),
        Usage::GenericDesktop(GenericDesktopUsage::Y) => spec_apply_axis(
            state,
            Axis::Y,
            GenericDesktopUsage::Y,
            field.value,
        ),
        Usage::GenericDesktop(GenericDesktopUsage::Rz) => spec_apply_axis(
            state,
            Axis::Rz,
            GenericDesktopUsage::Rz,
            field.value,
        ),
        Usage::GenericDesktop(GenericDesktopUsage::HatSwitch) => match spec_hat_from_value(
            field.value,
        ) {
            Some(hat) => Ok(state.with_hat(hat)),
            None => Err(NormalizeError::UnsupportedHatValue { value: field.value }),
        },
        Usage::Button(id) => {
            if 1 <= id <= 16 {
                Ok(state.with_button((id - 1) as u16, field.value != 0))
            } else {
                Err(NormalizeError::ButtonOutOfRange { usage: id })
            }
        },
        _ => Ok(state),
    }
}

/// Applying the present entries in order to the centered state, or the first
/// error met.
pub open spec fn spec_normalize_entries(entries: Seq<Option<DecodedFieldValue>>) -> Result<
    NormalizedJoystickState,
    NormalizeError,
>
    decreases entries.len(),
{
    if entries.len() == 0 {
        Ok(NormalizedJoystickState::centered())
    } else {
        match spec_normalize_entries(entries.drop_last()) {
            Err(e) => Err(e),
            Ok(state) => match entries.last() {
                None => Ok(state),
                Some(field) => spec_apply_decoded_field(state, field),
            },
        }
    }
}

/// Applies one decoded HID field into the accumulating normalized state.
pub fn apply_decoded_field(state: &mut NormalizedJoystickState, field: DecodedFieldValue) -> (r:
    Result<(), NormalizeError>)
    ensures
        match spec_apply_decoded_field(*old(state), field) {
            Ok(next) => r is Ok && *final(state) == next,
            Err(e) => r == Err::<(), NormalizeError>(e) && *final(state) == *old(state),
        },
{
    match field.usage {
        Usage::GenericDesktop(GenericDesktopUsage::X) => {
            if AXIS_MIN as i32 <= field.value && field.value <= AXIS_MAX as i32 {
                state.set_axis(Axis::X, field.value as i16);
                Ok(())
            } else {
                Err(NormalizeError::AxisOutOfRange { usage: GenericDesktopUsage::X, value: field.value })
            }
        },
        Usage::GenericDesktop(GenericDesktopUsage::Y) => {
            if AXIS_MIN as i32 <= field.value && field.value <= AXIS_MAX as i32 {
                state.set_axis(Axis::Y, field.value as i16);
                Ok(())
            } else {
                Err(NormalizeError::AxisOutOfRange { usage: GenericDesktopUsage::Y, value: field.value })
            }
        },
        Usage::GenericDesktop(GenericDesktopUsage::Rz) => {
            if AXIS_MIN as i32 <= field.value && field.value <= AXIS_MAX as i32 {
                state.set_axis(Axis::Rz, field.value as i16);
                Ok(())
            } else {
                Err(NormalizeError::AxisOutOfRange { usage: GenericDesktopUsage::Rz, value: field.value })
            }
        },
        Usage::GenericDesktop(GenericDesktopUsage::HatSwitch) => {
            let hat = match field.value {
                -1 | 8 => HatPosition::Centered,
                0 => HatPosition::Up,
                1 => HatPosition::UpRight,
                2 => HatPosition::Right,
                3 => HatPosition::DownRight,
                4 => HatPosition::Down,
                5 => HatPosition::DownLeft,
                6 => HatPosition::Left,
                7 => HatPosition::UpLeft,
                value => {
                    return Err(NormalizeError::UnsupportedHatValue { value });
                },
            };
            state.set_hat(hat);
            Ok(())
        },
        Usage::Button(id) => {
            if !(1 <= id && id <= 16) {
                return Err(NormalizeError::ButtonOutOfRange { usage: id });
            }
            let index = match ButtonIndex::new((id - 1) as u8) {
                Ok(index) => index,
                Err(_) => {
                    return Err(NormalizeError::ButtonOutOfRange { usage: id });
                },
            };
            state.set_button(index, field.value != 0);
            Ok(())
        },
        _ => Ok(()),
    }
}

/// Normalizes a decoded report into the canonical lean v1 joystick state.
pub fn normalize_decoded_report(report: &DecodedReport) -> (r: Result<
    NormalizedJoystickState,
    NormalizeError,
>)
    ensures
        r == spec_normalize_entries(report.entries()),
{
    let mut state = NormalizedJoystickState::default();
    let mut index: usize = 0;
    while index < report.field_count()
        invariant
            index <= report.field_count,
            spec_normalize_entries(report.entries().take(index as int)) == Ok::<
                NormalizedJoystickState,
                NormalizeError,
            >(state),
        decreases report.field_count - index,
    {
        let ghost prefix = report.entries().take(index as int);
        assert(report.entries().take(index + 1).drop_last() =~= prefix);
        let entry = report.field(index);
        assert(report.entries().take(index + 1).last() == entry);
        index = index + 1;
        if let Some(field) = entry {
            match apply_decoded_field(&mut state, field) {
                Ok(()) => {},
                Err(e) => {
                    proof {
                        lemma_normalize_error_persists(
                            report.entries(),
                            index as int,
                            report.entries().len() as int,
                        );
                        assert(report.entries().take(report.entries().len() as int)
                            =~= report.entries());
                    }
                    return Err(e);
                },
            }
        }
    }
    assert(report.entries().take(index as int) =~= report.entries());
    Ok(state)
}

/// A hat switch reports its direction as a count of 45-degree steps
/// clockwise from up: 0 up, 1 up-right, 2 right, 3 down-right, 4 down,
/// 5 down-left, 6 left, 7 up-left; -1 and 8 mean released. Any other value is
/// refused. Applying such a field moves only the hat, and a report made of
/// that one field normalizes to the centered state with that hat.
pub proof fn lemma_hat_switch_directions(state: NormalizedJoystickState, value: i32)
    ensures
        ({
            let field = DecodedFieldValue {
                usage: Usage::GenericDesktop(GenericDesktopUsage::HatSwitch),
                value,
            };
            let direction = match value {
                0i32 => Some(HatPosition::Up),
                1i32 => Some(HatPosition::UpRight),
                2i32 => Some(HatPosition::Right),
                3i32 => Some(HatPosition::DownRight),
                4i32 => Some(HatPosition::Down),
                5i32 => Some(HatPosition::DownLeft),
                6i32 => Some(HatPosition::Left),
                7i32 => Some(HatPosition::UpLeft),
                -1i32 | 8i32 => Some(HatPosition::Centered),
                _ => None,
            };
            &&& direction matches Some(hat) ==> spec_apply_decoded_field(state, field) == Ok::<
                NormalizedJoystickState,
                NormalizeError,
            >(state.with_hat(hat))
            &&& direction matches Some(hat) ==> spec_normalize_entries(seq![Some(field)]) == Ok::<
                NormalizedJoystickState,
                NormalizeError,
            >(NormalizedJoystickState::centered().with_hat(hat))
            &&& direction is None ==> spec_apply_decoded_field(state, field) == Err::<
                NormalizedJoystickState,
                NormalizeError,
            >(NormalizeError::UnsupportedHatValue { value })
        }),
{
    let field = DecodedFieldValue {
        usage: Usage::GenericDesktop(GenericDesktopUsage::HatSwitch),
        value,
    };
    let entries = seq![Some(field)];
    assert(entries.drop_last() =~= Seq::<Option<DecodedFieldValue>>::empty());
    assert(entries.last() == Some(field));
    assert(spec_normalize_entries(entries.drop_last()) == Ok::<
        NormalizedJoystickState,
        NormalizeError,
    >(NormalizedJoystickState::centered()));
}

/// Once normalizing a prefix of the entries fails, normalizing any longer
/// prefix fails with the same error.
proof fn lemma_normalize_error_persists(entries: Seq<Option<DecodedFieldValue>>, k: int, m: int)
    requires
        0 <= k <= m <= entries.len(),
        spec_normalize_entries(entries.take(k)) is Err,
    ensures
        spec_normalize_entries(entries.take(m)) == spec_normalize_entries(entries.take(k)),
    decreases m - k,
{
    if k < m {
        lemma_normalize_error_persists(entries, k, m - 1);
        assert(entries.take(m).drop_last() =~= entries.take(m - 1));
    }
}

} // verus!
