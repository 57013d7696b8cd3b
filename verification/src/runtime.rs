//! Runtime-domain contracts for lean v1 state and report rendering.
use vstd::prelude::*;
use crate::normalize::{Axis, ButtonIndex, HatPosition, NormalizedJoystickState, BUTTON_COUNT};
use crate::profile::{ProfileId, V1_PROFILE_ID};

verus! {

/// The fixed lean v1 BLE gamepad report with 16 buttons.
#[derive(Debug, Clone, Copy, PartialEq, Eq, Structural)]
pub struct GenericBleGamepad16Report {
    /// The current X axis value.
    pub x: i16,
    /// The current Y axis value.
    pub y: i16,
    /// The current Rz axis value.
    pub rz: i16,
    /// The current hat position.
    pub hat: HatPosition,
    /// The current 16-button bitfield.
    pub buttons: u16,
}

/// The report that renders a normalized state: its three axes, its hat and
/// its button bits.
pub open spec fn spec_report_from(state: NormalizedJoystickState) -> GenericBleGamepad16Report {
    GenericBleGamepad16Report {
        x: state.axis_value(Axis::X),
        y: state.axis_value(Axis::Y),
        rz: state.axis_value(Axis::Rz),
        hat: state.hat_value(),
        buttons: state.button_bits(),
    }
}

fn button_bits_from_normalized(state: NormalizedJoystickState) -> (r: u16)
    ensures
        r == state.button_bits(),
{
    let ghost bits = state.button_bits();
    let mut buttons: u16 = 0;
    let mut raw_index: usize = 0;
    assert(0u32 == (bits as u32) & !(0xFFFF_FFFFu32 << 0u32)) by (bit_vector);
    while raw_index < BUTTON_COUNT
        invariant
            raw_index <= 16,
            bits == state.button_bits(),
            buttons as u32 == (bits as u32) & !(0xFFFF_FFFFu32 << (raw_index as u32)),
        decreases 16 - raw_index,
    {
        let i = raw_index as u32;
        match ButtonIndex::new(raw_index as u8) {
            Ok(index) => {
                if state.button(index) {
                    let b = buttons;
                    assert(((b as u32) | (1u32 << i)) == (bits as u32) & !(0xFFFF_FFFFu32 << (i + 1))
                        && (b | (1u16 << (i as u16))) as u32 == ((b as u32) | (1u32 << i))) by (bit_vector)
                        requires
                            i < 16,
                            b as u32 == (bits as u32) & !(0xFFFF_FFFFu32 << i),
                            (bits >> (i as u16)) & 1u16 == 1u16,
                    ;
                    buttons = buttons | (1u16 << (raw_index as u16));
                } else {
                    let b = buttons;
                    assert((b as u32) == (bits as u32) & !(0xFFFF_FFFFu32 << (i + 1))) by (bit_vector)
                        requires
                            i < 16,
                            b as u32 == (bits as u32) & !(0xFFFF_FFFFu32 << i),
                            !((bits >> (i as u16)) & 1u16 == 1u16),
                    ;
                }
            },
            Err(_) => {},
        }
        raw_index = raw_index + 1;
    }
    let b = buttons;
    assert(b == bits) by (bit_vector)
        requires
            b as u32 == (bits as u32) & !(0xFFFF_FFFFu32 << 16u32),
    ;
    buttons
}

impl Default for GenericBleGamepad16Report {
    fn default() -> (r: Self)
        ensures
            r == (GenericBleGamepad16Report {
                x: 0,
                y: 0,
                rz: 0,
                hat: HatPosition::Centered,
                buttons: 0,
            }),
    {
        GenericBleGamepad16Report { x: 0, y: 0, rz: 0, hat: HatPosition::Centered, buttons: 0 }
    }
}

impl GenericBleGamepad16Report {
    /// Renders a fixed lean v1 report directly from normalized input.
    pub fn from_normalized(state: NormalizedJoystickState) -> (r: Self)
        ensures
            r == spec_report_from(state),
    {
        GenericBleGamepad16Report {
            x: state.axis(Axis::X),
            y: state.axis(Axis::Y),
            rz: state.axis(Axis::Rz),
            hat: state.hat(),
            buttons: button_bits_from_normalized(state),
        }
    }
}

/// The report rendered from the centered state is the all-zero, centered
/// report.
pub proof fn lemma_centered_report()
    ensures
        spec_report_from(NormalizedJoystickState::centered()) == (GenericBleGamepad16Report {
            x: 0,
            y: 0,
            rz: 0,
            hat: HatPosition::Centered,
            buttons: 0,
        }),
{
    NormalizedJoystickState::lemma_centered_observations();
}

/// The in-memory runtime state for lean v1.
#[derive(Debug, Clone, Copy, PartialEq, Eq)]
pub struct RuntimeState {
    active_profile: ProfileId,
    last_input: NormalizedJoystickState,
}

impl RuntimeState {
    /// The active profile.
    pub closed spec fn profile(self) -> ProfileId {
        self.active_profile
    }

    /// The last normalized input snapshot.
    pub closed spec fn input(self) -> NormalizedJoystickState {
        self.last_input
    }

    /// A runtime state is determined by its profile and its input.
    pub proof fn lemma_observations_determine_state(a: Self, b: Self)
        requires
            a.profile() == b.profile(),
            a.input() == b.input(),
        ensures
            a == b,
    {
    }

    /// Creates a runtime state with the requested active profile.
    pub fn new(active_profile: ProfileId) -> (r: Self)
        ensures
            r.profile() == active_profile,
            r.input() == NormalizedJoystickState::centered(),
    {
        RuntimeState { active_profile, last_input: NormalizedJoystickState::default() }
    }

    /// Returns the active profile.
    pub fn active_profile(&self) -> (r: ProfileId)
        ensures
            r == self.profile(),
    {
        self.active_profile
    }

    /// Updates the active profile.
    pub fn set_active_profile(&mut self, profile: ProfileId)
        ensures
            final(self).profile() == profile,
            final(self).input() == old(self).input(),
    {
        self.active_profile = profile;
    }

    /// Returns the last normalized input snapshot.
    pub fn last_input(&self) -> (r: NormalizedJoystickState)
        ensures
            r == self.input(),
    {
        self.last_input
    }

    /// Replaces the last normalized input snapshot.
    pub fn update_input(&mut self, state: NormalizedJoystickState)
        ensures
            final(self).input() == state,
            final(self).profile() == old(self).profile(),
    {
        self.last_input = state;
    }

    /// Clears the stored normalized input back to the default state.
    pub fn clear_input(&mut self)
        ensures
            final(self).input() == NormalizedJoystickState::centered(),
            final(self).profile() == old(self).profile(),
    {
        self.last_input = NormalizedJoystickState::default();
    }

    /// Renders the current fixed lean v1 BLE gamepad report.
    pub fn current_report(&self) -> (r: GenericBleGamepad16Report)
        ensures
            r == spec_report_from(self.input()),
    {
        GenericBleGamepad16Report::from_normalized(self.last_input)
    }
}

impl Default for RuntimeState {
    fn default() -> (r: Self)
        ensures
            r.profile() == V1_PROFILE_ID,
            r.input() == NormalizedJoystickState::centered(),
    {
        RuntimeState { active_profile: V1_PROFILE_ID, last_input: NormalizedJoystickState::default() }
    }
}

} // verus!
