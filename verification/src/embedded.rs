//! Embedded-facing runtime state: the coordinator together with its stores,
//! console buffer, USB ingress queue and BLE output, stepped one action at a
//! time and observed through snapshots.
use vstd::prelude::*;
use crate::app::{
    buffered_persona_app_pump_effect, spec_device_status, App,
    BufferedPersonaAppPumpError, BufferedPersonaAppPumpOutcome, UsbPersonaPumpOutcome,
};
use crate::ble_hid::{
    spec_persona_descriptor, BleConnectionState, BlePersonaDescriptor, EncodedBleInputReport,
    PersonaWireRecordingBleOutput,
};
use crate::console_uart::{push_effect, FrameBufferError, FramedConsoleBuffer};
use crate::messages::DeviceStatus;
use crate::normalize::NormalizedJoystickState;
use crate::nvs_store::{BondStore, MemoryBondStore, MemoryProfileStore, StoreError};
use crate::profile::{OutputPersona, ProfileId, V1_PROFILE_ID};
use crate::runtime::{spec_report_from, GenericBleGamepad16Report};
use crate::usb_host::{QueuedUsbIngress, UsbDeviceId, UsbEvent};

verus! {

/// Embedded-facing runtime state for deterministic host testing.
#[derive(Debug, Clone, PartialEq, Eq)]
pub struct EmbeddedRuntimeState {
    /// The core application coordinator.
    pub app: App,
    /// The in-memory profile store.
    pub profile_store: MemoryProfileStore,
    /// The in-memory bond store.
    pub bond_store: MemoryBondStore,
    /// The framed console buffer.
    pub console_buffer: FramedConsoleBuffer,
    /// The queued USB ingress source.
    pub usb_ingress: QueuedUsbIngress,
    /// The persona-wire recording BLE output sink.
    pub ble_output: PersonaWireRecordingBleOutput,
    /// The current BLE link state.
    pub ble_state: BleConnectionState,
}

/// A snapshot of the runtime state for observation and testing.
#[derive(Debug, Clone, Copy, PartialEq, Eq)]
pub struct EmbeddedRuntimeSnapshot {
    /// The active profile ID.
    pub active_profile: ProfileId,
    /// The implied output persona.
    pub output_persona: OutputPersona,
    /// The current normalized input report.
    pub current_report: GenericBleGamepad16Report,
    /// The current persona-encoded BLE report.
    pub current_encoded_report: EncodedBleInputReport,
    /// The last published output persona, if any.
    pub last_persona: Option<OutputPersona>,
    /// The last published persona-encoded wire report, if any.
    pub last_wire: Option<EncodedBleInputReport>,
    /// The BLE link state in the snapshot.
    pub ble_state: BleConnectionState,
    /// Whether bonds were present in the snapshot.
    pub bonds_present: bool,
}

/// The result of one embedded runtime step together with the updated state.
#[derive(Debug, Clone, Copy, PartialEq, Eq)]
pub struct EmbeddedStepSnapshot {
    /// The outcome of the step.
    pub outcome: Result<BufferedPersonaAppPumpOutcome, BufferedPersonaAppPumpError>,
    /// The updated runtime state snapshot after the step.
    pub runtime: EmbeddedRuntimeSnapshot,
}

/// A summary of processing actions until an idle state was reached.
#[derive(Debug, Clone, Copy, PartialEq, Eq)]
pub struct EmbeddedDrainSummary {
    /// The number of non-idle actions processed.
    pub actions_processed: usize,
    /// The last non-idle successful outcome processed.
    pub last_non_idle_outcome: Option<BufferedPersonaAppPumpOutcome>,
    /// The final runtime state snapshot.
    pub final_snapshot: EmbeddedRuntimeSnapshot,
}

/// Errors that can occur while draining the embedded runtime.
#[derive(Debug, Clone, Copy, PartialEq, Eq)]
pub enum EmbeddedDrainError {
    /// A single step failed.
    Step(BufferedPersonaAppPumpError),
    /// The maximum number of allowed steps was reached before idle.
    StepLimitReached {
        /// The step limit that was reached.
        max_steps: usize,
        /// The last observed runtime state snapshot.
        last_snapshot: EmbeddedRuntimeSnapshot,
    },
}

/// Reusable boot and contract information for the embedded runtime.
#[derive(Debug, Clone, Copy, PartialEq, Eq)]
pub struct EmbeddedBootInfo {
    /// The active profile ID at boot.
    pub active_profile: ProfileId,
    /// The implied output persona at boot.
    pub output_persona: OutputPersona,
    /// The BLE persona descriptor for the active persona.
    pub ble_descriptor: BlePersonaDescriptor,
    /// The initial encoded BLE report for the active persona.
    pub initial_encoded_report: EncodedBleInputReport,
    /// The BLE link state at boot.
    pub ble_state: BleConnectionState,
    /// Whether bonds were present at boot.
    pub bonds_present: bool,
}

/// Whether `state` is a freshly booted host runtime with link state
/// `ble_state`: v1 profile, centered input, no device, empty stores, buffers
/// and queue, and a recording output that reports idle and holds nothing.
pub open spec fn fresh_host_state(state: EmbeddedRuntimeState, ble_state: BleConnectionState) -> bool {
    &&& state.app.profile() == V1_PROFILE_ID
    &&& state.app.input() == NormalizedJoystickState::centered()
    &&& state.app.device() is None
    &&& state.app.descriptor() is None
    &&& state.profile_store.stored() is None
    &&& !state.bond_store.present()
    &&& state.console_buffer.rx_content() == Seq::<u8>::empty()
    &&& state.console_buffer.tx_content() == Seq::<u8>::empty()
    &&& state.usb_ingress.queued() == Seq::<UsbEvent>::empty()
    &&& state.usb_ingress.polls() == 0
    &&& state.ble_output.link_state() == BleConnectionState::Idle
    &&& state.ble_output.recorded_persona() is None
    &&& state.ble_output.recorded_wire() is None
    &&& state.ble_output.forced_failure() is None
    &&& state.ble_state == ble_state
}

/// Whether `snapshot` shows `state`.
pub open spec fn snapshot_of(snapshot: EmbeddedRuntimeSnapshot, state: EmbeddedRuntimeState) -> bool {
    &&& snapshot.active_profile == state.app.profile()
    &&& snapshot.output_persona == state.app.persona()
    &&& snapshot.current_report == spec_report_from(state.app.input())
    &&& snapshot.current_encoded_report.wire() == state.app.current_wire()
    &&& snapshot.last_persona == state.ble_output.recorded_persona()
    &&& snapshot.last_wire == state.ble_output.recorded_wire()
    &&& snapshot.ble_state == state.ble_state
    &&& snapshot.bonds_present == state.bond_store.present()
}

/// Whether one persona step under `ble_state` may take the runtime from
/// `before` to `after` and answer `r`: the owned link state is kept and the
/// coordinator services one buffered-console or USB action.
pub open spec fn step_effect(
    before: EmbeddedRuntimeState,
    after: EmbeddedRuntimeState,
    ble_state: BleConnectionState,
    r: Result<BufferedPersonaAppPumpOutcome, BufferedPersonaAppPumpError>,
) -> bool {
    &&& after.ble_state == before.ble_state
    &&& buffered_persona_app_pump_effect(
        before.app,
        after.app,
        before.console_buffer,
        after.console_buffer,
        before.profile_store,
        after.profile_store,
        before.bond_store,
        after.bond_store,
        ble_state,
        before.usb_ingress,
        after.usb_ingress,
        before.ble_output,
        after.ble_output,
        r,
    )
}

/// Whether a step outcome means there was nothing to do.
pub open spec fn is_idle_outcome(
    r: Result<BufferedPersonaAppPumpOutcome, BufferedPersonaAppPumpError>,
) -> bool {
    ||| r == Ok::<BufferedPersonaAppPumpOutcome, BufferedPersonaAppPumpError>(
        BufferedPersonaAppPumpOutcome::Idle,
    )
    ||| r == Ok::<BufferedPersonaAppPumpOutcome, BufferedPersonaAppPumpError>(
        BufferedPersonaAppPumpOutcome::Usb(UsbPersonaPumpOutcome::Idle),
    )
}

/// Whether a step outcome is a success that did some work.
pub open spec fn is_progress(
    r: Result<BufferedPersonaAppPumpOutcome, BufferedPersonaAppPumpError>,
) -> bool {
    r is Ok && !is_idle_outcome(r)
}

/// Whether `states` and `outcomes` record consecutive persona steps under
/// `ble_state`: step `i` goes from `states[i]` to `states[i + 1]` answering
/// `outcomes[i]`.
pub open spec fn steps_hold(
    states: Seq<EmbeddedRuntimeState>,
    outcomes: Seq<Result<BufferedPersonaAppPumpOutcome, BufferedPersonaAppPumpError>>,
    ble_state: BleConnectionState,
) -> bool {
    &&& states.len() == outcomes.len() + 1
    &&& forall|i: int|
        0 <= i < outcomes.len() ==> step_effect(
            states[i],
            states[i + 1],
            ble_state,
            #[trigger] outcomes[i],
        )
}

/// Whether every recorded outcome before index `n` did some work.
pub open spec fn progress_before(
    outcomes: Seq<Result<BufferedPersonaAppPumpOutcome, BufferedPersonaAppPumpError>>,
    n: int,
) -> bool {
    forall|i: int| 0 <= i < n ==> is_progress(#[trigger] outcomes[i])
}

/// What a drain under `ble_state` with `max_steps` owes, given the steps it
/// took from `before` to `after`: it stops at the first idle step, the first
/// failed step, or once `max_steps` steps did work (at least one step).
pub open spec fn drain_result(
    before: EmbeddedRuntimeState,
    after: EmbeddedRuntimeState,
    ble_state: BleConnectionState,
    max_steps: usize,
    states: Seq<EmbeddedRuntimeState>,
    outcomes: Seq<Result<BufferedPersonaAppPumpOutcome, BufferedPersonaAppPumpError>>,
    r: Result<EmbeddedDrainSummary, EmbeddedDrainError>,
) -> bool {
    let n = outcomes.len() as int;
    &&& steps_hold(states, outcomes, ble_state)
    &&& n >= 1
    &&& states[0] == before
    &&& states[n] == after
    &&& progress_before(outcomes, n - 1)
    &&& match r {
        Ok(summary) => {
            &&& is_idle_outcome(outcomes[n - 1])
            &&& n - 1 < max_steps || n == 1
            &&& summary.actions_processed == n - 1
            &&& summary.last_non_idle_outcome == if n >= 2 {
                Some(outcomes[n - 2]->Ok_0)
            } else {
                None
            }
            &&& snapshot_of(summary.final_snapshot, after)
        },
        Err(EmbeddedDrainError::Step(e)) => {
            &&& outcomes[n - 1] == Err::<BufferedPersonaAppPumpOutcome, BufferedPersonaAppPumpError>(e)
            &&& n - 1 < max_steps || n == 1
        },
        Err(EmbeddedDrainError::StepLimitReached { max_steps: limit, last_snapshot }) => {
            &&& limit == max_steps
            &&& is_progress(outcomes[n - 1])
            &&& n == if max_steps == 0 {
                1
            } else {
                max_steps as int
            }
            &&& snapshot_of(last_snapshot, after)
        },
    }
}

impl EmbeddedRuntimeState {
    /// Bootstraps a new embedded-facing runtime state for host testing.
    pub fn new_for_host() -> (r: Self)
        ensures
            fresh_host_state(r, BleConnectionState::Idle),
    {
        let profile_store = MemoryProfileStore::new();
        let app = App::bootstrap(&profile_store);
        let bond_store = MemoryBondStore::new();
        let console_buffer = FramedConsoleBuffer::new();
        let usb_ingress = QueuedUsbIngress::new();
        let ble_output = PersonaWireRecordingBleOutput::new(BleConnectionState::Idle);
        let ble_state = BleConnectionState::Idle;
        EmbeddedRuntimeState {
            app,
            profile_store,
            bond_store,
            console_buffer,
            usb_ingress,
            ble_output,
            ble_state,
        }
    }

    /// Returns the current BLE link state.
    pub fn ble_state(&self) -> (r: BleConnectionState)
        ensures
            r == self.ble_state,
    {
        self.ble_state
    }

    /// Updates the stored BLE link state.
    pub fn set_ble_state(&mut self, ble_state: BleConnectionState)
        ensures
            *final(self) == (EmbeddedRuntimeState { ble_state, ..*old(self) }),
    {
        self.ble_state = ble_state;
    }

    /// Returns whether any persisted bonds are present.
    pub fn bonds_present(&self) -> (r: bool)
        ensures
            r == self.bond_store.present(),
    {
        self.bond_store.bonds_present()
    }

    /// Persists whether bonds are present.
    pub fn store_bonds_present(&mut self, bonds_present: bool) -> (r: Result<(), StoreError>)
        ensures
            r is Ok,
            final(self).bond_store.present() == bonds_present,
            *final(self) == (EmbeddedRuntimeState { bond_store: final(self).bond_store, ..*old(self) }),
    {
        self.bond_store.store_bonds_present(bonds_present)
    }

    /// Returns the current typed device status for the owned state.
    pub fn device_status(&self) -> (r: DeviceStatus)
        ensures
            r == spec_device_status(self.app.profile(), self.ble_state, self.bond_store.present()),
    {
        self.app.device_status(self.ble_state, &self.bond_store)
    }

    /// Returns a snapshot of the current boot and contract information.
    pub fn boot_info(&self) -> (r: EmbeddedBootInfo)
        ensures
            r.active_profile == self.app.profile(),
            r.output_persona == self.app.persona(),
            spec_persona_descriptor(r.ble_descriptor, self.app.persona()),
            r.initial_encoded_report.wire() == self.app.current_wire(),
            r.ble_state == self.ble_state,
            r.bonds_present == self.bond_store.present(),
    {
        EmbeddedBootInfo {
            active_profile: self.app.runtime().active_profile(),
            output_persona: self.app.current_output_persona(),
            ble_descriptor: self.app.current_ble_persona_descriptor(),
            initial_encoded_report: self.app.current_encoded_ble_input_report(),
            ble_state: self.ble_state,
            bonds_present: self.bonds_present(),
        }
    }

    /// Services at most one embedded action using the persona-oriented pump.
    pub fn step_persona(&mut self, ble_state: BleConnectionState) -> (r: Result<
        BufferedPersonaAppPumpOutcome,
        BufferedPersonaAppPumpError,
    >)
        ensures
            step_effect(*old(self), *final(self), ble_state, r),
    {
        self.app.service_once_with_console_buffer_persona(
            &mut self.console_buffer,
            &mut self.profile_store,
            &mut self.bond_store,
            ble_state,
            &mut self.usb_ingress,
            &mut self.ble_output,
        )
    }

    /// Queues a USB event into the runtime ingress.
    pub fn queue_usb_event(&mut self, event: UsbEvent)
        ensures
            final(self).usb_ingress.queued() == old(self).usb_ingress.queued().push(event),
            final(self).usb_ingress.polls() == old(self).usb_ingress.polls(),
            *final(self) == (EmbeddedRuntimeState { usb_ingress: final(self).usb_ingress, ..*old(self) }),
    {
        self.usb_ingress.queue_event(event);
    }

    /// Pushes raw bytes into the framed console buffer.
    pub fn push_console_bytes(&mut self, input: &[u8]) -> (r: Result<(), FrameBufferError>)
        requires
            old(self).console_buffer.rx_content().len() + input@.len() <= usize::MAX,
        ensures
            push_effect(old(self).console_buffer, final(self).console_buffer, input@, r),
            *final(self) == (EmbeddedRuntimeState {
                console_buffer: final(self).console_buffer,
                ..*old(self)
            }),
    {
        self.console_buffer.push_rx_bytes(input)
    }

    /// Returns the current normalized input report.
    pub fn current_report(&self) -> (r: GenericBleGamepad16Report)
        ensures
            r == spec_report_from(self.app.input()),
    {
        self.app.runtime().current_report()
    }

    /// Returns the last published output persona, if any.
    pub fn last_persona(&self) -> (r: Option<OutputPersona>)
        ensures
            r == self.ble_output.recorded_persona(),
    {
        self.ble_output.last_persona()
    }

    /// Returns the last published persona-encoded wire report, if any.
    pub fn last_wire(&self) -> (r: Option<EncodedBleInputReport>)
        ensures
            r == self.ble_output.recorded_wire(),
    {
        self.ble_output.last_wire()
    }

    /// Returns a full snapshot of the current runtime state.
    pub fn snapshot(&self) -> (r: EmbeddedRuntimeSnapshot)
        ensures
            snapshot_of(r, *self),
    {
        EmbeddedRuntimeSnapshot {
            active_profile: self.app.runtime().active_profile(),
            output_persona: self.app.current_output_persona(),
            current_report: self.app.runtime().current_report(),
            current_encoded_report: self.app.current_encoded_ble_input_report(),
            last_persona: self.ble_output.last_persona(),
            last_wire: self.ble_output.last_wire(),
            ble_state: self.ble_state,
            bonds_present: self.bonds_present(),
        }
    }

    /// Services one embedded action and returns the outcome and updated state.
    pub fn step_persona_snapshot(&mut self, ble_state: BleConnectionState) -> (r: EmbeddedStepSnapshot)
        ensures
            step_effect(*old(self), *final(self), ble_state, r.outcome),
            snapshot_of(r.runtime, *final(self)),
    {
        let outcome = self.step_persona(ble_state);
        let runtime = self.snapshot();
        EmbeddedStepSnapshot { outcome, runtime }
    }

    /// Returns the currently active USB device, if any.
    pub fn active_device(&self) -> (r: Option<UsbDeviceId>)
        ensures
            r == self.app.device(),
    {
        self.app.active_device()
    }

    /// Returns the valid queued TX bytes from the console buffer.
    pub fn console_tx_bytes(&self) -> (r: &[u8])
        ensures
            r@ == self.console_buffer.tx_content(),
    {
        self.console_buffer.tx_bytes()
    }

    /// Services at most one embedded action using the owned BLE link state.
    pub fn step_persona_with_runtime_state(&mut self) -> (r: Result<
        BufferedPersonaAppPumpOutcome,
        BufferedPersonaAppPumpError,
    >)
        ensures
            step_effect(*old(self), *final(self), old(self).ble_state, r),
    {
        let ble_state = self.ble_state;
        self.step_persona(ble_state)
    }

    /// Repeatedly services the runtime using the owned BLE link state until idle.
    pub fn drain_persona_until_idle_with_runtime_state(&mut self, max_steps: usize) -> (r: Result<
        EmbeddedDrainSummary,
        EmbeddedDrainError,
    >)
        ensures
            exists|
                states: Seq<EmbeddedRuntimeState>,
                outcomes: Seq<Result<BufferedPersonaAppPumpOutcome, BufferedPersonaAppPumpError>>,
            |
                #[trigger] drain_result(
                    *old(self),
                    *final(self),
                    old(self).ble_state,
                    max_steps,
                    states,
                    outcomes,
                    r,
                ),
    {
        let ble_state = self.ble_state;
        self.drain_persona_until_idle(ble_state, max_steps)
    }

    /// Repeatedly services the runtime until an idle state or step limit is reached.
    pub fn drain_persona_until_idle(&mut self, ble_state: BleConnectionState, max_steps: usize) -> (r:
        Result<EmbeddedDrainSummary, EmbeddedDrainError>)
        ensures
            exists|
                states: Seq<EmbeddedRuntimeState>,
                outcomes: Seq<Result<BufferedPersonaAppPumpOutcome, BufferedPersonaAppPumpError>>,
            |
                #[trigger] drain_result(
                    *old(self),
                    *final(self),
                    ble_state,
                    max_steps,
                    states,
                    outcomes,
                    r,
                ),
    {
        let mut actions_processed: usize = 0;
        let mut last_non_idle_outcome: Option<BufferedPersonaAppPumpOutcome> = None;
        let ghost mut states: Seq<EmbeddedRuntimeState> = seq![*self];
        let ghost mut outcomes: Seq<
            Result<BufferedPersonaAppPumpOutcome, BufferedPersonaAppPumpError>,
        > = Seq::empty();
        loop
            invariant
                steps_hold(states, outcomes, ble_state),
                states[0] == *old(self),
                states[outcomes.len() as int] == *self,
                progress_before(outcomes, outcomes.len() as int),
                actions_processed == outcomes.len(),
                actions_processed < max_steps || actions_processed == 0,
                last_non_idle_outcome == if outcomes.len() >= 1 {
                    Some(outcomes[outcomes.len() - 1]->Ok_0)
                } else {
                    None
                },
            decreases max_steps - actions_processed,
        {
            let ghost prev = *self;
            let snapshot = self.step_persona_snapshot(ble_state);
            proof {
                let ghost next_states = states.push(*self);
                let ghost next_outcomes = outcomes.push(snapshot.outcome);
                assert forall|i: int| 0 <= i < next_outcomes.len() implies step_effect(
                    next_states[i],
                    next_states[i + 1],
                    ble_state,
                    #[trigger] next_outcomes[i],
                ) by {
                    if i < outcomes.len() {
                        assert(next_outcomes[i] == outcomes[i]);
                        assert(next_states[i] == states[i]);
                        assert(next_states[i + 1] == states[i + 1]);
                    }
                }
                states = next_states;
                outcomes = next_outcomes;
            }
            match snapshot.outcome {
                Ok(BufferedPersonaAppPumpOutcome::Idle) | Ok(
                    BufferedPersonaAppPumpOutcome::Usb(UsbPersonaPumpOutcome::Idle),
                ) => {
                    let summary = EmbeddedDrainSummary {
                        actions_processed,
                        last_non_idle_outcome,
                        final_snapshot: snapshot.runtime,
                    };
                    let r = Ok(summary);
                    assert(drain_result(*old(self), *self, ble_state, max_steps, states, outcomes, r));
                    return r;
                },
                Ok(outcome) => {
                    actions_processed = actions_processed + 1;
                    last_non_idle_outcome = Some(outcome);
                },
                Err(error) => {
                    let r = Err(EmbeddedDrainError::Step(error));
                    assert(drain_result(*old(self), *self, ble_state, max_steps, states, outcomes, r));
                    return r;
                },
            }
            if actions_processed >= max_steps {
                let last_snapshot = self.snapshot();
                let r = Err(EmbeddedDrainError::StepLimitReached { max_steps, last_snapshot });
                assert(drain_result(*old(self), *self, ble_state, max_steps, states, outcomes, r));
                return r;
            }
        }
    }
}

} // verus!
