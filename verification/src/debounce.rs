//! The debounce state machine.
//!
//! Once per pass of the main loop the program samples the switch and the
//! clock and calls [`DebounceState::step`]. An accepted press flips the
//! latched output and opens a settle window of [`DEBOUNCE_WINDOW`]
//! milliseconds in which nothing is evaluated, so contact bounce cannot
//! trigger again. Past the window a held switch stays locked out until it is
//! seen released, so a long press toggles once.

use vstd::prelude::*;
use crate::timebase::{
    elapsed_between, lemma_elapsed_between_readings, spec_elapsed_between, TimebaseModel,
};

verus! {

/// Settle time after an accepted press, in milliseconds.
pub const DEBOUNCE_WINDOW: u32 = 50;

/// Whether the machine will take the next press.
#[derive(Clone, Copy, Debug, PartialEq, Eq, Structural)]
pub enum Phase {
    /// A press seen outside the settle window is accepted.
    Idle,
    /// A press was accepted and the switch has not been seen released since.
    Locked,
}

/// The model of a [`DebounceState`].
pub struct DebounceModel {
    /// Clock reading at which the last press was accepted, or at which the
    /// machine was created if none has been.
    pub last_transition_time: u32,
    /// The latched logical value.
    pub toggle_state: bool,
    /// Set by an accepted press, cleared by a release seen outside the settle
    /// window.
    pub lockout_active: bool,
    /// The level last driven onto the logical output.
    pub output_level: bool,
}

impl DebounceModel {
    /// The machine as it is created at clock reading `now`: output off, not
    /// locked out, settle window counted from `now`.
    pub open spec fn initial(now: u32) -> DebounceModel {
        DebounceModel {
            last_transition_time: now,
            toggle_state: false,
            lockout_active: false,
            output_level: false,
        }
    }

    /// The output shows the latched value.
    pub open spec fn mirrored(self) -> bool {
        self.output_level == self.toggle_state
    }

    /// Idle or locked.
    pub open spec fn phase(self) -> Phase {
        if self.lockout_active {
            Phase::Locked
        } else {
            Phase::Idle
        }
    }

    /// Whether the settle window is still open at clock reading `now`: no more
    /// than [`DEBOUNCE_WINDOW`] milliseconds have passed since the last
    /// accepted press. The distance is taken modulo the counter's width.
    pub open spec fn window_open(self, now: u32) -> bool {
        spec_elapsed_between(self.last_transition_time, now) <= DEBOUNCE_WINDOW
    }

    /// Whether a sample taken at `now` is accepted as a press: the window has
    /// closed, the switch is pressed, and the machine is not locked out.
    pub open spec fn accepts(self, pressed: bool, now: u32) -> bool {
        !self.window_open(now) && pressed && !self.lockout_active
    }

    /// Whether a sample taken at `now` counts as a release: the window has
    /// closed and the switch is not pressed.
    pub open spec fn rearms(self, pressed: bool, now: u32) -> bool {
        !self.window_open(now) && !pressed
    }

    /// The machine after accepting a press at `now`.
    pub open spec fn toggled_at(self, now: u32) -> DebounceModel {
        DebounceModel {
            last_transition_time: now,
            toggle_state: !self.toggle_state,
            lockout_active: true,
            output_level: !self.toggle_state,
        }
    }

    /// The machine after seeing a release. The settle window is not restarted.
    pub open spec fn rearmed(self) -> DebounceModel {
        DebounceModel { lockout_active: false, ..self }
    }

    /// The transition rule: the machine after one sample.
    pub open spec fn next(self, pressed: bool, now: u32) -> DebounceModel {
        if self.accepts(pressed, now) {
            self.toggled_at(now)
        } else if self.rearms(pressed, now) {
            self.rearmed()
        } else {
            self
        }
    }

    /// What one sample has the caller drive onto the output: the new level if
    /// the sample is accepted as a press, nothing otherwise.
    pub open spec fn drives(self, pressed: bool, now: u32) -> Option<bool> {
        if self.accepts(pressed, now) {
            Some(!self.toggle_state)
        } else {
            None
        }
    }
}

/// The state of one debounced switch and its latched output. The main loop
/// owns it; no interrupt handler touches it.
#[derive(Clone, Copy, Debug)]
pub struct DebounceState {
    last_transition_time: u32,
    toggle_state: bool,
    lockout_active: bool,
    output_level: bool,
}

impl View for DebounceState {
    type V = DebounceModel;

    closed spec fn view(&self) -> DebounceModel {
        DebounceModel {
            last_transition_time: self.last_transition_time,
            toggle_state: self.toggle_state,
            lockout_active: self.lockout_active,
            output_level: self.output_level,
        }
    }
}

impl DebounceState {
    #[verifier::type_invariant]
    spec fn output_mirrors_toggle(&self) -> bool {
        self@.mirrored()
    }

    /// Creates the machine at start-up, with `now` the current clock reading.
    /// The output line is expected to be low.
    pub fn new(now: u32) -> (state: DebounceState)
        ensures
            state@ == DebounceModel::initial(now),
    {
        DebounceState {
            last_transition_time: now,
            toggle_state: false,
            lockout_active: false,
            output_level: false,
        }
    }

    /// Evaluates one sample: `input_state` is true while the switch is
    /// pressed, `now` is the clock reading taken in the same pass.
    ///
    /// While the settle window is open nothing changes, whatever the level.
    /// Past it, a press that is not locked out flips the latched value, is to
    /// be driven onto the output, locks out and restarts the window; a release
    /// clears the lockout and leaves the window alone; a press under lockout
    /// changes nothing. The result is the level the caller has to drive onto
    /// the output line, if any.
    pub fn step(&mut self, input_state: bool, now: u32) -> (driven: Option<bool>)
        ensures
            final(self)@ == old(self)@.next(input_state, now),
            driven == old(self)@.drives(input_state, now),
            driven is Some <==> old(self)@.accepts(input_state, now),
            driven matches Some(level) ==> level == final(self)@.toggle_state && level != old(
                self,
            )@.toggle_state,
            final(self)@.mirrored(),
    {
        proof {
            use_type_invariant(&*self);
        }
        if elapsed_between(self.last_transition_time, now) <= DEBOUNCE_WINDOW {
            None
        } else if input_state && !self.lockout_active {
            let level: bool = !self.toggle_state;
            *self = DebounceState {
                last_transition_time: now,
                toggle_state: level,
                lockout_active: true,
                output_level: level,
            };
            Some(level)
        } else if !input_state {
            *self = DebounceState {
                last_transition_time: self.last_transition_time,
                toggle_state: self.toggle_state,
                lockout_active: false,
                output_level: self.output_level,
            };
            None
        } else {
            None
        }
    }

    /// The latched logical value. It is also what the output shows.
    pub fn toggle_state(&self) -> (on: bool)
        ensures
            on == self@.toggle_state,
            on == self@.output_level,
    {
        proof {
            use_type_invariant(self);
        }
        self.toggle_state
    }

    /// The level last driven onto the logical output: always the latched
    /// value.
    pub fn output_level(&self) -> (level: bool)
        ensures
            level == self@.output_level,
            level == self@.toggle_state,
    {
        proof {
            use_type_invariant(self);
        }
        self.output_level
    }

    /// Whether a press was accepted and no release has been seen since.
    pub fn lockout_active(&self) -> (locked: bool)
        ensures
            locked == self@.lockout_active,
    {
        self.lockout_active
    }

    /// Clock reading at which the last press was accepted, or at which the
    /// machine was created if none has been.
    pub fn last_transition_time(&self) -> (at: u32)
        ensures
            at == self@.last_transition_time,
    {
        self.last_transition_time
    }

    /// Idle or locked.
    pub fn phase(&self) -> (phase: Phase)
        ensures
            phase == self@.phase(),
    {
        if self.lockout_active {
            Phase::Locked
        } else {
            Phase::Idle
        }
    }
}

/// The settle window is real time: if the last press was accepted at the
/// reading of `clock`, then `n` ticks later the window is open exactly when
/// those ticks are worth no more than [`DEBOUNCE_WINDOW`] milliseconds. This
/// holds across the counter's wraparound, for any span that fits the counter.
pub proof fn lemma_window_follows_clock(state: DebounceModel, clock: TimebaseModel, n: nat)
    requires
        state.last_transition_time == clock.reading(),
        n * clock.increment <= u32::MAX,
    ensures
        state.window_open(clock.after_ticks(n).reading()) <==> n * clock.increment <= DEBOUNCE_WINDOW,
{
    lemma_elapsed_between_readings(clock, n);
}

} // verus!
