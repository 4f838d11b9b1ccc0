//! Runs of samples through the debounce machine, and what holds of them.
//!
//! A trace is a sequence of samples in the order in which the main loop took
//! them. The laws below say what bounce, a long press and a release do to
//! the machine, for every trace of the shape they name.

use vstd::prelude::*;
use crate::debounce::{DebounceModel, DebounceState, DEBOUNCE_WINDOW};
use crate::timebase::spec_elapsed_between;

verus! {

/// One pass of the main loop: the clock reading and the switch level taken
/// in it.
#[derive(Clone, Copy, Debug, PartialEq, Eq, Structural)]
pub struct Sample {
    /// Clock reading, in milliseconds.
    pub time: u32,
    /// True while the switch is pressed.
    pub pressed: bool,
}

/// The switch is pressed in every sample.
pub open spec fn all_pressed(trace: Seq<Sample>) -> bool {
    forall|i: int| 0 <= i < trace.len() ==> (#[trigger] trace[i]).pressed
}

/// No sample is more than [`DEBOUNCE_WINDOW`] milliseconds later than any
/// sample before it.
pub open spec fn short_lived(trace: Seq<Sample>) -> bool {
    forall|i: int, j: int|
        0 <= i <= j < trace.len() ==> spec_elapsed_between(
            (#[trigger] trace[i]).time,
            (#[trigger] trace[j]).time,
        ) <= DEBOUNCE_WINDOW
}

impl DebounceModel {
    /// The machine after one sample.
    pub open spec fn observe(self, sample: Sample) -> DebounceModel {
        self.next(sample.pressed, sample.time)
    }

    /// The machine after the samples of `trace`, first to last.
    pub open spec fn run(self, trace: Seq<Sample>) -> DebounceModel
        decreases trace.len(),
    {
        if trace.len() == 0 {
            self
        } else {
            self.run(trace.drop_last()).observe(trace.last())
        }
    }

    /// How many samples of `trace` are accepted as presses.
    pub open spec fn toggles(self, trace: Seq<Sample>) -> nat
        decreases trace.len(),
    {
        if trace.len() == 0 {
            0
        } else {
            let before = self.run(trace.drop_last());
            let accepted: nat = if before.accepts(trace.last().pressed, trace.last().time) {
                1
            } else {
                0
            };
            self.toggles(trace.drop_last()) + accepted
        }
    }

    /// Every sample of `trace` falls into the settle window that is open in
    /// this state.
    pub open spec fn all_within_window(self, trace: Seq<Sample>) -> bool {
        forall|i: int| 0 <= i < trace.len() ==> self.window_open((#[trigger] trace[i]).time)
    }

    /// Sample `k` is the first of `trace` that falls outside the settle
    /// window that is open in this state.
    pub open spec fn first_settled_at(self, trace: Seq<Sample>, k: int) -> bool {
        &&& 0 <= k < trace.len()
        &&& !self.window_open(trace[k].time)
        &&& self.all_within_window(trace.take(k))
    }
}

impl DebounceState {
    /// Feeds the samples of `trace` to the machine, first to last, and counts
    /// the presses it accepts.
    pub fn replay(&mut self, trace: &[Sample]) -> (toggles: usize)
        ensures
            final(self)@ == old(self)@.run(trace@),
            toggles == old(self)@.toggles(trace@),
    {
        let ghost start = self@;
        let mut toggles: usize = 0;
        let mut i: usize = 0;
        while i < trace.len()
            invariant
                i <= trace.len(),
                self@ == start.run(trace@.take(i as int)),
                toggles == start.toggles(trace@.take(i as int)),
                toggles <= i,
            decreases trace.len() - i,
        {
            let sample: Sample = trace[i];
            proof {
                assert(trace@.take(i + 1).drop_last() == trace@.take(i as int));
            }
            if self.step(sample.pressed, sample.time).is_some() {
                toggles = toggles + 1;
            }
            i = i + 1;
        }
        proof {
            assert(trace@.take(trace.len() as int) == trace@);
        }
        toggles
    }
}

/// Running two traces one after the other is running their concatenation.
pub proof fn lemma_run_concat(state: DebounceModel, first: Seq<Sample>, second: Seq<Sample>)
    ensures
        state.run(first + second) == state.run(first).run(second),
        state.toggles(first + second) == state.toggles(first) + state.run(first).toggles(second),
    decreases second.len(),
{
    if second.len() > 0 {
        lemma_run_concat(state, first, second.drop_last());
        assert((first + second).drop_last() == first + second.drop_last());
    }
}

/// Every accepted press flips the latched value: after a trace the value is
/// the one before it exactly when the number of accepted presses is even.
pub proof fn lemma_each_toggle_flips(state: DebounceModel, trace: Seq<Sample>)
    ensures
        state.toggles(trace) <= trace.len(),
        state.toggles(trace) % 2 == 0 <==> state.run(trace).toggle_state == state.toggle_state,
    decreases trace.len(),
{
    if trace.len() > 0 {
        lemma_each_toggle_flips(state, trace.drop_last());
    }
}

/// Mirroring: whatever the trace, a machine whose output shows the latched
/// value still does so afterwards.
pub proof fn lemma_run_keeps_mirrored(state: DebounceModel, trace: Seq<Sample>)
    requires
        state.mirrored(),
    ensures
        state.run(trace).mirrored(),
    decreases trace.len(),
{
    if trace.len() > 0 {
        lemma_run_keeps_mirrored(state, trace.drop_last());
    }
}

/// Output mirroring: in every state that can be reached from start-up, the
/// level last driven onto the output is the latched value.
pub proof fn lemma_output_mirrors_toggle(start: u32, trace: Seq<Sample>)
    ensures
        DebounceModel::initial(start).run(trace).output_level == DebounceModel::initial(start).run(
            trace,
        ).toggle_state,
{
    lemma_run_keeps_mirrored(DebounceModel::initial(start), trace);
}

/// Debounce suppression: samples that fall into the open settle window change
/// nothing, whatever their levels.
pub proof fn lemma_window_suppresses(state: DebounceModel, trace: Seq<Sample>)
    requires
        state.all_within_window(trace),
    ensures
        state.run(trace) == state,
        state.toggles(trace) == 0,
    decreases trace.len(),
{
    if trace.len() > 0 {
        let earlier = trace.drop_last();
        lemma_window_suppresses(state, earlier);
    }
}

/// A locked-out machine ignores a switch that stays pressed.
pub proof fn lemma_locked_hold_is_inert(state: DebounceModel, trace: Seq<Sample>)
    requires
        state.lockout_active,
        all_pressed(trace),
    ensures
        state.run(trace) == state,
        state.toggles(trace) == 0,
    decreases trace.len(),
{
    if trace.len() > 0 {
        let earlier = trace.drop_last();
        lemma_locked_hold_is_inert(state, earlier);
    }
}

/// Lockout: while the switch stays pressed the machine toggles at most once,
/// however long the press lasts, and is locked out once it has toggled.
pub proof fn lemma_hold_toggles_at_most_once(state: DebounceModel, trace: Seq<Sample>)
    requires
        all_pressed(trace),
    ensures
        state.toggles(trace) <= 1,
        state.toggles(trace) == 1 ==> state.run(trace).lockout_active && !state.lockout_active,
        state.toggles(trace) == 0 ==> state.run(trace) == state,
    decreases trace.len(),
{
    if trace.len() > 0 {
        let earlier = trace.drop_last();
        lemma_hold_toggles_at_most_once(state, earlier);
    }
}

/// Lockout: a press held from an idle machine toggles exactly once, at the
/// first sample outside the settle window, however many samples follow.
pub proof fn lemma_hold_toggles_once(state: DebounceModel, trace: Seq<Sample>, k: int)
    requires
        !state.lockout_active,
        all_pressed(trace),
        state.first_settled_at(trace, k),
    ensures
        state.toggles(trace) == 1,
        state.run(trace) == state.toggled_at(trace[k].time),
{
    let settling = trace.take(k);
    let rest = trace.skip(k + 1);
    let upto = trace.take(k + 1);
    assert(upto.drop_last() == settling);
    assert(trace == upto + rest);
    lemma_window_suppresses(state, settling);
    lemma_locked_hold_is_inert(state.run(upto), rest);
    lemma_run_concat(state, upto, rest);
}

/// Debounce suppression: a trace whose samples all lie within one settle
/// window of each other toggles at most once. If it does toggle, the machine
/// ends locked out with the settle window counted from one of its samples.
pub proof fn lemma_short_trace_toggles_at_most_once(state: DebounceModel, trace: Seq<Sample>)
    requires
        short_lived(trace),
    ensures
        state.toggles(trace) <= 1,
        state.toggles(trace) == 1 ==> state.run(trace).lockout_active && exists|i: int|
            0 <= i < trace.len() && state.run(trace).last_transition_time == (#[trigger] trace[i]).time,
        state.toggles(trace) == 0 ==> state.run(trace).last_transition_time
            == state.last_transition_time && state.run(trace).toggle_state == state.toggle_state,
    decreases trace.len(),
{
    if trace.len() > 0 {
        let earlier = trace.drop_last();
        let before = state.run(earlier);
        assert(short_lived(earlier)) by {
            assert forall|i: int, j: int| 0 <= i <= j < earlier.len() implies spec_elapsed_between(
                (#[trigger] earlier[i]).time,
                (#[trigger] earlier[j]).time,
            ) <= DEBOUNCE_WINDOW by {
                assert(earlier[i] == trace[i] && earlier[j] == trace[j]);
            }
        }
        lemma_short_trace_toggles_at_most_once(state, earlier);
        if state.toggles(earlier) == 1 {
            // The window opened by that toggle is still open at the last sample.
            let i = choose|i: int|
                0 <= i < earlier.len() && before.last_transition_time == (#[trigger] earlier[i]).time;
            assert(before.window_open(trace[trace.len() - 1].time)) by {
                assert(earlier[i] == trace[i]);
            }
            assert(state.run(trace).last_transition_time == trace[i].time);
        } else if before.accepts(trace.last().pressed, trace.last().time) {
            assert(state.run(trace).last_transition_time == trace[trace.len() - 1].time);
        }
    }
}

/// Debounce suppression: bounce within one settle window followed by a
/// steady press is accepted at most once.
pub proof fn lemma_bounce_then_hold_toggles_at_most_once(
    state: DebounceModel,
    bounce: Seq<Sample>,
    hold: Seq<Sample>,
)
    requires
        short_lived(bounce),
        all_pressed(hold),
    ensures
        state.toggles(bounce + hold) <= 1,
{
    lemma_run_concat(state, bounce, hold);
    lemma_short_trace_toggles_at_most_once(state, bounce);
    if state.toggles(bounce) == 1 {
        lemma_locked_hold_is_inert(state.run(bounce), hold);
    } else {
        lemma_hold_toggles_at_most_once(state.run(bounce), hold);
    }
}

/// Debounce suppression: when the bounce falls into an open settle window
/// and a steady press follows, the one press accepted is the first steady
/// sample outside the window, and the new window is counted from that
/// sample's clock reading.
pub proof fn lemma_bounce_in_window_then_hold(
    state: DebounceModel,
    bounce: Seq<Sample>,
    hold: Seq<Sample>,
    k: int,
)
    requires
        !state.lockout_active,
        state.all_within_window(bounce),
        all_pressed(hold),
        state.first_settled_at(hold, k),
    ensures
        state.toggles(bounce + hold) == 1,
        state.run(bounce + hold) == state.toggled_at(hold[k].time),
        state.run(bounce + hold).last_transition_time == hold[k].time,
{
    lemma_run_concat(state, bounce, hold);
    lemma_window_suppresses(state, bounce);
    lemma_hold_toggles_once(state, hold, k);
}

/// Release re-arming: a press accepted at `press`, a release seen after the
/// settle window, and a second press outside that window make two toggles,
/// each flipping the latched value; the release does not restart the window.
pub proof fn lemma_release_rearms(state: DebounceModel, press: u32, release: u32, repress: u32)
    requires
        state.accepts(true, press),
        spec_elapsed_between(press, release) > DEBOUNCE_WINDOW,
        spec_elapsed_between(press, repress) > DEBOUNCE_WINDOW,
    ensures
        ({
            let pressed = state.observe(Sample { time: press, pressed: true });
            let released = pressed.observe(Sample { time: release, pressed: false });
            let repressed = released.observe(Sample { time: repress, pressed: true });
            let trace = seq![
                Sample { time: press, pressed: true },
                Sample { time: release, pressed: false },
                Sample { time: repress, pressed: true },
            ];
            &&& pressed == state.toggled_at(press)
            &&& pressed.toggle_state == !state.toggle_state
            &&& released == pressed.rearmed()
            &&& released.last_transition_time == press
            &&& repressed == pressed.toggled_at(repress)
            &&& repressed.toggle_state == !pressed.toggle_state
            &&& state.run(trace) == repressed
            &&& state.toggles(trace) == 2
        }),
{
    let first = Sample { time: press, pressed: true };
    let second = Sample { time: release, pressed: false };
    let third = Sample { time: repress, pressed: true };
    let trace = seq![first, second, third];
    let one = seq![first];
    let two = seq![first, second];
    let none = Seq::<Sample>::empty();
    assert(one.drop_last() == none);
    assert(state.run(none) == state && state.toggles(none) == 0);
    assert(two.drop_last() == one);
    assert(trace.drop_last() == two);
    assert(state.run(one) == state.observe(first));
    assert(state.toggles(one) == 1);
    assert(state.run(two) == state.observe(first).observe(second));
    assert(state.toggles(two) == 1);
}

} // verus!
