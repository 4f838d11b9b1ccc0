//! The free-running millisecond clock.
//!
//! A [`Timebase`] is the one counter that the timer interrupt and the main
//! loop share. It offers exactly two ways in: [`Timebase::on_tick`] for the
//! interrupt handler and [`Timebase::now`] for everybody else. The embedding
//! program keeps it in a cell that is only opened with interrupts masked, so
//! each of the two runs to completion before the other starts.

use vstd::prelude::*;
use vstd::arithmetic::mul::{lemma_mul_inequality, lemma_mul_is_distributive_add_other_way};
use crate::timer_config::TimerConfig;

verus! {

/// The counter is 32 bits wide: readings wrap at this many milliseconds.
pub open spec fn counter_modulus() -> int {
    0x1_0000_0000
}

/// Milliseconds that passed from the reading `earlier` to the reading
/// `later`, taken modulo the counter's width. This is the true distance
/// whenever less than one full counter period lies between the two
/// (see [`lemma_elapsed_between_readings`]).
pub open spec fn spec_elapsed_between(earlier: u32, later: u32) -> u32 {
    ((later - earlier) % counter_modulus()) as u32
}

/// Milliseconds that passed from the reading `earlier` to the reading
/// `later`, correct across the counter's wraparound.
#[verifier::when_used_as_spec(spec_elapsed_between)]
pub fn elapsed_between(earlier: u32, later: u32) -> (ms: u32)
    ensures
        ms == spec_elapsed_between(earlier, later),
        earlier <= later ==> ms == later - earlier,
        earlier > later ==> ms == later - earlier + counter_modulus(),
{
    later.wrapping_sub(earlier)
}

/// The model of a [`Timebase`]: how many ticks it has seen and what each is
/// worth.
pub struct TimebaseModel {
    /// Milliseconds added per tick.
    pub increment: u32,
    /// Ticks handled since the clock was started.
    pub ticks: nat,
}

impl TimebaseModel {
    /// A clock that has not ticked yet.
    pub open spec fn started(increment: u32) -> TimebaseModel {
        TimebaseModel { increment, ticks: 0 }
    }

    /// The clock after `n` further ticks.
    pub open spec fn after_ticks(self, n: nat) -> TimebaseModel {
        TimebaseModel { increment: self.increment, ticks: self.ticks + n }
    }

    /// The clock after one further tick.
    pub open spec fn tick(self) -> TimebaseModel {
        self.after_ticks(1)
    }

    /// Milliseconds counted since the clock was started, without any limit of
    /// width.
    pub open spec fn elapsed_ms(self) -> nat {
        self.ticks * (self.increment as nat)
    }

    /// How often the counter has wrapped so far.
    pub open spec fn wraps(self) -> int {
        self.elapsed_ms() as int / counter_modulus()
    }

    /// What the 32-bit counter holds.
    pub open spec fn reading(self) -> u32 {
        (self.elapsed_ms() as int % counter_modulus()) as u32
    }
}

/// The shared millisecond counter.
pub struct Timebase {
    counter: u32,
    increment: u32,
    ticks: Ghost<nat>,
}

impl View for Timebase {
    type V = TimebaseModel;

    closed spec fn view(&self) -> TimebaseModel {
        TimebaseModel { increment: self.increment, ticks: self.ticks@ }
    }
}

impl Timebase {
    #[verifier::type_invariant]
    spec fn counter_is_reading(&self) -> bool {
        self.counter == self@.reading()
    }

    /// Starts the clock at zero for the tick that `config` describes. Call it
    /// once, before interrupts are enabled.
    pub fn init(config: &TimerConfig) -> (timebase: Timebase)
        ensures
            timebase@ == TimebaseModel::started(config@.interval_ms() as u32),
            timebase@.increment >= 1,
    {
        let increment: u32 = config.increment_ms();
        Timebase { counter: 0, increment, ticks: Ghost(0) }
    }

    /// Handles one timer tick: adds the per-tick increment to the counter,
    /// wrapping at the counter's width. For the interrupt handler only.
    pub fn on_tick(&mut self)
        ensures
            final(self)@ == old(self)@.tick(),
    {
        proof {
            use_type_invariant(&*self);
            lemma_tick_adds_increment(self@);
        }
        let counter: u32 = self.counter.wrapping_add(self.increment);
        *self = Timebase { counter, increment: self.increment, ticks: Ghost(self.ticks@ + 1) };
    }

    /// Reads the counter: the milliseconds counted so far, modulo the
    /// counter's width. Until the first wraparound that is the tick count
    /// times the increment, exactly.
    pub fn now(&self) -> (ms: u32)
        ensures
            ms == self@.reading(),
            self@.elapsed_ms() <= u32::MAX ==> ms == self@.ticks * self@.increment,
    {
        proof {
            use_type_invariant(self);
        }
        self.counter
    }

    /// Milliseconds added per tick.
    pub fn increment(&self) -> (ms: u32)
        ensures
            ms == self@.increment,
    {
        self.increment
    }
}

/// One tick moves the reading on by the increment, wrapping at the counter's
/// width.
pub proof fn lemma_tick_adds_increment(clock: TimebaseModel)
    ensures
        clock.tick().elapsed_ms() == clock.elapsed_ms() + clock.increment,
        clock.tick().reading() == vstd::wrapping::u32_specs::wrapping_add(clock.reading(), clock.increment),
        clock.tick().reading() == (clock.reading() + clock.increment) % counter_modulus(),
{
    lemma_mul_is_distributive_add_other_way(clock.increment as int, clock.ticks as int, 1);
}

/// Tick accuracy: a clock started at zero has counted, after exactly `n`
/// ticks, `n` times the increment; the counter holds that number modulo its
/// width, and the number itself until the first wraparound.
pub proof fn lemma_tick_accuracy(increment: u32, n: nat)
    ensures
        TimebaseModel::started(increment).after_ticks(n).elapsed_ms() == n * increment,
        TimebaseModel::started(increment).after_ticks(n).reading() == (n * increment) % counter_modulus(),
        n * increment <= u32::MAX ==> TimebaseModel::started(increment).after_ticks(n).reading() == n
            * increment,
{
}

/// Until the counter first wraps, it holds the milliseconds counted.
pub proof fn lemma_reading_before_first_wrap(clock: TimebaseModel)
    ensures
        clock.elapsed_ms() <= u32::MAX ==> clock.reading() == clock.elapsed_ms() && clock.wraps() == 0,
{
}

/// Monotonicity: of two readings, the later one is at least the earlier one
/// unless the counter wrapped in between; and the count of wraparounds never
/// goes down. The one point where a reading falls is the wraparound at
/// [`counter_modulus`] milliseconds.
pub proof fn lemma_readings_monotonic(clock: TimebaseModel, n: nat)
    ensures
        clock.elapsed_ms() <= clock.after_ticks(n).elapsed_ms(),
        clock.wraps() <= clock.after_ticks(n).wraps(),
        clock.wraps() == clock.after_ticks(n).wraps() ==> clock.reading() <= clock.after_ticks(n).reading(),
        clock.after_ticks(n).elapsed_ms() <= u32::MAX ==> clock.reading() <= clock.after_ticks(n).reading(),
{
    lemma_mul_inequality(clock.ticks as int, (clock.ticks + n) as int, clock.increment as int);
}

/// The distance between two readings is the time that passed between them,
/// wraparound or not, as long as that time fits the counter.
pub proof fn lemma_elapsed_between_readings(clock: TimebaseModel, n: nat)
    requires
        n * clock.increment <= u32::MAX,
    ensures
        spec_elapsed_between(clock.reading(), clock.after_ticks(n).reading()) == n * clock.increment,
{
    lemma_mul_is_distributive_add_other_way(clock.increment as int, clock.ticks as int, n as int);
}

} // verus!
