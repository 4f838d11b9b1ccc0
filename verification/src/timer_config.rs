//! Timer configuration: which clock divider and compare count produce the tick,
//! and how many milliseconds each tick is worth.

use vstd::prelude::*;
use vstd::arithmetic::div_mod::lemma_fundamental_div_mod;

verus! {

/// Clock of the board the defaults are chosen for, in hertz.
pub const CPU_CLOCK_HZ: u32 = 16_000_000;

/// The clock dividers the 8-bit timer can select.
#[derive(Clone, Copy, Debug, PartialEq, Eq, Structural)]
pub enum Prescaler {
    Div8,
    Div64,
    Div256,
    Div1024,
}

impl Prescaler {
    /// The number of CPU cycles per timer count.
    pub open spec fn spec_divider(self) -> u32 {
        match self {
            Prescaler::Div8 => 8,
            Prescaler::Div64 => 64,
            Prescaler::Div256 => 256,
            Prescaler::Div1024 => 1024,
        }
    }

    /// Whether the timer has a divider of this value.
    pub open spec fn supported(divider: u32) -> bool {
        divider == 8 || divider == 64 || divider == 256 || divider == 1024
    }

    /// The number of CPU cycles per timer count.
    #[verifier::when_used_as_spec(spec_divider)]
    pub fn divider(self) -> (d: u32)
        ensures
            d == self.spec_divider(),
            Self::supported(d),
    {
        match self {
            Prescaler::Div8 => 8,
            Prescaler::Div64 => 64,
            Prescaler::Div256 => 256,
            Prescaler::Div1024 => 1024,
        }
    }

    /// Selects the prescaler with the given divider. The timer offers exactly
    /// four; any other value has no prescaler.
    pub fn from_divider(divider: u32) -> (r: Option<Prescaler>)
        ensures
            r is Some <==> Self::supported(divider),
            r matches Some(p) ==> p.divider() == divider,
    {
        if divider == 8 {
            Some(Prescaler::Div8)
        } else if divider == 64 {
            Some(Prescaler::Div64)
        } else if divider == 256 {
            Some(Prescaler::Div256)
        } else if divider == 1024 {
            Some(Prescaler::Div1024)
        } else {
            None
        }
    }
}

/// What a timer configuration fixes: the model of a [`TimerConfig`].
pub struct TimerParams {
    pub prescaler: Prescaler,
    pub compare_count: u8,
    pub cpu_clock_hz: u32,
}

impl TimerParams {
    /// CPU cycles between two compare matches.
    pub open spec fn cycles_per_tick(self) -> int {
        self.prescaler.spec_divider() * self.compare_count
    }

    /// The tick interval in whole milliseconds, rounded down.
    pub open spec fn interval_ms(self) -> int {
        (self.cycles_per_tick() * 1000) / (self.cpu_clock_hz as int)
    }

    /// Whether rounding down lost nothing: the tick lasts a whole number of
    /// milliseconds.
    pub open spec fn exact(self) -> bool {
        (self.cycles_per_tick() * 1000) % (self.cpu_clock_hz as int) == 0
    }

    /// A configuration is achievable when the clock runs and a tick is worth
    /// at least one millisecond; a shorter tick would never advance a
    /// millisecond counter.
    pub open spec fn achievable(self) -> bool {
        self.cpu_clock_hz > 0 && self.interval_ms() >= 1
    }
}

/// An achievable timer configuration, fixed at start-up.
#[derive(Clone, Copy, Debug)]
pub struct TimerConfig {
    prescaler: Prescaler,
    compare_count: u8,
    cpu_clock_hz: u32,
}

impl View for TimerConfig {
    type V = TimerParams;

    closed spec fn view(&self) -> TimerParams {
        TimerParams {
            prescaler: self.prescaler,
            compare_count: self.compare_count,
            cpu_clock_hz: self.cpu_clock_hz,
        }
    }
}

/// The interval is the true tick length rounded down, and fits 32 bits
/// whatever the clock.
proof fn lemma_interval_bounds(params: TimerParams)
    requires
        params.cpu_clock_hz > 0,
    ensures
        0 <= params.interval_ms() <= params.cycles_per_tick() * 1000 <= 261_120_000,
        params.interval_ms() * params.cpu_clock_hz <= params.cycles_per_tick() * 1000,
        params.cycles_per_tick() * 1000 < (params.interval_ms() + 1) * params.cpu_clock_hz,
{
    let cycles: int = params.cycles_per_tick() * 1000;
    let hz: int = params.cpu_clock_hz as int;
    assert(0 <= params.cycles_per_tick() <= 1024 * 255) by {
        let d: int = params.prescaler.spec_divider() as int;
        let c: int = params.compare_count as int;
        assert(0 <= d * c <= 1024 * 255) by (nonlinear_arith)
            requires
                0 <= d <= 1024,
                0 <= c <= 255,
        ;
    }
    lemma_fundamental_div_mod(cycles, hz);
    assert(0 <= cycles / hz) by (nonlinear_arith)
        requires
            0 <= cycles,
            0 < hz,
    ;
    assert((cycles / hz + 1) * hz == (cycles / hz) * hz + hz) by (nonlinear_arith);
}

impl TimerConfig {
    #[verifier::type_invariant]
    spec fn valid(&self) -> bool {
        self@.achievable()
    }

    /// Checks a configuration and keeps it if it is achievable.
    pub fn new(prescaler: Prescaler, compare_count: u8, cpu_clock_hz: u32) -> (r: Option<TimerConfig>)
        ensures
            r is Some <==> (TimerParams { prescaler, compare_count, cpu_clock_hz }).achievable(),
            r matches Some(config) ==> config@ == (TimerParams { prescaler, compare_count, cpu_clock_hz }),
    {
        if cpu_clock_hz == 0 {
            return None;
        }
        let cycles: u32 = prescaler.divider() * (compare_count as u32);
        if (cycles as u64) * 1000 / (cpu_clock_hz as u64) >= 1 {
            Some(TimerConfig { prescaler, compare_count, cpu_clock_hz })
        } else {
            None
        }
    }

    /// The clock divider the timer is to select.
    pub fn prescaler(&self) -> (p: Prescaler)
        ensures
            p == self@.prescaler,
    {
        self.prescaler
    }

    /// The value for the timer's compare register.
    pub fn compare_count(&self) -> (c: u8)
        ensures
            c == self@.compare_count,
    {
        self.compare_count
    }

    /// The CPU clock the interval was computed for, in hertz.
    pub fn cpu_clock_hz(&self) -> (hz: u32)
        ensures
            hz == self@.cpu_clock_hz,
            hz > 0,
    {
        proof {
            use_type_invariant(self);
        }
        self.cpu_clock_hz
    }

    /// Milliseconds added to the counter on each tick: the tick interval
    /// rounded down to a whole millisecond. The result is at least one, is
    /// never more than the true interval, and falls short of it by less than
    /// a millisecond.
    pub fn increment_ms(&self) -> (ms: u32)
        ensures
            ms == self@.interval_ms(),
            ms >= 1,
            ms * self@.cpu_clock_hz <= self@.cycles_per_tick() * 1000 < (ms + 1) * self@.cpu_clock_hz,
    {
        proof {
            use_type_invariant(self);
            lemma_interval_bounds(self@);
        }
        let cycles: u32 = self.prescaler.divider() * (self.compare_count as u32);
        ((cycles as u64) * 1000 / (self.cpu_clock_hz as u64)) as u32
    }

    /// Whether the increment is the tick interval exactly, with nothing lost
    /// to rounding.
    pub fn is_exact(&self) -> (exact: bool)
        ensures
            exact == self@.exact(),
            exact <==> self@.interval_ms() * self@.cpu_clock_hz == self@.cycles_per_tick() * 1000,
    {
        proof {
            use_type_invariant(self);
            lemma_interval_bounds(self@);
            lemma_fundamental_div_mod(self@.cycles_per_tick() * 1000, self@.cpu_clock_hz as int);
            assert((self@.cpu_clock_hz as int) * self@.interval_ms() == self@.interval_ms() * self@.cpu_clock_hz)
                by (nonlinear_arith);
        }
        let cycles: u32 = self.prescaler.divider() * (self.compare_count as u32);
        (cycles as u64) * 1000 % (self.cpu_clock_hz as u64) == 0
    }
}

} // verus!
