//! Debounced push-button input on top of a free-running millisecond clock.
//!
//! A periodic timer interrupt advances a [`Timebase`]; the main loop samples a
//! switch and the clock and feeds both to a [`DebounceState`], which turns the
//! noisy level into one clean toggle per actuation and latches an output.
//! Everything here is plain data and arithmetic: register access, interrupt
//! masking and pin I/O belong to the program that embeds the library.

pub mod debounce;
pub mod timebase;
pub mod timer_config;
pub mod trace;

pub use debounce::{DebounceModel, DebounceState, Phase, DEBOUNCE_WINDOW};
pub use timebase::{elapsed_between, Timebase, TimebaseModel};
pub use timer_config::{Prescaler, TimerConfig, TimerParams, CPU_CLOCK_HZ};
pub use trace::Sample;
