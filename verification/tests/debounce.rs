use key_tmr_input::{DebounceState, Phase, Sample, DEBOUNCE_WINDOW};

fn pressed(time: u32) -> Sample {
    Sample { time, pressed: true }
}

fn released(time: u32) -> Sample {
    Sample { time, pressed: false }
}

#[test]
fn window_is_fifty_milliseconds() {
    assert_eq!(DEBOUNCE_WINDOW, 50);
}

#[test]
fn machine_starts_idle_and_off() {
    let state = DebounceState::new(1234);
    assert!(!state.toggle_state());
    assert!(!state.output_level());
    assert!(!state.lockout_active());
    assert_eq!(state.last_transition_time(), 1234);
    assert_eq!(state.phase(), Phase::Idle);
}

#[test]
fn nothing_is_evaluated_while_the_window_is_open() {
    let mut state = DebounceState::new(100);
    for now in 100..=150 {
        assert_eq!(state.step(true, now), None);
        assert_eq!(state.step(false, now), None);
    }
    assert!(!state.toggle_state());
    assert!(!state.lockout_active());
    assert_eq!(state.last_transition_time(), 100);
}

#[test]
fn window_closes_after_fifty_milliseconds() {
    let mut state = DebounceState::new(100);
    assert_eq!(state.step(true, 150), None);
    assert_eq!(state.step(true, 151), Some(true));
    assert!(state.toggle_state());
    assert!(state.output_level());
    assert!(state.lockout_active());
    assert_eq!(state.phase(), Phase::Locked);
    assert_eq!(state.last_transition_time(), 151);
}

#[test]
fn accepted_press_restarts_the_window() {
    let mut state = DebounceState::new(0);
    assert_eq!(state.step(true, 51), Some(true));
    // Released and pressed again at once: still inside the new window.
    assert_eq!(state.step(false, 60), None);
    assert!(state.lockout_active());
    assert_eq!(state.step(true, 101), None);
    assert!(state.toggle_state());
    assert_eq!(state.last_transition_time(), 51);
}

#[test]
fn release_clears_the_lockout_and_keeps_the_window() {
    let mut state = DebounceState::new(0);
    assert_eq!(state.step(true, 51), Some(true));
    assert_eq!(state.step(false, 102), None);
    assert!(!state.lockout_active());
    assert_eq!(state.phase(), Phase::Idle);
    assert!(state.toggle_state());
    assert_eq!(state.last_transition_time(), 51);
}

#[test]
fn press_under_lockout_changes_nothing() {
    let mut state = DebounceState::new(0);
    assert_eq!(state.step(true, 51), Some(true));
    assert_eq!(state.step(true, 102), None);
    assert_eq!(state.step(true, 5000), None);
    assert!(state.toggle_state());
    assert!(state.lockout_active());
    assert_eq!(state.last_transition_time(), 51);
}

#[test]
fn release_when_idle_changes_nothing() {
    let mut state = DebounceState::new(0);
    assert_eq!(state.step(false, 51), None);
    assert_eq!(state.step(false, 500), None);
    assert!(!state.toggle_state());
    assert!(!state.lockout_active());
    assert_eq!(state.last_transition_time(), 0);
}

#[test]
fn bounce_then_steady_press_toggles_once() {
    // Ten changes of level within 5 ms, then a steady press.
    let mut trace = vec![
        pressed(0),
        released(0),
        pressed(1),
        released(1),
        pressed(2),
        released(3),
        pressed(3),
        released(4),
        pressed(4),
        released(5),
    ];
    for time in 6..=200 {
        trace.push(pressed(time));
    }
    let mut state = DebounceState::new(0);
    assert_eq!(state.replay(&trace), 1);
    assert!(state.toggle_state());
    assert!(state.lockout_active());
    // The first steady sample outside the window opened at start-up.
    assert_eq!(state.last_transition_time(), 51);
}

#[test]
fn bounce_after_a_long_rest_toggles_once() {
    // The window has long closed, so the first pressed sample is taken and
    // the rest of the bounce falls into the new window.
    let mut trace = vec![
        pressed(1000),
        released(1000),
        pressed(1001),
        released(1002),
        pressed(1002),
        released(1003),
        pressed(1003),
        released(1004),
        pressed(1004),
        released(1005),
    ];
    for time in 1006..=1300 {
        trace.push(pressed(time));
    }
    let mut state = DebounceState::new(0);
    assert_eq!(state.replay(&trace), 1);
    assert!(state.toggle_state());
    assert!(state.lockout_active());
    assert_eq!(state.last_transition_time(), 1000);
}

#[test]
fn long_press_toggles_once() {
    // Held for three windows' time and more.
    let mut state = DebounceState::new(0);
    let mut toggles = 0;
    for now in 51..=(51 + 3 * DEBOUNCE_WINDOW + 10) {
        if state.step(true, now).is_some() {
            toggles += 1;
        }
    }
    assert_eq!(toggles, 1);
    assert!(state.toggle_state());
    assert!(state.lockout_active());
    assert_eq!(state.last_transition_time(), 51);
}

#[test]
fn release_rearms_for_a_second_toggle() {
    let mut state = DebounceState::new(0);
    assert_eq!(state.step(true, 100), Some(true));
    assert!(state.toggle_state());
    assert_eq!(state.step(false, 151), None);
    assert!(!state.lockout_active());
    assert_eq!(state.step(true, 152), Some(false));
    assert!(!state.toggle_state());
    assert!(!state.output_level());
    assert!(state.lockout_active());
    assert_eq!(state.last_transition_time(), 152);
}

#[test]
fn release_inside_the_window_does_not_rearm() {
    let mut state = DebounceState::new(0);
    assert_eq!(state.step(true, 100), Some(true));
    assert_eq!(state.step(false, 150), None);
    assert!(state.lockout_active());
    assert_eq!(state.step(true, 151), None);
    assert!(state.toggle_state());
}

#[test]
fn output_always_shows_the_latched_value() {
    let mut state = DebounceState::new(0);
    let mut line = false;
    let mut level = false;
    for now in 0..2000u32 {
        // A switch that changes level every 37 ms.
        if now % 37 == 0 {
            level = !level;
        }
        if let Some(driven) = state.step(level, now) {
            line = driven;
        }
        assert_eq!(state.output_level(), state.toggle_state());
        assert_eq!(line, state.toggle_state());
    }
    assert!(state.last_transition_time() > 0);
}

#[test]
fn trace_from_start_up_waits_for_the_first_window() {
    // Created at clock reading 0, the machine evaluates nothing before 51.
    let trace = [pressed(0), released(2), pressed(5), released(7), pressed(10)];
    let mut state = DebounceState::new(0);
    assert_eq!(state.replay(&trace), 0);
    assert!(!state.toggle_state());
    assert!(!state.lockout_active());
    for now in 11..=50 {
        assert_eq!(state.step(true, now), None);
    }
    assert_eq!(state.step(true, 51), Some(true));
    assert_eq!(state.last_transition_time(), 51);
}

#[test]
fn trace_toggles_once_at_ten() {
    // The machine was created 45 ms before the counter wrapped to zero, so
    // its first window is open at 0, 2 and 5 and has closed at 7 and 10.
    let mut state = DebounceState::new(0u32.wrapping_sub(45));
    assert_eq!(state.step(true, 0), None);
    assert_eq!(state.step(false, 2), None);
    assert_eq!(state.step(true, 5), None);
    assert_eq!(state.step(false, 7), None);
    assert!(!state.toggle_state());
    assert_eq!(state.step(true, 10), Some(true));
    assert!(state.toggle_state());
    assert!(state.output_level());
    assert!(state.lockout_active());
    assert_eq!(state.last_transition_time(), 10);
    // Bounce up to 60 is not evaluated.
    for now in 11..=60 {
        assert_eq!(state.step(now % 2 == 0, now), None);
        assert!(state.toggle_state());
        assert!(state.lockout_active());
        assert_eq!(state.last_transition_time(), 10);
    }
    // Past 60 a release re-arms and the next press toggles again.
    assert_eq!(state.step(true, 61), None);
    assert_eq!(state.step(false, 62), None);
    assert_eq!(state.step(true, 63), Some(false));
    assert_eq!(state.last_transition_time(), 63);
}

#[test]
fn window_is_measured_across_the_wraparound() {
    let mut state = DebounceState::new(u32::MAX - 9);
    assert_eq!(state.step(true, u32::MAX), None);
    assert_eq!(state.step(true, 40), None);
    assert_eq!(state.step(true, 41), Some(true));
    assert_eq!(state.last_transition_time(), 41);
}

#[test]
fn replay_counts_accepted_presses() {
    let trace = [
        pressed(60),
        pressed(70),
        released(111),
        pressed(112),
        released(120),
        released(163),
        pressed(164),
        pressed(400),
    ];
    let mut state = DebounceState::new(0);
    assert_eq!(state.replay(&trace), 3);
    assert!(state.toggle_state());
    assert!(state.lockout_active());
    assert_eq!(state.last_transition_time(), 164);
}

#[test]
fn replay_of_nothing_changes_nothing() {
    let mut state = DebounceState::new(7);
    assert_eq!(state.replay(&[]), 0);
    assert_eq!(state.last_transition_time(), 7);
    assert!(!state.toggle_state());
}

#[test]
fn replay_agrees_with_stepping() {
    let trace: Vec<Sample> =
        (0..1500u32).map(|time| Sample { time, pressed: (time / 90) % 2 == 1 }).collect();
    let mut replayed = DebounceState::new(0);
    let count = replayed.replay(&trace);
    let mut stepped = DebounceState::new(0);
    let mut toggles = 0;
    for sample in &trace {
        if stepped.step(sample.pressed, sample.time).is_some() {
            toggles += 1;
        }
    }
    assert_eq!(count, toggles);
    assert_eq!(count, 8);
    assert_eq!(replayed.toggle_state(), stepped.toggle_state());
    assert_eq!(replayed.lockout_active(), stepped.lockout_active());
    assert_eq!(replayed.last_transition_time(), stepped.last_transition_time());
}
