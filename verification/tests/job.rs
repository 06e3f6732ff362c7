use media_converter::job::{cancel_conversion, JobState};

#[test]
fn a_new_job_state_is_idle() {
    let state = JobState::new();
    assert!(!state.is_active());
    assert!(!state.conversion_active);
}

#[test]
fn cancelling_with_no_job_is_no_error_and_leaves_the_state_idle() {
    let mut state = JobState::new();
    assert_eq!(cancel_conversion(&mut state), Ok(()));
    assert!(!state.is_active());
    assert_eq!(cancel_conversion(&mut state), Ok(()));
    assert!(!state.is_active());
}

#[test]
fn cancelling_a_running_job_clears_the_flag() {
    let mut state = JobState::new();
    state.activate();
    assert!(state.is_active());
    assert_eq!(cancel_conversion(&mut state), Ok(()));
    assert!(!state.is_active());
}

#[test]
fn activating_twice_keeps_the_job_active() {
    let mut state = JobState::new();
    state.activate();
    state.activate();
    assert!(state.is_active());
    assert_eq!(state, JobState { conversion_active: true });
}
