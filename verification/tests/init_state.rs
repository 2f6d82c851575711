use cpu_hal::init_state::InitState;

#[test]
fn new_state_is_uninitialized() {
    let state = InitState::new();
    assert_eq!(state, InitState::Uninitialized);
    assert!(!state.is_initialized());
}

#[test]
fn begin_marks_the_state() {
    let mut state = InitState::new();
    state.begin();
    assert_eq!(state, InitState::Initialized);
    assert!(state.is_initialized());
}

#[test]
fn initialized_state_reports_itself() {
    assert!(InitState::Initialized.is_initialized());
    assert!(!InitState::Uninitialized.is_initialized());
}
