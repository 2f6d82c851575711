use cpu_hal::arch::aarch64::driver::{init, Driver};
use cpu_hal::init_state::InitState;

#[test]
fn board_comes_before_console() {
    let mut state = InitState::new();
    assert_eq!(init(&mut state), [Driver::Board, Driver::Console]);
}

#[test]
fn aarch64_init_cannot_run_twice() {
    let mut state = InitState::new();
    assert!(!state.is_initialized());
    let _ = init(&mut state);
    assert!(state.is_initialized());
}
