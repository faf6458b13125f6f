use tauri_state::handlers::broadcast_snapshot;
use tauri_state::handlers::clock_worker_step;
use tauri_state::handlers::get_clock;
use tauri_state::handlers::get_login;
use tauri_state::handlers::get_power;
use tauri_state::handlers::login;
use tauri_state::handlers::logout;
use tauri_state::handlers::power_perturbation;
use tauri_state::handlers::power_worker_step;
use tauri_state::handlers::reset_power;
use tauri_state::handlers::POWER_SEED;
use tauri_state::state::AuthState;
use tauri_state::state::SetupGuard;
use tauri_state::state::SystemClock;
use tauri_state::state::SystemState;

#[test]
fn login_logout_round_trip() {
    let mut auth = AuthState::default();
    assert!(!auth.logged_in);
    assert!(!get_login(&auth).logged_in);
    let after_login = login(&mut auth);
    assert!(after_login.logged_in);
    assert!(auth.logged_in);
    assert!(get_login(&auth).logged_in);
    let after_logout = logout(&mut auth);
    assert!(!after_logout.logged_in);
    assert!(!auth.logged_in);
}

#[test]
fn reset_power_always_yields_zero() {
    let mut state = SystemState::default();
    assert_eq!(state.power, 100);
    let snapshot = reset_power(&mut state);
    assert_eq!(snapshot.power, 0);
    assert_eq!(get_power(&state).power, 0);

    power_worker_step(&mut state, POWER_SEED);
    let snapshot = reset_power(&mut state);
    assert_eq!(snapshot.power, 0);
}

#[test]
fn power_perturbation_is_bounded_and_seeded() {
    let draw = power_perturbation(POWER_SEED);
    assert!(draw < 100);
    assert_eq!(draw, 55);
    assert_eq!(power_perturbation(POWER_SEED), draw);
}

#[test]
fn power_worker_step_is_deterministic() {
    let mut state = SystemState::default();
    power_worker_step(&mut state, POWER_SEED);
    assert_eq!(state.power, (100 + 55) % 101);
}

#[test]
fn power_stays_in_range_over_many_mutations() {
    let mut state = SystemState::default();
    for seed in 0..50 {
        power_worker_step(&mut state, seed);
        assert!(0 <= state.power && state.power <= 100);
    }
    reset_power(&mut state);
    assert!(0 <= state.power && state.power <= 100);
    for seed in 50..100 {
        power_worker_step(&mut state, seed);
        assert!(0 <= state.power && state.power <= 100);
    }
}

#[test]
fn clock_worker_step_materializes_digits() {
    let mut clock = SystemClock::default();
    clock_worker_step(&mut clock, 61500);
    assert_eq!(clock.clock.timer.duration_ms, 61500);
    assert_eq!(clock.hours, 0);
    assert_eq!(clock.minutes, 1);
    assert_eq!(clock.seconds, 1);
    assert_eq!(clock.milliseconds, 500);
    let snapshot = get_clock(&clock);
    assert_eq!(snapshot.minutes, 1);
    assert_eq!(snapshot.milliseconds, 500);
}

#[test]
fn fill_timer_refreshes_stale_digits() {
    let mut clock = SystemClock::default();
    clock.clock.corner_clock_call(3723004);
    assert_eq!(clock.hours, 0);
    clock.fill_timer();
    assert_eq!(clock.hours, 1);
    assert_eq!(clock.minutes, 2);
    assert_eq!(clock.seconds, 3);
    assert_eq!(clock.milliseconds, 4);
}

#[test]
fn broadcast_snapshot_copies_the_state() {
    let mut state = SystemState::default();
    reset_power(&mut state);
    let snapshot = broadcast_snapshot(&state);
    assert_eq!(snapshot.power, 0);
}

#[test]
fn setup_guard_admits_only_the_first_caller() {
    let mut guard = SetupGuard::new();
    assert!(guard.try_start());
    assert!(!guard.try_start());
    assert!(!guard.try_start());
}
