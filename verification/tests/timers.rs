use tauri_state::error::Error;
use tauri_state::handlers::get_timer_by_index;
use tauri_state::handlers::get_timer_list;
use tauri_state::handlers::push_timer;
use tauri_state::state::TimerList;
use tauri_state::timer::TauriTimer;

#[test]
fn push_three_timers_scenario() {
    let mut list = TimerList::default();
    let first = push_timer(&mut list, 5);
    let second = push_timer(&mut list, 10);
    let third = push_timer(&mut list, 0);
    assert_eq!(first.id, 1);
    assert_eq!(second.id, 2);
    assert_eq!(third.id, 3);

    let snapshot = get_timer_list(&list);
    let ids: Vec<usize> = snapshot.timers.iter().map(|t| t.id).collect();
    assert_eq!(ids, vec![1, 2, 3]);

    let looked_up = get_timer_by_index(&list, 2).unwrap();
    assert_eq!(looked_up.id, 3);
    assert_eq!(looked_up.timer.target_ms, 0);
    assert_eq!(looked_up.seconds, 0);
    assert_eq!(looked_up.milliseconds, 0);

    let past_end = get_timer_by_index(&list, 3);
    assert!(past_end.is_err());
    assert!(past_end.unwrap_err().reports_not_found());
}

#[test]
fn empty_list_lookup_fails_not_found() {
    let list = TimerList::default();
    let result = get_timer_by_index(&list, 0);
    assert!(result.is_err());
    assert!(result.unwrap_err().reports_not_found());
}

#[test]
fn lookup_succeeds_exactly_below_length() {
    let mut list = TimerList::default();
    for _ in 0..4 {
        push_timer(&mut list, 1);
    }
    for index in 0..4 {
        assert!(get_timer_by_index(&list, index).is_ok());
    }
    for index in 4..8 {
        assert!(get_timer_by_index(&list, index).is_err());
    }
}

#[test]
fn ids_are_strictly_increasing() {
    let mut list = TimerList::default();
    let mut last_id = 0;
    for seconds in 0..6 {
        let timer = push_timer(&mut list, seconds);
        assert!(timer.id > last_id);
        last_id = timer.id;
    }
}

#[test]
fn pushed_timer_digits_are_materialized() {
    let mut list = TimerList::default();
    let timer = push_timer(&mut list, 3725);
    assert_eq!(timer.hours, 1);
    assert_eq!(timer.minutes, 2);
    assert_eq!(timer.seconds, 5);
    assert_eq!(timer.milliseconds, 0);
}

#[test]
fn raw_push_appends_in_order() {
    let mut list = TimerList::default();
    let mut timer = TauriTimer::new(7);
    timer.set_id(1);
    list.push_timer(timer);
    assert_eq!(list.timers.len(), 1);
    assert_eq!(list.timers[0].id, 1);
    assert_eq!(list.timers[0].timer.target_ms, 7000);
}

#[test]
fn set_id_changes_only_the_id() {
    let mut timer = TauriTimer::new(12);
    let before = timer;
    timer.set_id(9);
    assert_eq!(timer.id, 9);
    assert_eq!(timer.timer.target_ms, before.timer.target_ms);
    assert_eq!(timer.seconds, before.seconds);
}

#[test]
fn snapshot_is_independent_of_the_list() {
    let mut list = TimerList::default();
    push_timer(&mut list, 2);
    let snapshot = get_timer_list(&list);
    push_timer(&mut list, 4);
    assert_eq!(snapshot.timers.len(), 1);
    assert_eq!(list.timers.len(), 2);
}

#[test]
fn not_found_error_message() {
    let error = Error::not_found_index();
    assert!(error.reports_not_found());
    assert_eq!(error.message(), "Index not found on timer list.");
}

#[test]
fn poisoned_lock_error_carries_detail() {
    let error = Error::poisoned_lock("the mutex was poisoned".to_owned());
    assert!(!error.reports_not_found());
    assert_eq!(error.message(), "the mutex was poisoned");
}
