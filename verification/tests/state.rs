use plop_tui::app::state::{AppState, MAX_SLEEP_SECS, MESSAGE_CAPACITY, MIN_SLEEP_SECS};

fn texts(state: &AppState) -> Vec<String> {
    state.messages().to_vec()
}

#[test]
fn a_new_state_has_the_default_values() {
    let state = AppState::new();
    assert!(!state.is_initialized());
    assert!(!state.is_loading());
    assert_eq!(state.count_tick(), 0);
    assert_eq!(state.count_sleep(), 0);
    assert_eq!(state.duration(), 1);
    assert!(state.messages().is_empty());
}

#[test]
fn the_limits_are_one_ten_and_ten() {
    assert_eq!(MIN_SLEEP_SECS, 1);
    assert_eq!(MAX_SLEEP_SECS, 10);
    assert_eq!(MESSAGE_CAPACITY, 10);
}

#[test]
fn set_sleep_duration_clamps() {
    let mut state = AppState::new();
    state.set_sleep_duration(5);
    assert_eq!(state.duration(), 5);
    state.set_sleep_duration(0);
    assert_eq!(state.duration(), 1);
    state.set_sleep_duration(1);
    assert_eq!(state.duration(), 1);
    state.set_sleep_duration(10);
    assert_eq!(state.duration(), 10);
    state.set_sleep_duration(11);
    assert_eq!(state.duration(), 10);
    state.set_sleep_duration(u64::MAX);
    assert_eq!(state.duration(), 10);
}

#[test]
fn increment_delay_stops_at_ten() {
    let mut state = AppState::new();
    let mut seen = Vec::new();
    for _ in 0..12 {
        state.increment_delay();
        seen.push(state.duration());
    }
    assert_eq!(seen, vec![2, 3, 4, 5, 6, 7, 8, 9, 10, 10, 10, 10]);
}

#[test]
fn decrement_delay_stops_at_one() {
    let mut state = AppState::new();
    state.set_sleep_duration(3);
    let mut seen = Vec::new();
    for _ in 0..5 {
        state.decrement_delay();
        seen.push(state.duration());
    }
    assert_eq!(seen, vec![2, 1, 1, 1, 1]);
}

#[test]
fn any_run_of_delay_changes_stays_in_range() {
    for start in [0u64, 1, 4, 10, 11, 1000] {
        let mut state = AppState::new();
        state.set_sleep_duration(start);
        let mut pattern: u32 = 0b1011_0111_1111_1110_0000_0000_0001_0110;
        for _ in 0..32 {
            if pattern & 1 == 1 {
                state.increment_delay();
            } else {
                state.decrement_delay();
            }
            pattern >>= 1;
            assert!((1..=10).contains(&state.duration()));
        }
    }
}

#[test]
fn delay_changes_touch_nothing_else() {
    let mut state = AppState::new();
    state.incr_tick();
    state.incr_sleep();
    state.add_message("kept".to_string());
    state.mark_loading();
    state.increment_delay();
    state.decrement_delay();
    state.increment_delay();
    assert_eq!(state.duration(), 2);
    assert_eq!(state.count_tick(), 1);
    assert_eq!(state.count_sleep(), 1);
    assert_eq!(texts(&state), vec!["kept".to_string()]);
    assert!(state.is_loading());
    assert!(!state.is_initialized());
}

#[test]
fn counters_count() {
    let mut state = AppState::new();
    for _ in 0..3 {
        state.incr_tick();
    }
    state.incr_sleep();
    state.incr_sleep();
    assert_eq!(state.count_tick(), 3);
    assert_eq!(state.count_sleep(), 2);
}

#[test]
fn flags_are_idempotent() {
    let mut state = AppState::new();
    state.mark_initialized();
    state.mark_initialized();
    assert!(state.is_initialized());
    state.mark_loading();
    state.mark_loading();
    assert!(state.is_loading());
    state.mark_loaded();
    state.mark_loaded();
    assert!(!state.is_loading());
    assert!(state.is_initialized());
}

#[test]
fn messages_keep_their_order() {
    let mut state = AppState::new();
    state.add_message("one".to_string());
    state.add_message("two".to_string());
    state.add_message("three".to_string());
    assert_eq!(texts(&state), vec!["one".to_string(), "two".to_string(), "three".to_string()]);
}

#[test]
fn ten_messages_fit() {
    let mut state = AppState::new();
    for i in 1..=10 {
        state.add_message(format!("m{}", i));
    }
    let expected: Vec<String> = (1..=10).map(|i| format!("m{}", i)).collect();
    assert_eq!(texts(&state), expected);
}

#[test]
fn eleven_messages_leave_the_last_ten() {
    let mut state = AppState::new();
    for i in 1..=11 {
        state.add_message(format!("m{}", i));
    }
    let expected: Vec<String> = (2..=11).map(|i| format!("m{}", i)).collect();
    assert_eq!(texts(&state), expected);
}

#[test]
fn the_log_never_exceeds_its_capacity_and_evicts_the_oldest() {
    let mut state = AppState::new();
    for i in 1..=35usize {
        let oldest_before = state.messages().first().cloned();
        let second_before = state.messages().get(1).cloned();
        let was_full = state.messages().len() == MESSAGE_CAPACITY;
        state.add_message(format!("m{}", i));
        assert!(state.messages().len() <= MESSAGE_CAPACITY);
        assert_eq!(state.messages().len(), i.min(MESSAGE_CAPACITY));
        assert_eq!(state.messages().last(), Some(&format!("m{}", i)));
        if was_full {
            assert_ne!(state.messages().first().cloned(), oldest_before);
            assert_eq!(state.messages().first().cloned(), second_before);
        } else {
            assert_eq!(state.messages().first().cloned().or(oldest_before.clone()), Some("m1".to_string()));
        }
    }
    let expected: Vec<String> = (26..=35).map(|i| format!("m{}", i)).collect();
    assert_eq!(texts(&state), expected);
}

#[test]
fn equal_texts_are_separate_entries() {
    let mut state = AppState::new();
    for _ in 0..12 {
        state.add_message("same".to_string());
    }
    assert_eq!(state.messages().len(), 10);
    assert!(state.messages().iter().all(|m| m == "same"));
}
