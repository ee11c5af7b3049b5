use multitimer::clock::Time;
use multitimer::registry::{normalize_label, TimerRegistry, CAPACITY};

fn ticked(t: &mut Time, n: usize) {
    for _ in 0..n {
        t.advance();
    }
}

#[test]
fn advance_one_second() {
    let mut t = Time::new();
    t.advance();
    assert_eq!(t, Time { second: 1, minute: 0, hour: 0, days: 0 });
}

#[test]
fn minute_rollover() {
    let mut t = Time::new();
    ticked(&mut t, 60);
    assert_eq!(t, Time { second: 0, minute: 1, hour: 0, days: 0 });
}

#[test]
fn hour_rollover() {
    let mut t = Time::new();
    ticked(&mut t, 3600);
    assert_eq!(t, Time { second: 0, minute: 0, hour: 1, days: 0 });
}

#[test]
fn full_day_rollover() {
    let mut t = Time::new();
    ticked(&mut t, 86400);
    assert_eq!(t, Time { second: 0, minute: 0, hour: 0, days: 1 });
}

#[test]
fn fields_stay_in_range() {
    let mut t = Time::new();
    let mut last_days = 0u16;
    for _ in 0..100_000usize {
        t.advance();
        assert!(t.second < 60);
        assert!(t.minute < 60);
        assert!(t.hour < 24);
        assert!(t.days >= last_days);
        last_days = t.days;
    }
}

#[test]
fn day_counter_saturates() {
    let mut t = Time { second: 59, minute: 59, hour: 23, days: u16::MAX };
    t.advance();
    assert_eq!(t, Time { second: 0, minute: 0, hour: 0, days: u16::MAX });
}

#[test]
fn read_returns_a_copy() {
    let mut t = Time::new();
    ticked(&mut t, 42);
    let copy = t.read();
    assert_eq!(copy, t);
}

#[test]
fn new_registry_has_one_zeroed_timer() {
    let reg = TimerRegistry::new(Some(String::from("work")));
    assert_eq!(reg.timer_count(), 1);
    assert_eq!(reg.selected_index(), 0);
    assert_eq!(reg.label_of(0), &Some(String::from("work")));
    let snap = reg.snapshot_all();
    assert_eq!(snap.len(), 1);
    assert_eq!(snap[0], Time { second: 0, minute: 0, hour: 0, days: 0 });
    assert!(reg.well_formed());
}

#[test]
fn add_timer_appends_and_selects_it() {
    let mut reg = TimerRegistry::new(None);
    assert!(reg.add_timer(Some(String::from("second"))));
    assert_eq!(reg.timer_count(), 2);
    assert_eq!(reg.selected_index(), 1);
    assert_eq!(reg.label_of(0), &None);
    assert_eq!(reg.label_of(1), &Some(String::from("second")));
}

#[test]
fn add_timer_at_capacity_is_a_no_op() {
    let mut reg = TimerRegistry::new(None);
    for _ in 1..CAPACITY {
        assert!(reg.add_timer(None));
    }
    assert_eq!(reg.timer_count(), CAPACITY);
    let selected_before = reg.selected_index();
    assert!(!reg.add_timer(Some(String::from("overflow"))));
    assert_eq!(reg.timer_count(), CAPACITY);
    assert_eq!(reg.selected_index(), selected_before);
}

#[test]
fn remove_last_timer_is_a_no_op() {
    let mut reg = TimerRegistry::new(Some(String::from("only")));
    reg.advance_timer(0);
    assert_eq!(reg.remove_selected(), None);
    assert_eq!(reg.timer_count(), 1);
    assert_eq!(reg.selected_index(), 0);
    assert_eq!(reg.label_of(0), &Some(String::from("only")));
    let snap = reg.snapshot_all();
    assert_eq!(snap[0], Time { second: 1, minute: 0, hour: 0, days: 0 });
}

#[test]
fn removal_shifts_later_timers_and_keeps_their_clocks() {
    let mut reg = TimerRegistry::new(None);
    reg.add_timer(None);
    reg.add_timer(None);
    // make the three clocks distinct: 0, 3 and 7 seconds
    for _ in 0..3 {
        reg.advance_timer(1);
    }
    for _ in 0..7 {
        reg.advance_timer(2);
    }
    // move the cursor to the middle timer
    reg.select_next();
    reg.select_next();
    assert_eq!(reg.selected_index(), 1);
    assert_eq!(reg.remove_selected(), Some(1));
    assert_eq!(reg.timer_count(), 2);
    assert_eq!(reg.selected_index(), 1);
    let snap = reg.snapshot_all();
    assert_eq!(snap[0].second, 0);
    // the timer previously at index 2 now sits at index 1, clock untouched
    assert_eq!(snap[1].second, 7);
}

#[test]
fn removal_of_last_index_clamps_the_cursor() {
    let mut reg = TimerRegistry::new(None);
    reg.add_timer(None);
    reg.add_timer(None);
    assert_eq!(reg.selected_index(), 2);
    assert_eq!(reg.remove_selected(), Some(2));
    assert_eq!(reg.timer_count(), 2);
    assert_eq!(reg.selected_index(), 1);
}

#[test]
fn select_next_cycles_back_after_len_steps() {
    let mut reg = TimerRegistry::new(None);
    reg.add_timer(None);
    reg.add_timer(None);
    let start = reg.selected_index();
    for _ in 0..reg.timer_count() {
        reg.select_next();
    }
    assert_eq!(reg.selected_index(), start);
}

#[test]
fn select_next_wraps_around() {
    let mut reg = TimerRegistry::new(None);
    reg.add_timer(None);
    assert_eq!(reg.selected_index(), 1);
    reg.select_next();
    assert_eq!(reg.selected_index(), 0);
    reg.select_next();
    assert_eq!(reg.selected_index(), 1);
}

#[test]
fn select_previous_wraps_around() {
    let mut reg = TimerRegistry::new(None);
    reg.add_timer(None);
    reg.add_timer(None);
    reg.select_previous();
    assert_eq!(reg.selected_index(), 1);
    reg.select_previous();
    assert_eq!(reg.selected_index(), 0);
    reg.select_previous();
    assert_eq!(reg.selected_index(), 2);
}

#[test]
fn set_label_replaces_only_the_selected_label() {
    let mut reg = TimerRegistry::new(Some(String::from("first")));
    reg.add_timer(Some(String::from("second")));
    reg.advance_timer(1);
    reg.set_label_on_selected(Some(String::from("renamed")));
    assert_eq!(reg.label_of(0), &Some(String::from("first")));
    assert_eq!(reg.label_of(1), &Some(String::from("renamed")));
    let snap = reg.snapshot_all();
    assert_eq!(snap[1].second, 1);
    reg.set_label_on_selected(None);
    assert_eq!(reg.label_of(1), &None);
}

#[test]
fn snapshot_matches_count_and_order() {
    let mut reg = TimerRegistry::new(None);
    reg.add_timer(None);
    reg.add_timer(None);
    reg.add_timer(None);
    for i in 0..reg.timer_count() {
        for _ in 0..i {
            reg.advance_timer(i);
        }
    }
    let snap = reg.snapshot_all();
    assert_eq!(snap.len(), reg.timer_count());
    for (i, t) in snap.iter().enumerate() {
        assert_eq!(t.second as usize, i);
    }
}

#[test]
fn two_timers_run_independently() {
    let mut reg = TimerRegistry::new(None);
    for _ in 0..65 {
        reg.advance_timer(0);
    }
    let snap = reg.snapshot_all();
    assert_eq!(snap[0], Time { second: 5, minute: 1, hour: 0, days: 0 });
    assert!(reg.add_timer(None));
    for _ in 0..5 {
        reg.advance_timer(0);
        reg.advance_timer(1);
    }
    let snap = reg.snapshot_all();
    assert_eq!(snap[0], Time { second: 10, minute: 1, hour: 0, days: 0 });
    assert_eq!(snap[1], Time { second: 5, minute: 0, hour: 0, days: 0 });
}

#[test]
fn normalize_label_clears_on_empty_input() {
    assert_eq!(normalize_label(String::new()), None);
    assert_eq!(normalize_label(String::from("gym")), Some(String::from("gym")));
}
