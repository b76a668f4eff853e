use livesplit_one::updates::{Counters, UpdateLog, MAX_UPDATES};

#[test]
fn first_updates_to_tell_of() {
    let mut log = UpdateLog::new();
    let mut told = Vec::new();
    for _ in 0..200000 {
        if let Some(updates) = log.due() {
            told.push(updates);
        }
        log.updated();
    }
    assert_eq!(told, vec![0, 10, 110, 1110, 11110, 111110]);
}

#[test]
fn update_after_one_to_tell_of_is_not() {
    let mut log = UpdateLog::new();
    assert_eq!(log.due(), Some(0));
    assert_eq!(log.due(), Some(0));
    log.updated();
    assert_eq!(log.due(), None);
    assert!(!log.overflows());
}

#[test]
fn milestones_follow_their_formula() {
    let mut log = UpdateLog::new();
    let mut power: i64 = 1;
    for updates in 0..12000 {
        if log.due() == Some(updates) {
            assert_eq!(9 * i64::from(updates), 10 * (power - 1));
            power *= 10;
        }
        log.updated();
    }
    assert_eq!(power, 100000);
}

#[test]
fn first_counters() {
    let counters = Counters::new();
    assert_eq!(counters, Counters { updates: 0, wait: 0, gap: 1 });
    assert!(!counters.overflows());
    assert_eq!(counters.counted(), Counters { updates: 1, wait: 9, gap: 10 });
    assert_eq!(counters.counted().counted(), Counters { updates: 2, wait: 8, gap: 10 });
}

#[test]
fn counters_wrap_around_at_the_last_milestone() {
    assert_eq!(9 * i64::from(MAX_UPDATES), 10 * (1000000000 - 1));
    let last = Counters { updates: MAX_UPDATES, wait: 0, gap: 1000000000 };
    assert!(last.overflows());
    let next = Counters { updates: MAX_UPDATES + 1, wait: 1410065407, gap: 1410065408 };
    assert_eq!(last.counted(), next);
    assert!(!next.overflows());
    let before = Counters { updates: MAX_UPDATES - 1, wait: 1, gap: 1000000000 };
    assert!(!before.overflows());
    assert_eq!(before.counted(), last);
}

#[test]
fn each_counter_wraps_around() {
    let updates = Counters { updates: i32::MAX, wait: 5, gap: 10 };
    assert!(updates.overflows());
    assert_eq!(updates.counted(), Counters { updates: i32::MIN, wait: 4, gap: 10 });
    let wait = Counters { updates: 7, wait: i32::MIN, gap: 10 };
    assert!(wait.overflows());
    assert_eq!(wait.counted(), Counters { updates: 8, wait: i32::MAX, gap: 10 });
    let gap = Counters { updates: 7, wait: 0, gap: 1410065408 };
    assert!(gap.overflows());
    assert_eq!(gap.counted(), Counters { updates: 8, wait: 1215752191, gap: 1215752192 });
}
