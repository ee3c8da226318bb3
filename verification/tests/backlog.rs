use muzak::devices::builtin::cpal::{silence_from, Backlog};

#[test]
fn new_backlog_is_empty() {
    let backlog: Backlog<i16> = Backlog::new();
    assert!(backlog.is_empty());
    assert_eq!(backlog.rest(), &[] as &[i16]);
}

#[test]
fn backlog_offers_what_it_was_given() {
    let mut backlog = Backlog::new();
    backlog.extend(vec![1, 2, 3]);
    assert!(!backlog.is_empty());
    assert_eq!(backlog.rest(), &[1, 2, 3]);
}

#[test]
fn stored_samples_wait_no_longer() {
    let mut backlog = Backlog::new();
    backlog.extend(vec![1, 2, 3, 4, 5]);
    assert!(backlog.record(Some(2)));
    assert_eq!(backlog.rest(), &[3, 4, 5]);
    assert!(backlog.record(Some(1)));
    assert_eq!(backlog.rest(), &[4, 5]);
    assert!(backlog.record(Some(2)));
    assert!(backlog.is_empty());
}

#[test]
fn nothing_stored_is_no_progress() {
    let mut backlog = Backlog::new();
    backlog.extend(vec![1u8, 2]);
    assert!(!backlog.record(Some(0)));
    assert_eq!(backlog.rest(), &[1, 2]);
    assert!(!backlog.record(None));
    assert_eq!(backlog.rest(), &[1, 2]);
}

#[test]
fn new_samples_wait_behind_the_old_ones() {
    let mut backlog = Backlog::new();
    backlog.extend(vec![1, 2, 3]);
    assert!(backlog.record(Some(2)));
    backlog.extend(vec![4, 5]);
    assert_eq!(backlog.rest(), &[3, 4, 5]);
    backlog.extend(vec![]);
    assert_eq!(backlog.rest(), &[3, 4, 5]);
    assert!(backlog.record(Some(3)));
    backlog.extend(vec![6]);
    assert_eq!(backlog.rest(), &[6]);
}

#[test]
fn cleared_backlog_is_empty() {
    let mut backlog = Backlog::new();
    backlog.extend(vec![1, 2, 3]);
    assert!(backlog.record(Some(1)));
    backlog.clear();
    assert!(backlog.is_empty());
    assert_eq!(backlog.rest(), &[] as &[i32]);
    backlog.extend(vec![9]);
    assert_eq!(backlog.rest(), &[9]);
}

#[test]
fn silence_replaces_the_tail() {
    let mut data = [1u8, 2, 3, 4];
    silence_from(&mut data, 1);
    assert_eq!(data, [1, 128, 128, 128]);
    let mut data = [1i16, 2, 3, 4];
    silence_from(&mut data, 0);
    assert_eq!(data, [0, 0, 0, 0]);
    let mut data = [5u32, 6];
    silence_from(&mut data, 1);
    assert_eq!(data, [5, 2147483648]);
}

#[test]
fn silence_from_the_end_changes_nothing() {
    let mut data = [1i8, 2, 3];
    silence_from(&mut data, 3);
    assert_eq!(data, [1, 2, 3]);
    silence_from(&mut data, 10);
    assert_eq!(data, [1, 2, 3]);
    let mut none: [u16; 0] = [];
    silence_from(&mut none, 0);
    assert_eq!(none, []);
}
