use std::collections::{HashMap, HashSet};
use tg_ai_moderator::quarantine::{count_message, QUARANTINED_MESSAGES_AMOUNT_INITIAL};

#[test]
fn default_threshold_is_three() {
    assert_eq!(QUARANTINED_MESSAGES_AMOUNT_INITIAL, 3);
}

#[test]
fn counter_follows_the_messages_and_is_removed_at_the_threshold() {
    let mut counters: HashMap<u64, u8> = HashMap::new();
    let mut exited: HashSet<u64> = HashSet::new();
    assert!(count_message(&mut counters, &mut exited, 7, 3));
    assert_eq!(counters.get(&7), Some(&1));
    assert!(count_message(&mut counters, &mut exited, 7, 3));
    assert_eq!(counters.get(&7), Some(&2));
    assert!(exited.is_empty());
    assert!(!count_message(&mut counters, &mut exited, 7, 3));
    assert_eq!(counters.get(&7), None);
    assert!(counters.is_empty());
    assert_eq!(exited, HashSet::from([7]));
}

#[test]
fn exit_is_terminal() {
    let mut counters: HashMap<u64, u8> = HashMap::new();
    let mut exited: HashSet<u64> = HashSet::new();
    for _ in 0..3 {
        count_message(&mut counters, &mut exited, 7, 3);
    }
    for _ in 0..10 {
        assert!(!count_message(&mut counters, &mut exited, 7, 3));
        assert_eq!(counters.get(&7), None);
        assert_eq!(exited, HashSet::from([7]));
    }
}

#[test]
fn of_any_number_of_messages_the_threshold_less_one_are_classified() {
    for threshold in 1u8..=20 {
        for n in 0usize..50 {
            let mut counters: HashMap<u64, u8> = HashMap::new();
            let mut exited: HashSet<u64> = HashSet::new();
            let mut classified = 0usize;
            for _ in 0..n {
                if count_message(&mut counters, &mut exited, 1, threshold) {
                    classified += 1;
                }
            }
            assert_eq!(classified, n.min(threshold as usize - 1));
            if n >= threshold as usize {
                assert!(counters.is_empty());
                assert!(exited.contains(&1));
            } else if n > 0 {
                assert_eq!(counters.get(&1), Some(&(n as u8)));
                assert!(exited.is_empty());
            }
        }
    }
}

#[test]
fn count_equals_the_messages_below_the_threshold() {
    for threshold in 1u8..=20 {
        let mut counters: HashMap<u64, u8> = HashMap::new();
        let mut exited: HashSet<u64> = HashSet::new();
        for n in 1..threshold {
            assert!(count_message(&mut counters, &mut exited, 1, threshold));
            assert_eq!(counters.get(&1), Some(&n));
        }
        assert!(!count_message(&mut counters, &mut exited, 1, threshold));
        assert_eq!(counters.get(&1), None);
    }
}

#[test]
fn users_are_counted_apart() {
    let mut counters: HashMap<u64, u8> = HashMap::new();
    let mut exited: HashSet<u64> = HashSet::new();
    count_message(&mut counters, &mut exited, 1, 3);
    count_message(&mut counters, &mut exited, 2, 3);
    count_message(&mut counters, &mut exited, 1, 3);
    assert_eq!(counters.get(&1), Some(&2));
    assert_eq!(counters.get(&2), Some(&1));
    count_message(&mut counters, &mut exited, 1, 3);
    assert_eq!(counters.get(&1), None);
    assert_eq!(counters.get(&2), Some(&1));
    assert_eq!(exited, HashSet::from([1]));
    assert!(count_message(&mut counters, &mut exited, 2, 3));
}

#[test]
fn threshold_of_zero_or_one_checks_nothing() {
    let mut counters: HashMap<u64, u8> = HashMap::new();
    let mut exited: HashSet<u64> = HashSet::new();
    assert!(!count_message(&mut counters, &mut exited, 1, 0));
    assert!(!count_message(&mut counters, &mut exited, 2, 1));
    assert!(counters.is_empty());
    assert_eq!(exited, HashSet::from([1, 2]));
}

#[test]
fn stored_count_at_the_limit_of_its_type() {
    let mut counters: HashMap<u64, u8> = HashMap::new();
    let mut exited: HashSet<u64> = HashSet::new();
    counters.insert(1, 255);
    assert!(!count_message(&mut counters, &mut exited, 1, 255));
    assert_eq!(counters.get(&1), None);
    counters.insert(2, 253);
    assert!(count_message(&mut counters, &mut exited, 2, 255));
    assert_eq!(counters.get(&2), Some(&254));
    assert!(!count_message(&mut counters, &mut exited, 2, 255));
    assert_eq!(counters.get(&2), None);
    assert_eq!(exited, HashSet::from([1, 2]));
}

#[test]
fn stored_count_above_the_threshold_is_removed() {
    let mut counters: HashMap<u64, u8> = HashMap::new();
    let mut exited: HashSet<u64> = HashSet::new();
    counters.insert(1, 9);
    assert!(!count_message(&mut counters, &mut exited, 1, 3));
    assert_eq!(counters.get(&1), None);
    assert!(exited.contains(&1));
}
