use console_session::keys::{contains_key, KeyDelta, KeyTracker};

fn sorted(mut v: Vec<u64>) -> Vec<u64> {
    v.sort();
    v
}

#[test]
fn first_snapshot_presses_everything() {
    let mut t = KeyTracker::new();
    let d = t.update(vec![3, 1, 3]);
    assert_eq!(sorted(d.pressed), vec![1, 3]);
    assert!(d.released.is_empty());
    assert!(d.held.is_empty());
    assert!(t.is_down(1) && t.is_down(3) && !t.is_down(2));
}

#[test]
fn delta_partitions_keys() {
    let mut t = KeyTracker::new();
    t.update(vec![1, 2, 3]);
    let d = t.update(vec![2, 3, 4, 5]);
    assert_eq!(sorted(d.pressed.clone()), vec![4, 5]);
    assert_eq!(sorted(d.released.clone()), vec![1]);
    assert_eq!(sorted(d.held.clone()), vec![2, 3]);
    for k in 1..=5u64 {
        let n = [d.is_pressed(k), d.is_released(k), contains_key(&d.held, k)]
            .iter()
            .filter(|b| **b)
            .count();
        assert_eq!(n, 1);
    }
    assert!(!d.is_pressed(6) && !d.is_released(6));
}

#[test]
fn snapshot_replaces_previous() {
    let mut t = KeyTracker::new();
    t.update(vec![7]);
    t.update(vec![8]);
    let d = t.update(vec![]);
    assert_eq!(d.released, vec![8]);
    assert!(!t.is_down(7) && !t.is_down(8));
}

#[test]
fn empty_delta_has_nothing() {
    let d = KeyDelta::empty();
    assert!(!d.is_pressed(0) && !d.is_released(0));
}
