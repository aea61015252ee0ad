use fj_host::watcher::coalesce;

#[test]
fn no_changes_no_notification() {
    assert_eq!(coalesce(&vec![], 50), Vec::<u64>::new());
}

#[test]
fn rapid_changes_collapse_into_one() {
    assert_eq!(coalesce(&vec![100, 110, 130, 170], 50), vec![170]);
}

#[test]
fn separate_bursts_each_notify() {
    assert_eq!(coalesce(&vec![0, 10, 100, 105, 300], 50), vec![10, 105, 300]);
}

#[test]
fn gap_equal_to_window_splits() {
    assert_eq!(coalesce(&vec![0, 50], 50), vec![0, 50]);
}

#[test]
fn out_of_order_times_stay_in_burst() {
    assert_eq!(coalesce(&vec![100, 40], 50), vec![40]);
}

#[test]
fn zero_window_never_collapses() {
    assert_eq!(coalesce(&vec![5, 5, 6], 0), vec![5, 5, 6]);
}

#[test]
fn largest_times_do_not_overflow() {
    assert_eq!(coalesce(&vec![u64::MAX - 1, u64::MAX], u64::MAX), vec![u64::MAX]);
    assert_eq!(coalesce(&vec![0, u64::MAX], u64::MAX), vec![0, u64::MAX]);
}
