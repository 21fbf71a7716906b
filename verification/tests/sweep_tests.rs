use x_pixiv::sweep::{Mark, Sweep, SweepEntry};

#[test]
fn new_sweep_lists_the_ids_untouched() {
    let s = Sweep::new(&vec![5, 6, 7]);
    assert_eq!(s.len(), 3);
    assert_eq!(s.entry(0), Some(SweepEntry { id: 5, mark: Mark::Untouched }));
    assert_eq!(s.entry(2), Some(SweepEntry { id: 7, mark: Mark::Untouched }));
    assert_eq!(s.entry(3), None);
    assert!(s.is_idle());
}

#[test]
fn sweep_all_gives_each_id_its_own_outcome() {
    let ids: Vec<u64> = vec![11, 12, 13, 14, 15];
    let mut s = Sweep::new(&ids);
    let jobs = s.start_all();
    assert_eq!(jobs, vec![0, 1, 2, 3, 4]);
    for i in 0..5 {
        assert_eq!(s.entry(i).unwrap().mark, Mark::Downloading);
    }
    let outcomes = [true, false, true, false, true];
    for i in [3usize, 0, 4, 1, 2] {
        assert!(s.finish(i, outcomes[i]));
    }
    for i in 0..5 {
        let expected = if outcomes[i] { Mark::Succeeded } else { Mark::Failed };
        assert_eq!(s.entry(i), Some(SweepEntry { id: ids[i], mark: expected }));
    }
    assert!(s.is_idle());
}

#[test]
fn sweep_all_skips_batches_that_run() {
    let mut s = Sweep::new(&vec![1, 2, 3]);
    assert_eq!(s.start(1), Some(2));
    assert_eq!(s.start_all(), vec![0, 2]);
    assert_eq!(s.start_all(), Vec::<usize>::new());
}

#[test]
fn start_marks_one_entry() {
    let mut s = Sweep::new(&vec![1, 2]);
    assert_eq!(s.start(0), Some(1));
    assert_eq!(s.start(0), None);
    assert_eq!(s.start(2), None);
    assert_eq!(s.entry(0).unwrap().mark, Mark::Downloading);
    assert_eq!(s.entry(1).unwrap().mark, Mark::Untouched);
    assert!(!s.is_idle());
}

#[test]
fn finish_needs_a_running_batch() {
    let mut s = Sweep::new(&vec![1, 2]);
    assert!(!s.finish(0, true));
    assert!(!s.finish(5, true));
    assert_eq!(s.entry(0).unwrap().mark, Mark::Untouched);
    s.start(0);
    assert!(s.finish(0, false));
    assert_eq!(s.entry(0).unwrap().mark, Mark::Failed);
    assert!(!s.finish(0, true));
    assert_eq!(s.entry(0).unwrap().mark, Mark::Failed);
}

#[test]
fn failed_entry_can_be_started_again() {
    let mut s = Sweep::new(&vec![1]);
    s.start(0);
    s.finish(0, false);
    assert_eq!(s.start(0), Some(1));
    assert!(s.finish(0, true));
    assert_eq!(s.entry(0).unwrap().mark, Mark::Succeeded);
}

#[test]
fn sequential_mode_takes_one_id_at_a_time() {
    let mut s = Sweep::new(&vec![1, 2, 3]);
    let mut order = Vec::new();
    while let Some(i) = s.next_in_turn() {
        order.push(i);
        assert!(s.start(i).is_some());
        assert_eq!(s.next_in_turn(), None);
        assert!(s.finish(i, i != 1));
    }
    assert_eq!(order, vec![0, 1, 2]);
    assert_eq!(s.entry(0).unwrap().mark, Mark::Succeeded);
    assert_eq!(s.entry(1).unwrap().mark, Mark::Failed);
    assert_eq!(s.entry(2).unwrap().mark, Mark::Succeeded);
}

#[test]
fn push_adds_an_untouched_entry() {
    let mut s = Sweep::new(&vec![]);
    assert_eq!(s.next_in_turn(), None);
    s.push(9);
    assert_eq!(s.entry(0), Some(SweepEntry { id: 9, mark: Mark::Untouched }));
    assert_eq!(s.next_in_turn(), Some(0));
}

#[test]
fn failures_counts_the_failed_batches() {
    let mut s = Sweep::new(&vec![1, 2, 3, 4]);
    assert_eq!(s.failures(), 0);
    s.start_all();
    assert_eq!(s.failures(), 0);
    s.finish(0, false);
    s.finish(1, true);
    s.finish(3, false);
    assert_eq!(s.failures(), 2);
    s.start(0);
    assert_eq!(s.failures(), 1);
    assert_eq!(Sweep::new(&vec![]).failures(), 0);
}
