use batchimg::progress::ProgressState;

#[test]
fn starts_empty() {
    let p = ProgressState::new(5);
    assert_eq!(p.parts(), (0, 5));
}

#[test]
fn each_file_advances_by_one_step() {
    let mut p = ProgressState::new(3);
    let mut last = 0;
    for expected in 1..=3 {
        p.record_one();
        let (done, total) = p.parts();
        assert_eq!(done, expected);
        assert_eq!(total, 3);
        // Monotonically non-decreasing throughout the run.
        assert!(done >= last);
        last = done;
    }
}

#[test]
fn finish_forces_exact_completion() {
    let mut p = ProgressState::new(4);
    p.record_one();
    p.finish();
    assert_eq!(p.parts(), (4, 4));

    // Even an empty run ends complete.
    let mut empty = ProgressState::new(0);
    empty.finish();
    assert_eq!(empty.parts(), (0, 0));
}
