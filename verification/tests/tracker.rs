use doglog::tracker::ColumnTracker;

#[test]
fn observe_keeps_the_maximum() {
    let mut t = ColumnTracker::new();
    assert_eq!(t.current(), 0);
    let widths: Vec<usize> = vec![3, 11, 7, 11, 2, 19, 5];
    let mut seen_max: usize = 0;
    for w in widths {
        t.observe(w);
        if w > seen_max {
            seen_max = w;
        }
        assert_eq!(t.current(), seen_max);
    }
    assert_eq!(t.current(), 19);
}

#[test]
fn observe_never_shrinks() {
    let mut t = ColumnTracker::new();
    t.observe(42);
    t.observe(1);
    t.observe(0);
    assert_eq!(t.current(), 42);
}
