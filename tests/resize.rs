use perspective_viewer::resize::ResizeCoalescer;

#[test]
fn identical_visible_sizes_ask_once() {
    let mut r = ResizeCoalescer::subscribe(100, 100);
    let sizes = vec![(200, 150), (200, 150), (200, 150)];
    assert!(r.on_resize(&sizes, true));
    assert!(!r.on_redraw_complete());
    assert!(!r.on_resize(&vec![(200, 150)], true));
}

#[test]
fn unchanged_size_asks_nothing() {
    let mut r = ResizeCoalescer::subscribe(100, 100);
    assert!(!r.on_sample(100, 100, true));
}

#[test]
fn hidden_sizes_are_dropped_without_recording() {
    let mut r = ResizeCoalescer::subscribe(100, 100);
    assert!(!r.on_sample(300, 300, false));
    assert!(!r.on_resize(&vec![(1, 1), (2, 2)], false));
    assert!(!r.on_sample(100, 100, true));
    assert!(r.on_sample(300, 300, true));
}

#[test]
fn sizes_during_redraw_fold_into_one_more() {
    let mut r = ResizeCoalescer::subscribe(100, 100);
    assert!(r.on_sample(120, 100, true));
    assert!(!r.on_sample(130, 100, true));
    assert!(!r.on_sample(140, 100, true));
    assert!(r.on_redraw_complete());
    assert!(!r.on_redraw_complete());
}

#[test]
fn unsubscribe_is_idempotent() {
    let mut r = ResizeCoalescer::subscribe(10, 10);
    assert!(r.unsubscribe());
    assert!(!r.unsubscribe());
    assert!(!r.is_armed());
    assert!(!r.on_sample(50, 50, true));
}
