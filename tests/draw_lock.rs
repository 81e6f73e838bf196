use perspective_viewer::draw_lock::DrawLock;

#[test]
fn free_lock_starts_at_once() {
    let mut lock = DrawLock::new();
    let a = lock.submit().unwrap();
    assert!(a.start_now);
    assert_eq!(lock.holder(), Some(a.ticket));
    assert_eq!(lock.release(a.ticket), None);
    assert_eq!(lock.holder(), None);
}

#[test]
fn operations_run_in_submission_order() {
    let mut lock = DrawLock::new();
    let a = lock.submit().unwrap();
    let b = lock.submit().unwrap();
    let c = lock.submit().unwrap();
    assert!(a.start_now);
    assert!(!b.start_now);
    assert!(!c.start_now);
    assert_eq!(lock.waiting(), 2);
    assert_eq!(lock.release(a.ticket), Some(b.ticket));
    assert_eq!(lock.holder(), Some(b.ticket));
    assert_eq!(lock.waiting(), 1);
    assert_eq!(lock.release(b.ticket), Some(c.ticket));
    assert_eq!(lock.release(c.ticket), None);
    assert_eq!(lock.waiting(), 0);
}

#[test]
fn late_submission_queues_behind_waiters() {
    let mut lock = DrawLock::new();
    let a = lock.submit().unwrap();
    let b = lock.submit().unwrap();
    assert_eq!(lock.release(a.ticket), Some(b.ticket));
    let c = lock.submit().unwrap();
    let d = lock.submit().unwrap();
    assert_eq!(lock.release(b.ticket), Some(c.ticket));
    assert_eq!(lock.release(c.ticket), Some(d.ticket));
}
