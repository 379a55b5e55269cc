use vollibrespot::reconnect::{is_stale, ReconnectWindow, RECONNECT_LIMIT, RECONNECT_WINDOW_SECS};

#[test]
fn a_new_window_is_empty() {
    let w = ReconnectWindow::new();
    assert_eq!(w.len(), 0);
    assert_eq!(w.attempts(), Vec::<u64>::new());
}

#[test]
fn the_limits_are_five_attempts_in_six_hundred_seconds() {
    assert_eq!(RECONNECT_LIMIT, 5);
    assert_eq!(RECONNECT_WINDOW_SECS, 600);
}

#[test]
fn staleness_begins_after_six_hundred_seconds() {
    assert!(!is_stale(100, 100));
    assert!(!is_stale(100, 700));
    assert!(is_stale(100, 701));
    assert!(is_stale(0, u64::MAX));
}

#[test]
fn a_stamp_from_the_future_is_not_stale() {
    assert!(!is_stale(1000, 10));
    assert!(!is_stale(u64::MAX, 0));
}

#[test]
fn five_attempts_are_granted_and_the_sixth_is_refused() {
    let mut w = ReconnectWindow::new();
    for t in 0..5u64 {
        assert!(w.try_attempt(t));
    }
    assert_eq!(w.attempts(), vec![0, 1, 2, 3, 4]);
    assert!(!w.try_attempt(5));
    assert_eq!(w.attempts(), vec![0, 1, 2, 3, 4]);
    assert_eq!(w.len(), 5);
}

#[test]
fn a_refusal_at_the_edge_of_the_window() {
    let mut w = ReconnectWindow::new();
    for t in 0..5u64 {
        assert!(w.try_attempt(t));
    }
    // The oldest attempt is exactly 600 s old: it stays, and the attempt is refused.
    assert!(!w.try_attempt(600));
    assert_eq!(w.attempts(), vec![0, 1, 2, 3, 4]);
    // One second later it has left the window.
    assert!(w.try_attempt(601));
    assert_eq!(w.attempts(), vec![1, 2, 3, 4, 601]);
}

#[test]
fn pruning_never_leaves_more_than_five() {
    let mut w = ReconnectWindow::new();
    let mut now = 0u64;
    for step in 0..200u64 {
        now += (step * 37) % 301;
        w.try_attempt(now);
        assert!(w.len() <= 5);
        w.prune(now + step);
        assert!(w.len() <= 5);
    }
}

#[test]
fn pruning_discards_the_stale_front_only() {
    let mut w = ReconnectWindow::new();
    assert!(w.try_attempt(0));
    assert!(w.try_attempt(700));
    assert!(w.try_attempt(10));
    w.prune(701);
    assert_eq!(w.attempts(), vec![700, 10]);
}

#[test]
fn pruning_an_ordered_window_keeps_what_is_fresh() {
    let mut w = ReconnectWindow::new();
    for t in [0u64, 100, 200, 300, 400] {
        assert!(w.try_attempt(t));
    }
    w.prune(850);
    assert_eq!(w.attempts(), vec![300, 400]);
    w.prune(2000);
    assert_eq!(w.len(), 0);
}

#[test]
fn clearing_forgets_every_attempt() {
    let mut w = ReconnectWindow::new();
    for t in 0..5u64 {
        w.try_attempt(t);
    }
    w.clear();
    assert_eq!(w.len(), 0);
    assert!(w.try_attempt(5));
    assert_eq!(w.attempts(), vec![5]);
}
