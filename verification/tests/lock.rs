use origin_stamp::lock::{
    check_reentrancy_certificate, release_reentrancy_certificate, Busy, IssuanceLock,
    GRACE_WINDOW_NS,
};

fn s(id: &str) -> String {
    id.to_string()
}

#[test]
fn grace_window_is_ten_seconds() {
    assert_eq!(GRACE_WINDOW_NS, 10_000_000_000);
}

#[test]
fn second_acquire_within_the_window_is_busy() {
    let mut locks = IssuanceLock::new();
    assert_eq!(locks.acquire(&s("a"), 100), Ok(()));
    assert_eq!(locks.acquire(&s("a"), 100), Err(Busy));
    assert_eq!(locks.acquire(&s("a"), 100 + GRACE_WINDOW_NS - 1), Err(Busy));
    assert_eq!(locks.taken_at(&s("a")), Some(100));
}

#[test]
fn lock_lapses_when_the_window_has_passed() {
    let mut locks = IssuanceLock::new();
    assert_eq!(locks.acquire(&s("a"), 100), Ok(()));
    assert_eq!(locks.acquire(&s("a"), 100 + GRACE_WINDOW_NS), Ok(()));
    assert_eq!(locks.taken_at(&s("a")), Some(100 + GRACE_WINDOW_NS));
}

#[test]
fn clock_running_backwards_keeps_the_lock_held() {
    let mut locks = IssuanceLock::new();
    assert_eq!(locks.acquire(&s("a"), 100), Ok(()));
    assert_eq!(locks.acquire(&s("a"), 5), Err(Busy));
}

#[test]
fn locks_of_other_sessions_do_not_interfere() {
    let mut locks = IssuanceLock::new();
    assert_eq!(locks.acquire(&s("a"), 100), Ok(()));
    assert_eq!(locks.acquire(&s("b"), 100), Ok(()));
    locks.release(&s("a"));
    assert_eq!(locks.taken_at(&s("a")), None);
    assert_eq!(locks.taken_at(&s("b")), Some(100));
}

#[test]
fn release_is_idempotent() {
    let mut locks = IssuanceLock::new();
    locks.release(&s("a"));
    assert_eq!(locks.acquire(&s("a"), 1), Ok(()));
    locks.release(&s("a"));
    locks.release(&s("a"));
    assert_eq!(locks.acquire(&s("a"), 2), Ok(()));
}

#[test]
fn free_functions_take_and_give_back() {
    let mut locks = IssuanceLock::new();
    assert_eq!(check_reentrancy_certificate(&mut locks, &s("a"), 7), Ok(()));
    assert_eq!(check_reentrancy_certificate(&mut locks, &s("a"), 8), Err(Busy));
    release_reentrancy_certificate(&mut locks, &s("a"));
    assert_eq!(check_reentrancy_certificate(&mut locks, &s("a"), 9), Ok(()));
}
