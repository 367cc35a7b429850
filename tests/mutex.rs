use futex::mutex::{lock_step, unlock_wakes, Futex, LockStep, CONTENDED, FREE};
use std::sync::atomic::Ordering;

fn word(m: &Futex) -> i32 {
    m.word().load(Ordering::SeqCst)
}

#[test]
fn mutex() {
    // A holds the mutex; B tries, marks itself as waiting and parks; A
    // releases and has a waiter to wake; B then takes the mutex.
    let futex = Futex::new();
    assert_eq!(futex.lock(), LockStep::Acquired);
    assert_eq!(futex.lock(), LockStep::Park { expected: CONTENDED });
    assert!(futex.unlock());
    assert_eq!(word(&futex), FREE);
    assert_eq!(futex.lock(), LockStep::Acquired);
    assert!(!futex.unlock());
    assert_eq!(word(&futex), FREE);
}

#[test]
fn lock_and_unlock_uncontended() {
    let m = Futex::new();
    assert_eq!(word(&m), 1);
    assert_eq!(m.lock(), LockStep::Acquired);
    assert_eq!(word(&m), 0);
    assert!(!m.unlock());
    assert_eq!(word(&m), 1);
}

#[test]
fn contended_lock_marks_waiter() {
    let m = Futex::new();
    assert_eq!(m.lock(), LockStep::Acquired);
    assert_eq!(m.lock(), LockStep::Park { expected: -1 });
    assert_eq!(word(&m), CONTENDED);
    assert!(m.unlock());
    assert_eq!(word(&m), FREE);
    assert_eq!(m.lock(), LockStep::Acquired);
}

#[test]
fn try_lock_only_when_free() {
    let m = Futex::new();
    assert!(m.try_lock());
    assert_eq!(word(&m), 0);
    assert!(!m.try_lock());
    assert!(!m.unlock());
    assert!(m.try_lock());
}

#[test]
fn mutex_decisions() {
    assert_eq!(lock_step(1), LockStep::Acquired);
    assert_eq!(lock_step(0), LockStep::Park { expected: -1 });
    assert_eq!(lock_step(-3), LockStep::Park { expected: -1 });
    assert!(!unlock_wakes(0));
    assert!(unlock_wakes(-1));
    assert!(unlock_wakes(-2));
}

#[test]
fn unlock_after_mark_is_seen_by_waiter() {
    // A holds; B decrements and marks; A unlocks and stores 1 after B's
    // mark. B's park on -1 returns at once, and B's retry takes the mutex.
    let m = Futex::new();
    assert_eq!(m.lock(), LockStep::Acquired);
    let expected = match m.lock() {
        LockStep::Park { expected } => expected,
        LockStep::Acquired => panic!("B took a held mutex"),
    };
    assert!(m.unlock());
    assert_ne!(word(&m), expected);
    assert_eq!(m.lock(), LockStep::Acquired);
    assert_eq!(word(&m), 0);
}

#[test]
fn unlock_between_decrement_and_mark_loses_wake() {
    // A holds; B decrements; A unlocks and stores 1; only then B marks.
    // B's decrement and mark are the two operations inside `lock`, done by
    // hand here to place A's unlock between them.
    let m = Futex::new();
    assert_eq!(m.lock(), LockStep::Acquired);
    let prev = m.word().fetch_sub(1, Ordering::Acquire);
    assert_eq!(lock_step(prev), LockStep::Park { expected: CONTENDED });
    assert!(m.unlock());
    assert_eq!(word(&m), FREE);
    m.word().store(CONTENDED, Ordering::Relaxed);
    // Nobody holds the mutex, yet the word says held with a waiter: B
    // would park on -1 with no unlock left to wake it.
    assert_eq!(word(&m), CONTENDED);
    assert!(!m.try_lock());
}
