//! The mutex: one atomic signed word, 1 when free, 0 when held with no
//! known waiter, negative when held with a waiter parked on it.
use std::sync::atomic::{AtomicI32, Ordering};
use vstd::prelude::*;

verus! {

/// Word of a free mutex.
pub const FREE: i32 = 1;

/// Word of a held mutex with at least one waiter parked on it.
pub const CONTENDED: i32 = -1;

/// What a thread does after its attempt to lock the mutex.
#[derive(PartialEq, Eq, Structural, Debug, Clone, Copy)]
pub enum LockStep {
    /// The mutex is held.
    Acquired,
    /// Park on the word while it still holds `expected`, then try again
    /// with [`Futex::lock`].
    Park { expected: i32 },
}

pub open spec fn lock_spec(prev: i32) -> LockStep {
    if prev == FREE {
        LockStep::Acquired
    } else {
        LockStep::Park { expected: CONTENDED }
    }
}

/// Decides the outcome of a lock attempt that found the word at `prev`
/// before it decremented it: only a free word gives the lock.
pub fn lock_step(prev: i32) -> (r: LockStep)
    ensures
        r == lock_spec(prev),
{
    if prev == FREE {
        LockStep::Acquired
    } else {
        LockStep::Park { expected: CONTENDED }
    }
}

/// Decides whether an unlock that found the word at `prev` before it
/// incremented it has waiters to wake: it has unless the mutex was held with
/// no known waiter.
pub fn unlock_wakes(prev: i32) -> (r: bool)
    ensures
        r == (prev != 0),
{
    prev != 0
}

/// A non-reentrant, unfair mutex on a single word.
///
/// It does not track ownership: an unlock is the caller's promise that it
/// holds the mutex.
pub struct Futex {
    futex: AtomicI32,
}

impl Futex {
    /// A free mutex.
    pub fn new() -> Futex {
        Futex { futex: AtomicI32::new(FREE) }
    }

    /// The word that stands behind the mutex, for parking and waking on it.
    pub fn word(&self) -> &AtomicI32 {
        &self.futex
    }

    /// Decrements the word; the caller holds the mutex when it was free.
    /// Otherwise the word is marked as having a waiter, and the caller parks
    /// on that mark.
    ///
    /// The decrement and the mark are two separate atomic operations, and an
    /// [`Futex::unlock`] that found a waiter stores 1 after its own
    /// increment. Two interleavings follow when B marks while A unlocks:
    ///
    /// - A's store of 1 lands after B's mark: the word is 1 when B parks on
    ///   -1, so the kernel refuses to park B ("would block"), B calls `lock`
    ///   again and finds the mutex free. Nothing is lost.
    /// - A's store of 1 lands between B's decrement and B's mark: B's mark
    ///   overwrites the free word with -1 although nobody holds the mutex,
    ///   and B parks on a word that no unlock will touch. The wake is lost.
    ///   This is a known hazard of the protocol and is kept as it is.
    pub fn lock(&self) -> (r: LockStep)
        ensures
            exists|prev: i32| r == #[trigger] lock_spec(prev),
    {
        let prev = self.futex.fetch_sub(1, Ordering::Acquire);
        let r = lock_step(prev);
        if let LockStep::Park { .. } = r {
            self.futex.store(CONTENDED, Ordering::Relaxed);
        }
        r
    }

    /// Takes the mutex if it is free, without waiting; returns whether it
    /// did.
    pub fn try_lock(&self) -> bool {
        self.futex.compare_exchange(FREE, 0, Ordering::Acquire, Ordering::Acquire).is_ok()
    }

    /// Releases the mutex and says whether waiters are to be woken, all of
    /// them. When there are, the word is first made free again.
    pub fn unlock(&self) -> (r: bool) {
        let prev = self.futex.fetch_add(1, Ordering::Release);
        let wake = unlock_wakes(prev);
        if wake {
            self.futex.store(FREE, Ordering::Release);
        }
        wake
    }
}

} // verus!
