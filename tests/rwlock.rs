use futex::layout::{
    checked_add, Poisoned, F_WRITE_SHOVE, M_DEATH, ONE_READER, ONE_READER_QUEUED, ONE_WRITER,
};
use futex::rwlock::{
    read_active_step, read_queued_step, release_read_wake, release_write_wake, without_shove,
    write_step, ReadStep, RwFutex, Wake, WriteStep,
};
use std::sync::atomic::Ordering;

fn word(lock: &RwFutex) -> u32 {
    lock.word().load(Ordering::SeqCst)
}

#[test]
fn rwlock() {
    // Two parties, A and B, interleaved step by step as the kernel might
    // schedule them.
    let futex = RwFutex::new();
    for _ in 0..3 {
        assert_eq!(futex.acquire_read(), Ok(ReadStep::Acquired));
    }
    // B reads, leaves, then asks to write behind A's three readers.
    assert_eq!(futex.acquire_read(), Ok(ReadStep::Acquired));
    assert_eq!(futex.release_read(), Ok(Wake::Nobody));
    let held = ONE_WRITER + 3 * ONE_READER;
    assert_eq!(futex.acquire_write(), Ok(WriteStep::Park { expected: held, have_lock: true }));
    // A's readers drain; the last one wakes B.
    assert_eq!(futex.release_read(), Ok(Wake::Nobody));
    assert_eq!(futex.release_read(), Ok(Wake::Nobody));
    assert_eq!(futex.release_read(), Ok(Wake::OneWriter));
    assert_eq!(futex.resume_write(true), WriteStep::Acquired);
    // A reads again while B writes: it queues and parks.
    assert_eq!(futex.acquire_read(), Ok(ReadStep::Enqueue));
    assert_eq!(
        futex.enqueue_read(),
        Ok(ReadStep::Park { expected: ONE_WRITER + ONE_READER_QUEUED, wake_writer: true })
    );
    assert_eq!(futex.release_write(), Ok(Wake::AllReaders));
    assert_eq!(futex.rejoin_read(), Ok(ReadStep::Acquired));
    assert_eq!(futex.release_read(), Ok(Wake::Nobody));
    assert_eq!(word(&futex), 0);
}

#[test]
fn reader_stacking() {
    let lock = RwFutex::new();
    assert_eq!(word(&lock), 0);
    for _ in 0..3 {
        assert_eq!(lock.acquire_read(), Ok(ReadStep::Acquired));
    }
    assert_eq!(word(&lock), 3);
    for _ in 0..3 {
        assert_eq!(lock.release_read(), Ok(Wake::Nobody));
    }
    assert_eq!(word(&lock), 0);
}

#[test]
fn uncontended_writer() {
    let lock = RwFutex::new();
    assert_eq!(lock.acquire_write(), Ok(WriteStep::Acquired));
    assert_eq!(word(&lock), ONE_WRITER);
    assert_eq!(lock.release_write(), Ok(Wake::Nobody));
    assert_eq!(word(&lock), 0);
}

#[test]
fn writer_waits_for_readers() {
    let lock = RwFutex::new();
    assert_eq!(lock.acquire_read(), Ok(ReadStep::Acquired));
    assert_eq!(
        lock.acquire_write(),
        Ok(WriteStep::Park { expected: ONE_WRITER + ONE_READER, have_lock: true })
    );
    assert_eq!(lock.release_read(), Ok(Wake::OneWriter));
    assert_eq!(lock.resume_write(true), WriteStep::Acquired);
    assert_eq!(lock.release_write(), Ok(Wake::Nobody));
    assert_eq!(word(&lock), 0);
}

#[test]
fn reader_queues_behind_writer() {
    let lock = RwFutex::new();
    assert_eq!(lock.acquire_write(), Ok(WriteStep::Acquired));
    assert_eq!(lock.acquire_read(), Ok(ReadStep::Enqueue));
    assert_eq!(
        lock.enqueue_read(),
        Ok(ReadStep::Park { expected: ONE_WRITER + ONE_READER_QUEUED, wake_writer: true })
    );
    assert_eq!(lock.release_write(), Ok(Wake::AllReaders));
    assert_eq!(word(&lock), ONE_READER_QUEUED);
    assert_eq!(lock.rejoin_read(), Ok(ReadStep::Acquired));
    assert_eq!(word(&lock), ONE_READER);
    assert_eq!(lock.release_read(), Ok(Wake::Nobody));
    assert_eq!(word(&lock), 0);
}

#[test]
fn writer_preference() {
    // A reader holds the lock, a writer queues, then a new reader arrives:
    // the new reader queues and the writer runs before it.
    let lock = RwFutex::new();
    assert_eq!(lock.acquire_read(), Ok(ReadStep::Acquired));
    let w = ONE_WRITER + ONE_READER;
    assert_eq!(lock.acquire_write(), Ok(WriteStep::Park { expected: w, have_lock: true }));
    assert_eq!(lock.acquire_read(), Ok(ReadStep::Enqueue));
    assert_eq!(
        lock.enqueue_read(),
        Ok(ReadStep::Park { expected: w + ONE_READER_QUEUED, wake_writer: false })
    );
    assert_eq!(lock.release_read(), Ok(Wake::OneWriter));
    assert_eq!(lock.resume_write(true), WriteStep::Acquired);
    assert_eq!(lock.release_write(), Ok(Wake::AllReaders));
    assert_eq!(lock.rejoin_read(), Ok(ReadStep::Acquired));
    assert_eq!(lock.release_read(), Ok(Wake::Nobody));
    assert_eq!(word(&lock), 0);
}

#[test]
fn writer_handoff() {
    let lock = RwFutex::new();
    assert_eq!(lock.acquire_write(), Ok(WriteStep::Acquired));
    assert_eq!(
        lock.acquire_write(),
        Ok(WriteStep::Park { expected: 2 * ONE_WRITER, have_lock: false })
    );
    assert_eq!(lock.release_write(), Ok(Wake::OneWriter));
    assert_eq!(word(&lock), ONE_WRITER | F_WRITE_SHOVE);
    let seen = ONE_WRITER | F_WRITE_SHOVE;
    assert_eq!(lock.resume_write(false), WriteStep::TakeShove { seen });
    assert_eq!(lock.take_shove(seen), WriteStep::Acquired);
    assert_eq!(word(&lock), ONE_WRITER);
    assert_eq!(lock.release_write(), Ok(Wake::Nobody));
    assert_eq!(word(&lock), 0);
}

#[test]
fn lost_handoff_decides_again() {
    let lock = RwFutex::new();
    assert_eq!(lock.acquire_write(), Ok(WriteStep::Acquired));
    assert!(lock.acquire_write().is_ok());
    let stale = 2 * ONE_WRITER | F_WRITE_SHOVE;
    assert_eq!(
        lock.take_shove(stale),
        WriteStep::Park { expected: 2 * ONE_WRITER, have_lock: false }
    );
    assert_eq!(word(&lock), 2 * ONE_WRITER);
}

#[test]
fn reader_overflow_poisons() {
    let lock = RwFutex::new();
    for _ in 0..511 {
        assert_eq!(lock.acquire_read(), Ok(ReadStep::Acquired));
    }
    assert_eq!(word(&lock), 511);
    assert_eq!(lock.acquire_read(), Err(Poisoned));
    assert_eq!(word(&lock), M_DEATH);
    assert_eq!(lock.release_read(), Err(Poisoned));
    assert_eq!(lock.acquire_write(), Err(Poisoned));
    assert_eq!(lock.release_write(), Err(Poisoned));
    assert_eq!(word(&lock), M_DEATH);
}

#[test]
fn writer_overflow_poisons() {
    let lock = RwFutex::new();
    for _ in 0..511 {
        assert!(lock.acquire_write().is_ok());
    }
    assert_eq!(lock.acquire_write(), Err(Poisoned));
    assert_eq!(word(&lock), M_DEATH);
}

#[test]
fn release_without_acquire_poisons() {
    let lock = RwFutex::new();
    assert_eq!(lock.release_read(), Err(Poisoned));
    assert_eq!(word(&lock), M_DEATH);
    let lock = RwFutex::new();
    assert_eq!(lock.release_write(), Err(Poisoned));
}

#[test]
fn checked_add_values() {
    assert_eq!(checked_add(0, ONE_READER), Ok(1));
    assert_eq!(checked_add(5, ONE_WRITER), Ok(ONE_WRITER + 5));
    assert_eq!(checked_add(511, ONE_READER), Err(Poisoned));
    assert_eq!(checked_add(0, 0u32.wrapping_sub(ONE_READER)), Err(Poisoned));
    assert_eq!(checked_add(M_DEATH, 0), Err(Poisoned));
    assert_eq!(checked_add(ONE_READER_QUEUED, 0u32.wrapping_sub(ONE_READER_QUEUED)), Ok(0));
}

#[test]
fn decisions() {
    assert_eq!(read_active_step(7), ReadStep::Acquired);
    assert_eq!(read_active_step(ONE_WRITER + 7), ReadStep::Enqueue);
    assert_eq!(read_queued_step(ONE_READER_QUEUED), ReadStep::Rejoin);
    assert_eq!(
        read_queued_step(ONE_WRITER + ONE_READER_QUEUED + 2),
        ReadStep::Park { expected: ONE_WRITER + ONE_READER_QUEUED + 2, wake_writer: false }
    );
    assert_eq!(write_step(false, ONE_WRITER), WriteStep::Acquired);
    assert_eq!(
        write_step(false, 3 * ONE_WRITER),
        WriteStep::Park { expected: 3 * ONE_WRITER, have_lock: false }
    );
    assert_eq!(
        write_step(false, 2 * ONE_WRITER | F_WRITE_SHOVE),
        WriteStep::TakeShove { seen: 2 * ONE_WRITER | F_WRITE_SHOVE }
    );
    assert_eq!(write_step(true, 2 * ONE_WRITER | F_WRITE_SHOVE), WriteStep::Acquired);
    assert_eq!(
        write_step(true, ONE_WRITER + 1),
        WriteStep::Park { expected: ONE_WRITER + 1, have_lock: true }
    );
    assert_eq!(release_read_wake(ONE_WRITER), Wake::OneWriter);
    assert_eq!(release_read_wake(ONE_WRITER + 1), Wake::Nobody);
    assert_eq!(release_read_wake(0), Wake::Nobody);
    assert_eq!(release_write_wake(ONE_WRITER + ONE_READER_QUEUED), Wake::OneWriter);
    assert_eq!(release_write_wake(3 * ONE_READER_QUEUED), Wake::AllReaders);
    assert_eq!(release_write_wake(0), Wake::Nobody);
}

#[test]
fn handoff_clears_only_the_flag() {
    assert_eq!(without_shove(ONE_WRITER | F_WRITE_SHOVE), ONE_WRITER);
    let busy = 3 * ONE_WRITER + 2 * ONE_READER_QUEUED + 5 * ONE_READER;
    assert_eq!(without_shove(busy | F_WRITE_SHOVE), busy);
    assert_eq!(without_shove(busy), busy);
    assert_eq!(without_shove(M_DEATH), M_DEATH);
    assert_eq!(without_shove(u32::MAX), u32::MAX & !F_WRITE_SHOVE);
}
