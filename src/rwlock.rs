//! The reader/writer lock: a single atomic word in the layout of
//! [`crate::layout`], updated by one atomic instruction per protocol step.
//!
//! Every method performs one atomic update of the word (two where the
//! protocol fuses them) and reports what the caller has to do next: the lock
//! is held, another step is due, or the caller parks on the word or wakes
//! parked threads through the kernel's wait/wake facility.
use std::sync::atomic::{AtomicU32, Ordering};
use vstd::prelude::*;

use crate::layout::{
    checked_add, checked_spec, dead, fields_ok, lemma_pack, lemma_unit_updates, pack, readers,
    readers_queued, shove, wrap_sub, writers, Poisoned, F_WRITE_SHOVE, M_DEATH, M_READERS,
    M_READERS_QUEUED, M_WRITERS, ONE_READER, ONE_WRITER, READER_TO_QUEUED,
};

verus! {

/// What a reader does after an update of the lock word.
#[derive(PartialEq, Eq, Structural, Debug, Clone, Copy)]
pub enum ReadStep {
    /// The read lock is held.
    Acquired,
    /// A writer is present: move from the active readers to the queued ones
    /// with [`RwFutex::enqueue_read`].
    Enqueue,
    /// Park on the word while it still holds `expected`, with the reader
    /// mask, after waking one writer if `wake_writer`; then rejoin the active
    /// readers with [`RwFutex::rejoin_read`].
    Park { expected: u32, wake_writer: bool },
    /// The writer left while this reader queued: rejoin the active readers
    /// with [`RwFutex::rejoin_read`] without parking.
    Rejoin,
}

/// What a writer does after it observed the lock word.
#[derive(PartialEq, Eq, Structural, Debug, Clone, Copy)]
pub enum WriteStep {
    /// The write lock is held.
    Acquired,
    /// A departing writer left the handoff flag in the word `seen`: try to
    /// take it with [`RwFutex::take_shove`].
    TakeShove { seen: u32 },
    /// Park on the word while it still holds `expected`, with the writer
    /// mask, then look again with [`RwFutex::resume_write`]. `have_lock`
    /// says that this writer already owns the lock and waits only for the
    /// readers to leave.
    Park { expected: u32, have_lock: bool },
}

/// Whom a releasing thread wakes.
#[derive(PartialEq, Eq, Structural, Debug, Clone, Copy)]
pub enum Wake {
    Nobody,
    /// Wake one thread parked with the writer mask.
    OneWriter,
    /// Wake every thread parked with the reader mask.
    AllReaders,
}

/// The step of a reader that is counted among the active readers, after the
/// update that left the word at `v`.
pub open spec fn read_active_spec(v: u32) -> ReadStep {
    if writers(v) == 0 {
        ReadStep::Acquired
    } else {
        ReadStep::Enqueue
    }
}

/// The step of a reader that is counted among the queued readers, after the
/// update that left the word at `v`.
pub open spec fn read_queued_spec(v: u32) -> ReadStep {
    if writers(v) != 0 {
        ReadStep::Park { expected: v, wake_writer: readers(v) == 0 }
    } else {
        ReadStep::Rejoin
    }
}

/// The step of a writer that has counted itself among the writers and
/// observed the word `v`.
pub open spec fn write_spec(have_lock: bool, v: u32) -> WriteStep {
    if !have_lock && shove(v) {
        WriteStep::TakeShove { seen: v }
    } else {
        let owner = have_lock || writers(v) == 1;
        if owner && readers(v) == 0 {
            WriteStep::Acquired
        } else {
            WriteStep::Park { expected: v, have_lock: owner }
        }
    }
}

/// Whom a reader wakes after its release left the word at `v`.
pub open spec fn release_read_spec(v: u32) -> Wake {
    if readers(v) == 0 && writers(v) != 0 {
        Wake::OneWriter
    } else {
        Wake::Nobody
    }
}

/// Whom a writer wakes after its release left the word at `v`.
pub open spec fn release_write_spec(v: u32) -> Wake {
    if writers(v) != 0 {
        Wake::OneWriter
    } else if readers_queued(v) != 0 {
        Wake::AllReaders
    } else {
        Wake::Nobody
    }
}

pub open spec fn lift_read(
    c: Result<u32, Poisoned>,
    queued: bool,
) -> Result<ReadStep, Poisoned> {
    match c {
        Ok(v) => Ok(if queued { read_queued_spec(v) } else { read_active_spec(v) }),
        Err(e) => Err(e),
    }
}

pub open spec fn lift_write(c: Result<u32, Poisoned>) -> Result<WriteStep, Poisoned> {
    match c {
        Ok(v) => Ok(write_spec(false, v)),
        Err(e) => Err(e),
    }
}

pub open spec fn lift_wake(c: Result<u32, Poisoned>, writer: bool) -> Result<Wake, Poisoned> {
    match c {
        Ok(v) => Ok(if writer { release_write_spec(v) } else { release_read_spec(v) }),
        Err(e) => Err(e),
    }
}

proof fn lemma_field_tests(v: u32)
    ensures
        (v & M_WRITERS == 0) == (writers(v) == 0),
        (v & M_WRITERS == ONE_WRITER) == (writers(v) == 1),
        (v & M_READERS_QUEUED == 0) == (readers_queued(v) == 0),
{
    assert((v & M_WRITERS == 0) == (((v & M_WRITERS) >> 20u32) == 0)) by (bit_vector);
    assert((v & M_WRITERS == ONE_WRITER) == (((v & M_WRITERS) >> 20u32) == 1)) by (bit_vector);
    assert((v & M_READERS_QUEUED == 0) == (((v & M_READERS_QUEUED) >> 10u32) == 0))
        by (bit_vector);
}

/// Decides the step of an active reader from the word `v` it left.
pub fn read_active_step(v: u32) -> (r: ReadStep)
    ensures
        r == read_active_spec(v),
{
    proof { lemma_field_tests(v); }
    if v & M_WRITERS == 0 {
        ReadStep::Acquired
    } else {
        ReadStep::Enqueue
    }
}

/// Decides the step of a queued reader from the word `v` it left.
pub fn read_queued_step(v: u32) -> (r: ReadStep)
    ensures
        r == read_queued_spec(v),
{
    proof { lemma_field_tests(v); }
    if v & M_WRITERS != 0 {
        ReadStep::Park { expected: v, wake_writer: v & M_READERS == 0 }
    } else {
        ReadStep::Rejoin
    }
}

/// Decides the step of a writer that observed the word `v`.
pub fn write_step(have_lock: bool, v: u32) -> (r: WriteStep)
    ensures
        r == write_spec(have_lock, v),
{
    proof { lemma_field_tests(v); }
    if have_lock {
        if v & M_READERS == 0 {
            WriteStep::Acquired
        } else {
            WriteStep::Park { expected: v, have_lock: true }
        }
    } else if v & F_WRITE_SHOVE != 0 {
        WriteStep::TakeShove { seen: v }
    } else if v & M_WRITERS == ONE_WRITER {
        if v & M_READERS == 0 {
            WriteStep::Acquired
        } else {
            WriteStep::Park { expected: v, have_lock: true }
        }
    } else {
        WriteStep::Park { expected: v, have_lock: false }
    }
}

/// The word `v` with the handoff flag cleared and every other bit kept: the
/// word that the writer taking the handoff leaves behind.
pub fn without_shove(v: u32) -> (r: u32)
    ensures
        !shove(r),
        readers(r) == readers(v),
        readers_queued(r) == readers_queued(v),
        writers(r) == writers(v),
        r & M_DEATH == v & M_DEATH,
        !shove(v) ==> r == v,
        !dead(v) ==> r == pack(readers(v), readers_queued(v), writers(v), false),
{
    let r = v & !F_WRITE_SHOVE;
    assert({
        &&& r & F_WRITE_SHOVE == 0
        &&& r & M_READERS == v & M_READERS
        &&& r & M_READERS_QUEUED == v & M_READERS_QUEUED
        &&& r & M_WRITERS == v & M_WRITERS
        &&& r & M_DEATH == v & M_DEATH
        &&& v & F_WRITE_SHOVE == 0 ==> r == v
    }) by (bit_vector)
        requires
            r == v & !F_WRITE_SHOVE,
    ;
    proof {
        lemma_pack(v, 0, 0, 0, false);
        lemma_pack(r, 0, 0, 0, false);
    }
    r
}

/// Decides whom a reader wakes after its release left the word at `v`.
pub fn release_read_wake(v: u32) -> (r: Wake)
    ensures
        r == release_read_spec(v),
{
    proof { lemma_field_tests(v); }
    if v & M_READERS == 0 && v & M_WRITERS != 0 {
        Wake::OneWriter
    } else {
        Wake::Nobody
    }
}

/// Decides whom a writer wakes after its release left the word at `v`.
pub fn release_write_wake(v: u32) -> (r: Wake)
    ensures
        r == release_write_spec(v),
{
    proof { lemma_field_tests(v); }
    if v & M_WRITERS != 0 {
        Wake::OneWriter
    } else if v & M_READERS_QUEUED != 0 {
        Wake::AllReaders
    } else {
        Wake::Nobody
    }
}

/// On an uncontended lock each operation is one atomic update and needs no
/// kernel call: a reader arriving where no writer is counted holds the lock,
/// a reader leaving where no writer waits wakes nobody, a writer arriving
/// at a lock with no reader, writer or pending handoff holds it, and a
/// writer leaving with no writer or queued reader behind wakes nobody.
pub proof fn lemma_uncontended(r: u32, q: u32, sh: bool)
    requires
        fields_ok(r, q, 0),
    ensures
        r < 511 ==> lift_read(checked_spec(pack(r, q, 0, sh), ONE_READER), false)
            == Ok::<ReadStep, Poisoned>(ReadStep::Acquired),
        r > 0 ==> lift_wake(checked_spec(pack(r, q, 0, sh), wrap_sub(0, ONE_READER)), false)
            == Ok::<Wake, Poisoned>(Wake::Nobody),
        lift_write(checked_spec(pack(0, q, 0, false), ONE_WRITER)) == Ok::<WriteStep, Poisoned>(
            WriteStep::Acquired,
        ),
        lift_wake(checked_spec(pack(r, 0, 1, sh), wrap_sub(0, ONE_WRITER)), true) == Ok::<
            Wake,
            Poisoned,
        >(Wake::Nobody),
{
    lemma_unit_updates(r, q, 0, sh);
    lemma_unit_updates(0, q, 0, false);
    lemma_unit_updates(r, 0, 1, sh);
    if r < 511 {
        lemma_pack(0, (r + 1) as u32, q, 0, sh);
    }
    if r > 0 {
        lemma_pack(0, (r - 1) as u32, q, 0, sh);
    }
    lemma_pack(0, 0, q, 1, false);
    lemma_pack(0, r, 0, 0, sh);
}

/// Writers go first: a reader arriving while any writer is counted does
/// not take the lock but queues, and once queued it parks on the word it
/// left, waking a writer when no active reader remains to do so.
pub proof fn lemma_writer_preference(r: u32, q: u32, wr: u32, sh: bool)
    requires
        fields_ok(r, q, wr),
        wr > 0,
        r < 511,
        q < 511,
    ensures
        lift_read(checked_spec(pack(r, q, wr, sh), ONE_READER), false) == Ok::<
            ReadStep,
            Poisoned,
        >(ReadStep::Enqueue),
        lift_read(checked_spec(pack((r + 1) as u32, q, wr, sh), READER_TO_QUEUED), true) == Ok::<
            ReadStep,
            Poisoned,
        >(ReadStep::Park { expected: pack(r, (q + 1) as u32, wr, sh), wake_writer: r == 0 }),
{
    lemma_unit_updates(r, q, wr, sh);
    lemma_unit_updates((r + 1) as u32, q, wr, sh);
    lemma_pack(0, (r + 1) as u32, q, wr, sh);
    lemma_pack(0, r, (q + 1) as u32, wr, sh);
}

/// A reader is told that it holds the lock only from a word with no writer
/// counted, and a writer only from a word with no active reader. A writer
/// that does not own the lock yet becomes its owner only as the sole writer
/// with no handoff pending, or by taking the handoff flag.
pub proof fn lemma_exclusive_decisions(have_lock: bool, v: u32)
    ensures
        read_active_spec(v) == ReadStep::Acquired ==> writers(v) == 0,
        read_queued_spec(v) != ReadStep::Rejoin ==> writers(v) != 0,
        write_spec(have_lock, v) == WriteStep::Acquired ==> readers(v) == 0,
        !have_lock && write_spec(have_lock, v) != (WriteStep::Park { expected: v, have_lock: false })
            ==> (shove(v) || writers(v) == 1),
{
}

/// The result of a checked update, by `delta`, of a word that held some
/// value just before it.
pub open spec fn checked_from_some(r: Result<u32, Poisoned>, delta: u32) -> bool {
    exists|pre: u32| #[trigger] checked_spec(pre, delta) == r
}

/// Adds `val` to the word atomically. When the word held a poison bit
/// before or after, the word is poisoned for good and `Poisoned` returned.
fn safe_add(dst: &AtomicU32, val: u32, ordering: Ordering) -> (r: Result<u32, Poisoned>)
    ensures
        checked_from_some(r, val),
{
    let pre = dst.fetch_add(val, ordering);
    let r = checked_add(pre, val);
    if r.is_err() {
        die(dst);
    }
    assert(checked_spec(pre, val) == r);
    r
}

/// Subtracts `val` from the word atomically, as [`safe_add`] adds.
fn safe_sub(dst: &AtomicU32, val: u32, ordering: Ordering) -> (r: Result<u32, Poisoned>)
    ensures
        checked_from_some(r, wrap_sub(0, val)),
{
    let neg = 0u32.wrapping_sub(val);
    assert(neg == wrap_sub(0, val)) by (bit_vector)
        requires
            neg == (if 0 - val < 0 {
                (0 - val + 0x1_0000_0000) as u32
            } else {
                (0 - val) as u32
            }),
    ;
    safe_add(dst, neg, ordering)
}

/// Freezes the word at the poison value, so that every later operation on
/// it fails as well.
fn die(dst: &AtomicU32) {
    dst.store(M_DEATH, Ordering::SeqCst);
}

/// A writer-preferring reader/writer lock in one 32-bit word.
///
/// It is not reentrant and does not track ownership: each release must be
/// paired with an earlier acquire of the same mode. At most 511 active
/// readers, queued readers and writers are supported each; going beyond
/// that poisons the lock, and every operation from then on fails.
pub struct RwFutex {
    futex: AtomicU32,
}

impl RwFutex {
    /// A free lock: the word is zero.
    pub fn new() -> RwFutex {
        RwFutex { futex: AtomicU32::new(0) }
    }

    /// The word that stands behind the lock, for parking and waking on it.
    pub fn word(&self) -> &AtomicU32 {
        &self.futex
    }

    /// Counts the caller among the active readers and decides whether it
    /// holds the read lock: it does when no writer is present.
    pub fn acquire_read(&self) -> (r: Result<ReadStep, Poisoned>)
        ensures
            exists|pre: u32| r == lift_read(#[trigger] checked_spec(pre, ONE_READER), false),
    {
        let c = safe_add(&self.futex, ONE_READER, Ordering::Acquire);
        let ghost pre = choose|pre: u32| #[trigger] checked_spec(pre, ONE_READER) == c;
        match c {
            Ok(v) => Ok(read_active_step(v)),
            Err(e) => Err(e),
        }
    }

    /// Moves the caller from the active readers to the queued ones, in one
    /// update, and decides whether it parks: it does while a writer is
    /// present, after waking one writer when no active reader is left that
    /// would do so on its release.
    pub fn enqueue_read(&self) -> (r: Result<ReadStep, Poisoned>)
        ensures
            exists|pre: u32|
                r == lift_read(#[trigger] checked_spec(pre, READER_TO_QUEUED), true),
    {
        let c = safe_add(&self.futex, READER_TO_QUEUED, Ordering::Acquire);
        let ghost pre = choose|pre: u32|
            #[trigger] checked_spec(pre, READER_TO_QUEUED) == c;
        match c {
            Ok(v) => Ok(read_queued_step(v)),
            Err(e) => Err(e),
        }
    }

    /// Moves the caller from the queued readers back to the active ones, in
    /// one update, and decides whether it now holds the read lock.
    pub fn rejoin_read(&self) -> (r: Result<ReadStep, Poisoned>)
        ensures
            exists|pre: u32|
                r == lift_read(
                    #[trigger] checked_spec(pre, wrap_sub(0, READER_TO_QUEUED)),
                    false,
                ),
    {
        let c = safe_sub(&self.futex, READER_TO_QUEUED, Ordering::Acquire);
        let ghost pre = choose|pre: u32|
            #[trigger] checked_spec(pre, wrap_sub(0, READER_TO_QUEUED)) == c;
        match c {
            Ok(v) => Ok(read_active_step(v)),
            Err(e) => Err(e),
        }
    }

    /// Counts the caller among the writers and decides its next step. It
    /// holds the write lock at once when it is the only writer, no handoff
    /// is pending and no reader is active.
    pub fn acquire_write(&self) -> (r: Result<WriteStep, Poisoned>)
        ensures
            exists|pre: u32| r == lift_write(#[trigger] checked_spec(pre, ONE_WRITER)),
    {
        let c = safe_add(&self.futex, ONE_WRITER, Ordering::Acquire);
        let ghost pre = choose|pre: u32| #[trigger] checked_spec(pre, ONE_WRITER) == c;
        match c {
            Ok(v) => Ok(write_step(false, v)),
            Err(e) => Err(e),
        }
    }

    /// Tries to clear the handoff flag from the word `seen`. The writer that
    /// clears it holds the write lock; one that finds the word changed
    /// decides again on what it found.
    pub fn take_shove(&self, seen: u32) -> (r: WriteStep)
        ensures
            r == WriteStep::Acquired || exists|v: u32| r == #[trigger] write_spec(false, v),
    {
        let taken = without_shove(seen);
        match self.futex.compare_exchange(seen, taken, Ordering::Acquire, Ordering::Acquire) {
            Ok(_) => WriteStep::Acquired,
            Err(actual) => write_step(false, actual),
        }
    }

    /// Reads the word after parking and decides the writer's next step.
    pub fn resume_write(&self, have_lock: bool) -> (r: WriteStep)
        ensures
            exists|v: u32| r == #[trigger] write_spec(have_lock, v),
    {
        let v = self.futex.load(Ordering::Acquire);
        write_step(have_lock, v)
    }

    /// Releases a read lock and says whom to wake: one writer, when this
    /// was the last active reader and a writer waits.
    pub fn release_read(&self) -> (r: Result<Wake, Poisoned>)
        ensures
            exists|pre: u32| r == lift_wake(#[trigger] checked_spec(pre, wrap_sub(0, ONE_READER)), false),
    {
        let c = safe_sub(&self.futex, ONE_READER, Ordering::Release);
        let ghost pre = choose|pre: u32| #[trigger] checked_spec(pre, wrap_sub(0, ONE_READER)) == c;
        match c {
            Ok(v) => Ok(release_read_wake(v)),
            Err(e) => Err(e),
        }
    }

    /// Releases the write lock and says whom to wake: one writer when
    /// writers remain, after setting the handoff flag for them to take;
    /// otherwise every queued reader, if there is one.
    pub fn release_write(&self) -> (r: Result<Wake, Poisoned>)
        ensures
            exists|pre: u32| r == lift_wake(#[trigger] checked_spec(pre, wrap_sub(0, ONE_WRITER)), true),
    {
        let c = safe_sub(&self.futex, ONE_WRITER, Ordering::Release);
        let ghost pre = choose|pre: u32| #[trigger] checked_spec(pre, wrap_sub(0, ONE_WRITER)) == c;
        match c {
            Ok(v) => {
                let w = release_write_wake(v);
                if let Wake::OneWriter = w {
                    self.futex.fetch_or(F_WRITE_SHOVE, Ordering::Release);
                }
                Ok(w)
            },
            Err(e) => Err(e),
        }
    }
}

} // verus!
