//! Bit layout of the reader/writer lock word and the overflow-checked
//! arithmetic on it.
use vstd::prelude::*;

verus! {

/// Poison marker: one bit above each counter field and the top bit. Any
/// carry out of (or borrow into) a counter field lights one of them.
pub const M_DEATH: u32 = 0b10100000000010000000001000000000;

/// Writer handoff flag, set by a departing writer for the next one to take.
pub const F_WRITE_SHOVE: u32 = 0b01000000000000000000000000000000;

/// Writers, active and waiting.
pub const M_WRITERS: u32 = 0b00011111111100000000000000000000;

/// Readers parked in the kernel.
pub const M_READERS_QUEUED: u32 = 0b00000000000001111111110000000000;

/// Readers holding the lock.
pub const M_READERS: u32 = 0b00000000000000000000000111111111;

pub const ONE_WRITER: u32 = 0b00000000000100000000000000000000;

pub const ONE_READER_QUEUED: u32 = 0b00000000000000000000010000000000;

pub const ONE_READER: u32 = 0b00000000000000000000000000000001;

/// Moves one reader from the active readers to the queued ones.
pub const READER_TO_QUEUED: u32 = ONE_READER_QUEUED - ONE_READER;

/// Largest value each counter field can hold.
pub const FIELD_MAX: u32 = 511;

/// Wait/wake mask of parked readers.
pub const ID_READER: u32 = 1;

/// Wait/wake mask of parked writers.
pub const ID_WRITER: u32 = 2;

/// The lock word is poisoned.
#[derive(PartialEq, Eq, Structural, Debug, Clone, Copy)]
pub struct Poisoned;

pub open spec fn readers(w: u32) -> u32 {
    w & M_READERS
}

pub open spec fn readers_queued(w: u32) -> u32 {
    (w & M_READERS_QUEUED) >> 10u32
}

pub open spec fn writers(w: u32) -> u32 {
    (w & M_WRITERS) >> 20u32
}

pub open spec fn shove(w: u32) -> bool {
    w & F_WRITE_SHOVE != 0
}

pub open spec fn dead(w: u32) -> bool {
    w & M_DEATH != 0
}

/// The word holding the given field values, with no poison bit.
pub open spec fn pack(r: u32, q: u32, wr: u32, sh: bool) -> u32 {
    (r | (q << 10u32) | (wr << 20u32) | (if sh { F_WRITE_SHOVE } else { 0u32 })) as u32
}

/// Addition modulo 2^32, as the atomic `fetch_add` performs it.
pub open spec fn wrap_add(a: u32, b: u32) -> u32 {
    (a + b) as u32
}

/// Subtraction modulo 2^32.
pub open spec fn wrap_sub(a: u32, b: u32) -> u32 {
    (a - b) as u32
}

/// What an overflow-checked update of the word by `delta` yields, given the
/// value `pre` that the word held just before it.
pub open spec fn checked_spec(pre: u32, delta: u32) -> Result<u32, Poisoned> {
    let post = wrap_add(pre, delta);
    if dead(pre) || dead(post) {
        Err(Poisoned)
    } else {
        Ok(post)
    }
}

/// Adds `delta` to a word that held `pre`, failing when either the old or
/// the new word carries a poison bit.
pub fn checked_add(pre: u32, delta: u32) -> (r: Result<u32, Poisoned>)
    ensures
        r == checked_spec(pre, delta),
{
    let post = pre.wrapping_add(delta);
    assert(post == wrap_add(pre, delta)) by (bit_vector)
        requires
            post == (if pre + delta > 0xffff_ffff {
                (pre + delta - 0x1_0000_0000) as u32
            } else {
                (pre + delta) as u32
            }),
    ;
    if pre & M_DEATH != 0 || post & M_DEATH != 0 {
        Err(Poisoned)
    } else {
        Ok(post)
    }
}

/// Counter values that fit their fields.
pub open spec fn fields_ok(r: u32, q: u32, wr: u32) -> bool {
    r <= FIELD_MAX && q <= FIELD_MAX && wr <= FIELD_MAX
}

/// Every word without a poison bit is the packing of its four fields, and a
/// packing of fields in range reads back as those fields.
pub proof fn lemma_pack(w: u32, r: u32, q: u32, wr: u32, sh: bool)
    ensures
        !dead(w) ==> w == pack(readers(w), readers_queued(w), writers(w), shove(w)),
        !dead(w) ==> fields_ok(readers(w), readers_queued(w), writers(w)),
        fields_ok(r, q, wr) ==> {
            let p = pack(r, q, wr, sh);
            &&& !dead(p)
            &&& readers(p) == r
            &&& readers_queued(p) == q
            &&& writers(p) == wr
            &&& shove(p) == sh
        },
{
    let f = if sh { F_WRITE_SHOVE } else { 0u32 };
    assert(!dead(w) ==> w == ((w & M_READERS) | (((w & M_READERS_QUEUED) >> 10u32) << 10u32)
        | (((w & M_WRITERS) >> 20u32) << 20u32) | (w & F_WRITE_SHOVE))) by (bit_vector);
    assert(!dead(w) ==> ((w & M_READERS) <= 511 && ((w & M_READERS_QUEUED) >> 10u32) <= 511
        && ((w & M_WRITERS) >> 20u32) <= 511)) by (bit_vector);
    assert((f == F_WRITE_SHOVE || f == 0) && r <= 511 && q <= 511 && wr <= 511 ==> {
        let p = r | (q << 10u32) | (wr << 20u32) | f;
        &&& p & M_DEATH == 0
        &&& p & M_READERS == r
        &&& (p & M_READERS_QUEUED) >> 10u32 == q
        &&& (p & M_WRITERS) >> 20u32 == wr
        &&& (p & F_WRITE_SHOVE) == f
    }) by (bit_vector);
    assert((w & F_WRITE_SHOVE != 0) ==> (w & F_WRITE_SHOVE) == F_WRITE_SHOVE) by (bit_vector);
}

/// Each update that the protocol makes moves one counter by one and leaves
/// the other fields alone, as long as the counter stays within its field.
/// An update that would take a counter above 511 or below 0 poisons the
/// word instead.
pub proof fn lemma_unit_updates(r: u32, q: u32, wr: u32, sh: bool)
    requires
        fields_ok(r, q, wr),
    ensures
        checked_spec(pack(r, q, wr, sh), ONE_READER) == if r < 511 {
            Ok(pack((r + 1) as u32, q, wr, sh))
        } else {
            Err(Poisoned)
        },
        checked_spec(pack(r, q, wr, sh), wrap_sub(0, ONE_READER)) == if r > 0 {
            Ok(pack((r - 1) as u32, q, wr, sh))
        } else {
            Err(Poisoned)
        },
        checked_spec(pack(r, q, wr, sh), ONE_READER_QUEUED) == if q < 511 {
            Ok(pack(r, (q + 1) as u32, wr, sh))
        } else {
            Err(Poisoned)
        },
        checked_spec(pack(r, q, wr, sh), READER_TO_QUEUED) == if r > 0 && q < 511 {
            Ok(pack((r - 1) as u32, (q + 1) as u32, wr, sh))
        } else {
            Err(Poisoned)
        },
        checked_spec(pack(r, q, wr, sh), wrap_sub(0, READER_TO_QUEUED)) == if q > 0 && r < 511 {
            Ok(pack((r + 1) as u32, (q - 1) as u32, wr, sh))
        } else {
            Err(Poisoned)
        },
        checked_spec(pack(r, q, wr, sh), ONE_WRITER) == if wr < 511 {
            Ok(pack(r, q, (wr + 1) as u32, sh))
        } else {
            Err(Poisoned)
        },
        checked_spec(pack(r, q, wr, sh), wrap_sub(0, ONE_WRITER)) == if wr > 0 {
            Ok(pack(r, q, (wr - 1) as u32, sh))
        } else {
            Err(Poisoned)
        },
{
    let f = if sh { F_WRITE_SHOVE } else { 0u32 };
    lemma_pack(0, r, q, wr, sh);
    assert((f == F_WRITE_SHOVE || f == 0) && r <= 511 && q <= 511 && wr <= 511 ==> {
        let p = r | (q << 10u32) | (wr << 20u32) | f;
        let v = (p + 1u32) as u32;
        &&& (r < 511) ==> v & M_DEATH == 0 && v == ((r + 1) as u32 | (q << 10u32) | (wr << 20u32) | f)
        &&& !(r < 511) ==> v & M_DEATH != 0
    }) by (bit_vector);
    assert(wrap_sub(0, ONE_READER) == 0xffff_ffffu32) by (bit_vector);
    assert((f == F_WRITE_SHOVE || f == 0) && r <= 511 && q <= 511 && wr <= 511 ==> {
        let p = r | (q << 10u32) | (wr << 20u32) | f;
        let v = (p + 0xffff_ffffu32) as u32;
        &&& (r > 0) ==> v & M_DEATH == 0 && v == ((r - 1) as u32 | (q << 10u32) | (wr << 20u32) | f)
        &&& !(r > 0) ==> v & M_DEATH != 0
    }) by (bit_vector);
    assert((f == F_WRITE_SHOVE || f == 0) && r <= 511 && q <= 511 && wr <= 511 ==> {
        let p = r | (q << 10u32) | (wr << 20u32) | f;
        let v = (p + 0x400u32) as u32;
        &&& (q < 511) ==> v & M_DEATH == 0 && v == (r | (((q + 1) as u32) << 10u32) | (wr << 20u32) | f)
        &&& !(q < 511) ==> v & M_DEATH != 0
    }) by (bit_vector);
    assert((f == F_WRITE_SHOVE || f == 0) && r <= 511 && q <= 511 && wr <= 511 ==> {
        let p = r | (q << 10u32) | (wr << 20u32) | f;
        let v = (p + 0x3ffu32) as u32;
        &&& (r > 0 && q < 511) ==> v & M_DEATH == 0 && v == ((r - 1) as u32 | (((q + 1) as u32) << 10u32) | (wr << 20u32) | f)
        &&& !(r > 0 && q < 511) ==> v & M_DEATH != 0
    }) by (bit_vector);
    assert(wrap_sub(0, READER_TO_QUEUED) == 0xffff_fc01u32) by (bit_vector);
    assert((f == F_WRITE_SHOVE || f == 0) && r <= 511 && q <= 511 && wr <= 511 ==> {
        let p = r | (q << 10u32) | (wr << 20u32) | f;
        let v = (p + 0xffff_fc01u32) as u32;
        &&& (q > 0 && r < 511) ==> v & M_DEATH == 0 && v == ((r + 1) as u32 | (((q - 1) as u32) << 10u32) | (wr << 20u32) | f)
        &&& !(q > 0 && r < 511) ==> v & M_DEATH != 0
    }) by (bit_vector);
    assert((f == F_WRITE_SHOVE || f == 0) && r <= 511 && q <= 511 && wr <= 511 ==> {
        let p = r | (q << 10u32) | (wr << 20u32) | f;
        let v = (p + 0x10_0000u32) as u32;
        &&& (wr < 511) ==> v & M_DEATH == 0 && v == (r | (q << 10u32) | (((wr + 1) as u32) << 20u32) | f)
        &&& !(wr < 511) ==> v & M_DEATH != 0
    }) by (bit_vector);
    assert(wrap_sub(0, ONE_WRITER) == 0xfff0_0000u32) by (bit_vector);
    assert((f == F_WRITE_SHOVE || f == 0) && r <= 511 && q <= 511 && wr <= 511 ==> {
        let p = r | (q << 10u32) | (wr << 20u32) | f;
        let v = (p + 0xfff0_0000u32) as u32;
        &&& (wr > 0) ==> v & M_DEATH == 0 && v == (r | (q << 10u32) | (((wr - 1) as u32) << 20u32) | f)
        &&& !(wr > 0) ==> v & M_DEATH != 0
    }) by (bit_vector);
}

/// The word after `n` checked updates by `delta` in a row, starting at `w`,
/// with no other update in between; the first failing one ends the run.
pub open spec fn repeat_checked(w: u32, delta: u32, n: nat) -> Result<u32, Poisoned>
    decreases n,
{
    if n == 0 {
        Ok(w)
    } else {
        match checked_spec(w, delta) {
            Ok(v) => repeat_checked(v, delta, (n - 1) as nat),
            Err(e) => Err(e),
        }
    }
}

/// `n` reader arrivals followed by `n` reader departures leave every field
/// of the word as it was.
pub proof fn lemma_reads_pair(r: u32, q: u32, wr: u32, sh: bool, n: nat)
    requires
        fields_ok(r, q, wr),
        r + n <= FIELD_MAX,
    ensures
        repeat_checked(pack(r, q, wr, sh), ONE_READER, n) == Ok::<u32, Poisoned>(
            pack((r + n) as u32, q, wr, sh),
        ),
        repeat_checked(pack((r + n) as u32, q, wr, sh), wrap_sub(0, ONE_READER), n) == Ok::<
            u32,
            Poisoned,
        >(pack(r, q, wr, sh)),
    decreases n,
{
    if n > 0 {
        lemma_unit_updates(r, q, wr, sh);
        lemma_reads_pair((r + 1) as u32, q, wr, sh, (n - 1) as nat);
        lemma_unit_updates((r + n) as u32, q, wr, sh);
        lemma_reads_pair(r, q, wr, sh, (n - 1) as nat);
    }
}

/// Taking the active readers above 511 poisons the word: a run of reader
/// arrivals that would do so fails.
pub proof fn lemma_reads_overflow(r: u32, q: u32, wr: u32, sh: bool, n: nat)
    requires
        fields_ok(r, q, wr),
        r + n > FIELD_MAX,
    ensures
        repeat_checked(pack(r, q, wr, sh), ONE_READER, n) == Err::<u32, Poisoned>(Poisoned),
    decreases n,
{
    lemma_unit_updates(r, q, wr, sh);
    if r < FIELD_MAX {
        lemma_reads_overflow((r + 1) as u32, q, wr, sh, (n - 1) as nat);
    }
}

/// Poison is for good: from a poisoned word every run of updates fails,
/// whatever they add, and the poison value itself is poisoned.
pub proof fn lemma_poison_sticky(w: u32, delta: u32, n: nat)
    requires
        dead(w),
        n > 0,
    ensures
        repeat_checked(w, delta, n) == Err::<u32, Poisoned>(Poisoned),
        dead(M_DEATH),
{
    assert(M_DEATH & M_DEATH != 0) by (bit_vector);
}

} // verus!
