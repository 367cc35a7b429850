//! Futex-based synchronization primitives: a mutex and a writer-preferring
//! reader/writer lock whose whole state is packed into one 32-bit word.
//!
//! The library performs every atomic update of the lock words and decides,
//! after each one, what the caller has to do next. Parking on the word and
//! waking parked threads is left to the caller's wait/wake facility.
pub mod layout;
pub mod mutex;
pub mod rwlock;

pub use mutex::Futex;
pub use rwlock::RwFutex;
