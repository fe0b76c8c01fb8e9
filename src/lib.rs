//! A spinning reader-writer lock over one atomic state word.
//!
//! - `word`: the state word as a plain value, and what each atomic operation
//!   does to it.
//! - `protocol`: the word together with what the threads hold, each atomic
//!   operation as one step, and the laws that hold under every interleaving.
//! - `raw`: the lock itself, one atomic word and one attempt per method.

pub mod protocol;
pub mod raw;
pub mod word;

pub use raw::RawRwSpinlock;
pub use word::LockWord;
