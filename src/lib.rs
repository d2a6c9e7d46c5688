//! A cooperative, allocation-free task runtime for a single-core board:
//! a wide tick source built from a narrow counter, one-shot deadlines,
//! a single-slot mailbox, and a round-robin executor over a fixed set of
//! button and LED tasks. Pins and counters are read and driven by the caller;
//! this crate decides what happens.
pub mod poll;
pub mod time;
pub mod channel;
pub mod button;
pub mod led;
pub mod executor;
