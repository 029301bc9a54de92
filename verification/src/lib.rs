//! A replay engine for relaying messages from one queue to another.
//!
//! The engine drives a batched fetch -> transform -> send -> acknowledge loop:
//! it decides, step by step, which queue operation the caller should perform
//! next, and folds the outcome of each operation back into its state.  Every
//! transferred message keeps its body verbatim, receives a freshly drawn
//! deduplication identity, and carries the single caller-supplied group id,
//! so that a whole run lands in one ordered group in the destination queue.
//!
//! The queue operations themselves (receive, send, delete, list) are network
//! calls and stay with the caller; the engine only decides and records.

pub mod engine;
pub mod listing;
pub mod messages;
pub mod runs;
