//! The pieces of the engine: errors, the process handle and its input channel, and the
//! output drainer with the execution loop.
pub mod child_ext;
pub mod common;
pub mod errors;
