//! A low-level scanning and recognition toolkit.
//!
//! The engine walks a borrowed, contiguous input sequence with a cursor,
//! trying at each position to recognize a pattern and advance past it on
//! success. Recognized output is always a sub-view of the original input,
//! never a copy.

pub mod bytes;
pub mod errors;
pub mod matcher;
pub mod recognizer;
pub mod scanner;
pub mod turbofish;
