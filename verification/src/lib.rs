//! A single-pass streaming scanner for JSON-shaped byte input, together with
//! the repeated-trial accumulation that a benchmark harness performs on it.
//!
//! The scanner walks a byte sequence once, tracking whether it is inside a
//! string literal or a number literal, and accumulates four counters:
//! structural tokens, number literals, the signed sum of those numbers, and
//! string-content bytes. It validates nothing and never fails: every byte
//! sequence yields some result tuple.

pub mod harness;
pub mod scanner;
