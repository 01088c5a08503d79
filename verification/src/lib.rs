//! Verified micro-benchmark harness for ASCII-uppercase conversion.
//!
//! The library holds three uppercase transforms over byte buffers (a naive
//! branching loop, a branchless arithmetic variant, and the standard
//! library's conversion), a random alphanumeric string generator, the
//! timed benchmark runner that validates each transform against an
//! independent reference, and the command-line argument validation.

pub mod bench;
pub mod cli;
pub mod random;
pub mod upper;
