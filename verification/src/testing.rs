//! What tests of code that uses a limiter need.

pub use crate::clock::MockClock;
