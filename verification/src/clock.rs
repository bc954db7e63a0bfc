//! The wall-clock deadline that bounds the extraction loop.

use vstd::prelude::*;

verus! {

#[verifier::external_type_specification]
#[verifier::external_body]
pub struct ExInstant(std::time::Instant);

pub assume_specification[ std::time::Instant::now ]() -> std::time::Instant;

/// A wall-clock deadline: a start instant and a bound in whole seconds.
/// Checked cooperatively, once per loop iteration, before each candidate
/// is processed.
pub struct Deadline {
    pub start: std::time::Instant,
    pub timeout_secs: u64,
}

impl Deadline {
    /// Starts the clock for a deadline of `timeout_secs` seconds from now.
    pub fn begin(timeout_secs: u64) -> (r: Deadline)
        ensures
            r.timeout_secs == timeout_secs,
    {
        Deadline { start: std::time::Instant::now(), timeout_secs }
    }

    /// Relies on `std::time::Instant::elapsed` and
    /// `std::time::Duration::from_secs`: the elapsed time is a `Duration`,
    /// which is never below zero, so a zero-second deadline has always
    /// expired. Any other outcome depends on the wall clock and is left open.
    #[verifier::external_body]
    pub fn expired(&self) -> (r: bool)
        ensures
            self.timeout_secs == 0 ==> r,
    {
        self.start.elapsed() >= std::time::Duration::from_secs(self.timeout_secs)
    }
}

} // verus!
