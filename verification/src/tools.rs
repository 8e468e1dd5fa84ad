//! The machine and its environment: programs on the search path, the
//! number of CPUs, and the monotonic clock.

use vstd::prelude::*;
use std::time::{Duration, Instant};

verus! {

/// Finds a program on the search path with `which::which` and gives its
/// path as text. What comes back depends on the machine's environment;
/// nothing is stated of it.
#[verifier::external_body]
pub(crate) fn find_tool(name: &str) -> (res: Option<String>) {
    match which::which(name) {
        Ok(p) => Some(p.to_string_lossy().to_string()),
        Err(_) => None,
    }
}

/// The standard library's monotonic clock reading, carried through opaquely.
#[verifier::external_type_specification]
#[verifier::external_body]
pub struct ExInstant(Instant);

/// Reads the clock with `Instant::now`. Nothing is stated of the reading.
#[verifier::external_body]
pub(crate) fn clock_now() -> (res: Instant) {
    Instant::now()
}

/// The time since a reading, from `Instant::elapsed`. It depends on when it
/// is called; nothing is stated of it.
#[verifier::external_body]
pub(crate) fn clock_elapsed(start: &Instant) -> (res: Duration) {
    start.elapsed()
}

/// The whole milliseconds of a duration, from `Duration::as_millis`. The
/// duration is opaque here, so nothing is stated of the number.
#[verifier::external_body]
pub(crate) fn duration_millis(d: &Duration) -> (res: u128) {
    d.as_millis()
}

/// The number of logical CPUs from `num_cpus::get`, which the crate
/// documents as always at least 1.
#[verifier::external_body]
pub(crate) fn logical_cpus() -> (res: usize)
    ensures
        res >= 1,
{
    num_cpus::get()
}

/// The number of physical cores from `num_cpus::get_physical`, which the
/// crate documents as always at least 1.
#[verifier::external_body]
pub(crate) fn physical_cpus() -> (res: usize)
    ensures
        res >= 1,
{
    num_cpus::get_physical()
}

} // verus!
