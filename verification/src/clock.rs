//! A monotonic millisecond clock.
//!
//! Freshness arithmetic needs timestamps that never run backwards, so the
//! clock is read through `std::time::Instant`, which the standard library
//! documents as monotonic. A reading is the number of whole milliseconds
//! since the clock was created. The `floor` field records the largest
//! reading handed out so far; every later reading is at least that large,
//! which is the one fact the rest of the crate relies on.

use vstd::prelude::*;

verus! {

/// Relies on `std::time::Instant` from the standard library; the type is
/// only carried around opaquely here.
#[verifier::external_type_specification]
#[verifier::external_body]
pub struct ExInstant(std::time::Instant);

/// A source of millisecond timestamps that never decrease.
pub struct MonoClock {
    start: std::time::Instant,
    floor: u64,
}

impl MonoClock {
    /// The largest reading this clock has handed out so far: a lower bound
    /// on every future reading.
    pub closed spec fn floor_ms(self) -> u64 {
        self.floor
    }

    /// Relies on `std::time::Instant::now`: the returned instant serves only
    /// as the clock's origin, so nothing is assumed about its value.
    #[verifier::external_body]
    pub fn new() -> (r: MonoClock)
        ensures
            r.floor_ms() == 0,
    {
        MonoClock { start: std::time::Instant::now(), floor: 0 }
    }

    /// Relies on `std::time::Instant::elapsed` and `Duration::as_millis`:
    /// `Instant` is documented monotonic, so successive elapsed times never
    /// decrease; the body additionally clamps the reading to the recorded
    /// floor, so the stated bound holds even if that guarantee failed.
    #[verifier::external_body]
    pub fn now_ms(&mut self) -> (r: u64)
        ensures
            r >= old(self).floor_ms(),
            final(self).floor_ms() == r,
    {
        let t = self.start.elapsed().as_millis() as u64;
        if t > self.floor {
            self.floor = t;
        }
        self.floor
    }

    /// Relies on the same monotonicity as `now_ms`; this read-only variant
    /// does not advance the recorded floor.
    #[verifier::external_body]
    pub fn peek_ms(&self) -> (r: u64)
        ensures
            r >= self.floor_ms(),
    {
        let t = self.start.elapsed().as_millis() as u64;
        if t > self.floor {
            t
        } else {
            self.floor
        }
    }
}

} // verus!
