//! The counter store: one signed 32-bit value with read, add and reset.
//!
//! The store is constructed once and shared by reference among every
//! connection handler; the caller outside the library wraps it in a lock, so
//! every operation here sees the value alone and takes effect atomically.

use vstd::prelude::*;

verus! {

/// The single shared integer state exposed by the service.
pub struct Counter {
    value: i32,
}

/// What a read yields on a counter holding `c`.
pub open spec fn spec_read(c: int) -> int {
    c
}

/// The counter value after adding `delta` to a counter holding `c`.
pub open spec fn spec_add(c: int, delta: int) -> int {
    c + delta
}

/// The counter value after resetting a counter holding `c`.
pub open spec fn spec_reset(c: int) -> int {
    0
}

impl View for Counter {
    type V = int;

    closed spec fn view(&self) -> int {
        self.value as int
    }
}

impl Counter {
    /// A fresh counter holds zero.
    pub fn new() -> (c: Counter)
        ensures
            c@ == 0,
    {
        Counter { value: 0 }
    }

    /// Returns the current value without mutating it.
    pub fn read(&self) -> (r: i32)
        ensures
            r as int == spec_read(self@),
    {
        self.value
    }

    /// Adds `delta` to the value and returns the new value.
    pub fn add(&mut self, delta: i32) -> (r: i32)
        requires
            i32::MIN <= old(self)@ + delta <= i32::MAX,
        ensures
            final(self)@ == spec_add(old(self)@, delta as int),
            r as int == final(self)@,
    {
        self.value = self.value + delta;
        self.value
    }

    /// Sets the value to zero and returns zero.
    pub fn reset(&mut self) -> (r: i32)
        ensures
            final(self)@ == spec_reset(old(self)@),
            r as int == final(self)@,
    {
        self.value = 0;
        self.value
    }
}

} // verus!
