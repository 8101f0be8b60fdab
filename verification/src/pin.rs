//! A stand-in output pin.

use vstd::prelude::*;

verus! {

/// An output pin that accepts every level change and does nothing: a
/// stand-in where a pin is required but no hardware line is attached.
pub struct DummyPin;

impl DummyPin {
    /// Drives the pin high; accepted and ignored, never fails.
    pub fn set_high(&mut self) -> (r: Result<(), ()>)
        ensures
            r is Ok,
    {
        Ok(())
    }

    /// Drives the pin low; accepted and ignored, never fails.
    pub fn set_low(&mut self) -> (r: Result<(), ()>)
        ensures
            r is Ok,
    {
        Ok(())
    }
}

} // verus!
