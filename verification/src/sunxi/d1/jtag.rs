//! JTAG sink interface
use vstd::prelude::*;
use crate::sunxi::d1::gpio::{Pin, Function};

verus! {

/// Reserved ownership for JTAG interface
///
/// This structure does not provide any working operation of jtag pins,
/// it only represents ownership that these pins are dedicated for jtag use.
pub struct Jtag<PINS> {
    pins: PINS,
}

impl<PINS: Pins> Jtag<PINS> {
    /// The pins held by this instance.
    pub closed spec fn pins(&self) -> PINS {
        self.pins
    }

    /// Create JTAG instance
    pub fn new(pins: PINS) -> (j: Self)
        ensures
            j.pins() == pins,
    {
        Jtag { pins }
    }

    /// Release pins from JTAG instance
    pub fn free(self) -> (p: PINS)
        ensures
            p == self.pins(),
    {
        self.pins
    }
}

/// Pin sets that can carry the JTAG signals.
pub trait Pins {}

// parameter order: tms, tck, tdi, tdo (PF0, PF5, PF1, PF3 in function 4)
impl Pins for (Pin<Function<4>>, Pin<Function<4>>, Pin<Function<4>>, Pin<Function<4>>) {}

} // verus!
