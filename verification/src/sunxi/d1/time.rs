//! Units of rate and frequency.
use vstd::prelude::*;

verus! {

/// Bits per second
#[derive(Copy, Clone, PartialEq, Eq, Structural, PartialOrd, Ord, Debug)]
pub struct Bps(pub u32);

/// Hertz
#[derive(Copy, Clone, PartialEq, Eq, Structural, PartialOrd, Ord, Debug)]
pub struct Hz(pub u32);

/// Extension trait that adds convenience methods to the `u32` type
pub trait U32Ext: Sized {
    /// Wrap in `Bps`
    fn bps(self) -> Bps;

    /// Wrap in `Hz`
    fn hz(self) -> Hz;
}

impl U32Ext for u32 {
    fn bps(self) -> (r: Bps)
        ensures
            r.0 == self,
    {
        Bps(self)
    }

    fn hz(self) -> (r: Hz)
        ensures
            r.0 == self,
    {
        Hz(self)
    }
}

} // verus!
