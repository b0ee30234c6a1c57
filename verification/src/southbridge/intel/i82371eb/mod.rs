//! Intel 82371EB (PIIX4E) south bridge.
use vstd::prelude::*;

pub mod wakeup;

verus! {

/// Default I/O base of the power management registers.
pub const DEFAULT_PMBASE: u16 = 0xe400;
/// Power management control register, relative to the PM base.
pub const PMCNTRL: u16 = 0x04;

} // verus!
