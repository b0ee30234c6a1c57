//! Machine software interrupt pending register of hart 0.
use vstd::prelude::*;
use crate::mmio::{Mmio, st_write};
use crate::sunxi::d1::clint::{CLINT_BASE, MSIP0};

verus! {

/// Raises the software interrupt: a 64-bit store of 1, which reaches the
/// bus as the low word 1 and the high word 0.
pub fn set_ipi(bus: &mut Mmio, _word: usize)
    ensures
        final(bus).state() == st_write(
            st_write(old(bus).state(), (CLINT_BASE + MSIP0) as u64, 1),
            (CLINT_BASE + MSIP0 + 4) as u64,
            0,
        ),
{
    bus.write32(CLINT_BASE + MSIP0, 1);
    bus.write32(CLINT_BASE + MSIP0 + 4, 0);
}

/// Clears the software interrupt with a 32-bit store of 0.
pub fn clear_ipi(bus: &mut Mmio, _word: usize)
    ensures
        final(bus).state() == st_write(old(bus).state(), (CLINT_BASE + MSIP0) as u64, 0),
{
    bus.write32(CLINT_BASE + MSIP0, 0);
}

} // verus!
