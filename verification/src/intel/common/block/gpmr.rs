//! General purpose memory range registers, reached through the DMI port.
use vstd::prelude::*;
use crate::mmio::{Mmio, st_write};
use crate::intel::common::block::pcr::{pcr_write32, spec_pcr_reg_address};
use crate::intel::apollolake::pcr_ids::PID_DMI;

verus! {

/// LPC generic memory range mirror.
pub const GPMR_LPCGMR: u16 = 0x2740;
/// LPC I/O enables mirror.
pub const GPMR_LPCIOE: u16 = 0x2774;

/// IOC register write; this SoC has no IOC block, so nothing is written.
pub fn ioc_reg_write32(_offset: u32, _val: u32) {
}

/// Writes a GPMR register (through the DMI PCR port).
pub fn gpmr_write32(pcr: &mut Mmio, offset: u16, val: u32)
    requires
        offset % 4 == 0,
    ensures
        final(pcr).state() == st_write(old(pcr).state(), spec_pcr_reg_address(PID_DMI as u8, offset), val),
{
    pcr_write32(pcr, PID_DMI as u8, offset, val);
}

} // verus!
