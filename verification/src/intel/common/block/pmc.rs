//! Power management controller: the PM1 control register.
use vstd::prelude::*;
use crate::mmio::{Mmio, st_write};

verus! {

/// ACPI I/O base of the Apollo Lake / Gemini Lake PMC.
pub const ACPI_BASE_ADDRESS: u32 = 0x400;
/// PM1 control register offset within the ACPI I/O block.
pub const PM1_CNT: u8 = 0x04;
/// Sleep enable bit of PM1_CNT.
pub const SLP_EN: u32 = 1 << 13;
/// Position of the sleep type field of PM1_CNT.
pub const SLP_TYP_SHIFT: u32 = 10;
/// Sleep type of S5 (soft off).
pub const SLP_TYP_S5: u32 = 7;

/// I/O port of PM1_CNT.
pub open spec fn pm1_port() -> u64 {
    (ACPI_BASE_ADDRESS + PM1_CNT) as u64
}

pub fn read_pm1_control(io: &Mmio) -> (v: u32)
    ensures
        v == io.value(pm1_port()),
{
    io.read32((ACPI_BASE_ADDRESS + PM1_CNT as u32) as u64)
}

pub fn write_pm1_control(io: &mut Mmio, pm1_cnt: u32)
    ensures
        final(io).state() == st_write(old(io).state(), pm1_port(), pm1_cnt),
{
    io.write32((ACPI_BASE_ADDRESS + PM1_CNT as u32) as u64, pm1_cnt);
}

/// Sets the bits of `mask` in PM1_CNT.
pub fn enable_pm1_control(io: &mut Mmio, mask: u32)
    ensures
        final(io).state() == st_write(old(io).state(), pm1_port(), old(io).value(pm1_port()) | mask),
{
    let mut pm1_cnt = read_pm1_control(io);
    pm1_cnt = pm1_cnt | mask;
    write_pm1_control(io, pm1_cnt);
}

/// Requests S5 by setting SLP_EN with sleep type S5.  In SMM the caller must
/// then halt so that the SLP_SMI handler can run.
pub fn poweroff(io: &mut Mmio)
    ensures
        final(io).state() == st_write(old(io).state(), pm1_port(), old(io).value(pm1_port()) | 0x3c00),
{
    assert((1u32 << 13u32) | (7u32 << 10u32) == 0x3c00u32) by (bit_vector);
    enable_pm1_control(io, SLP_EN | (SLP_TYP_S5 << SLP_TYP_SHIFT));
}

} // verus!
