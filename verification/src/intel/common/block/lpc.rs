//! LPC bridge: fixed I/O decode ranges and the generic memory window.
use vstd::prelude::*;
use crate::mmio::{Mmio, RegState, st_write, st_write_lanes};
use crate::pci::{pci_read_config16, pci_read_config32, pci_write_config16, pci_write_config32,
    spec_read16, cfg_word_addr};
use crate::intel::common::block::gpmr::{gpmr_write32, GPMR_LPCGMR, GPMR_LPCIOE};
use crate::intel::common::block::pcr::spec_pcr_reg_address;
use crate::intel::apollolake::pci_devs::PCH_DEV_LPC;

verus! {

pub const LPC_IO_ENABLES: u16 = 0x82;
pub const LPC_GENERIC_MEM_RANGE: u16 = 0x98;
pub const LPC_LGMR_ADDR_MASK: u32 = 0xffff_0000;
pub const LPC_LGMR_EN: u32 = 1;
pub const LPC_LGMR_WINDOW_SIZE: usize = 64 * 1024;
pub const LPC_IOE_EC_62_66: u32 = 1 << 11;
pub const LPC_IOE_KBC_60_64: u32 = 1 << 10;
pub const LPC_IOE_LGE_200: u32 = 1 << 8;

/// Enables the fixed I/O ranges of `io_enables` in addition to those already
/// enabled, mirroring the result into the GPMR when `mirror_to_gpmr`; returns
/// the enables now in force.
pub fn lpc_enable_fixed_io_ranges(
    cfg: &mut Mmio,
    pcr: &mut Mmio,
    mirror_to_gpmr: bool,
    io_enables: u16,
) -> (r: u16)
    ensures
        r == io_enables | spec_read16(old(cfg).regs(), PCH_DEV_LPC, LPC_IO_ENABLES),
        final(cfg).state() == st_write_lanes(
            old(cfg).state(),
            cfg_word_addr(PCH_DEV_LPC, LPC_IO_ENABLES),
            (LPC_IO_ENABLES % 4) as u64,
            2,
            r as u32,
        ),
        mirror_to_gpmr ==> final(pcr).state() == st_write(
            old(pcr).state(),
            spec_pcr_reg_address(0, GPMR_LPCIOE),
            r as u32,
        ),
        !mirror_to_gpmr ==> *final(pcr) == *old(pcr),
{
    let reg_io_enables = pci_read_config16(cfg, PCH_DEV_LPC, LPC_IO_ENABLES);
    let io_enables = io_enables | reg_io_enables;
    pci_write_config16(cfg, PCH_DEV_LPC, LPC_IO_ENABLES, io_enables);
    if mirror_to_gpmr {
        gpmr_write32(pcr, GPMR_LPCIOE, io_enables as u32);
    }
    io_enables
}

/// Value of the LPC generic memory range register for a window at `base`.
pub open spec fn spec_lgmr(base: usize) -> u32 {
    ((base as u32) & 0xffff_0000) | 1
}

/// Opens the LPC generic memory window at `base`, unless a window is already
/// open (enable bit set); mirrors it into the GPMR when `mirror_to_gpmr`.
/// Returns whether the window was opened.
pub fn lpc_open_mmio_window(
    cfg: &mut Mmio,
    pcr: &mut Mmio,
    mirror_to_gpmr: bool,
    base: usize,
    size: usize,
) -> (opened: bool)
    ensures
        opened == (old(cfg).value(cfg_word_addr(PCH_DEV_LPC, LPC_GENERIC_MEM_RANGE)) & 1 == 0),
        !opened ==> *final(cfg) == *old(cfg) && *final(pcr) == *old(pcr),
        opened ==> final(cfg).state() == st_write(
            old(cfg).state(),
            cfg_word_addr(PCH_DEV_LPC, LPC_GENERIC_MEM_RANGE),
            spec_lgmr(base),
        ),
        opened && mirror_to_gpmr ==> final(pcr).state() == st_write(
            old(pcr).state(),
            spec_pcr_reg_address(0, GPMR_LPCGMR),
            spec_lgmr(base),
        ),
        opened && !mirror_to_gpmr ==> *final(pcr) == *old(pcr),
{
    let lgmr = pci_read_config32(cfg, PCH_DEV_LPC, LPC_GENERIC_MEM_RANGE);
    if lgmr & LPC_LGMR_EN != 0 {
        return false;
    }
    let _too_large = size > LPC_LGMR_WINDOW_SIZE;
    let lgmr = ((base as u32) & LPC_LGMR_ADDR_MASK) | LPC_LGMR_EN;
    pci_write_config32(cfg, PCH_DEV_LPC, LPC_GENERIC_MEM_RANGE, lgmr);
    if mirror_to_gpmr {
        gpmr_write32(pcr, GPMR_LPCGMR, lgmr);
    }
    true
}

} // verus!
