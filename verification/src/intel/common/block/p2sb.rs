//! Primary to sideband bridge (P2SB): hiding and unhiding the device.
use vstd::prelude::*;
use crate::mmio::{Mmio, RegState, st_write_lanes, reg_value};
use crate::pci::{pci_read_config16, pci_read_config8, pci_write_config8, pci_dev0, spec_pci_dev,
    spec_read16, spec_read8, cfg_word_addr, cfg_lane_shift};

verus! {

pub const ESPI: u32 = 0x1f;
pub const P2SBC: u32 = 0xe0;
pub const P2SBC_HIDE_BIT: u32 = 1 << 0;
/// Vendor identifier of Intel devices.
pub const PCI_VID_INTEL: u16 = 0x8086;
/// Configuration-space base of the P2SB device (00:1f.1).
pub const PCI_DEV_P2SB: u32 = 0xf9000;
pub const PCH_DEV_P2SB: u32 = PCI_DEV_P2SB;

/// A device is hidden unless its vendor identifier reads back as Intel's.
pub open spec fn spec_vendor_means_hidden(vid: u16) -> bool {
    vid != PCI_VID_INTEL
}

/// Whether the P2SB device at `dev` is hidden from PCI enumeration.
pub fn p2sb_dev_is_hidden(cfg: &Mmio, dev: u32) -> (r: bool)
    ensures
        r == spec_vendor_means_hidden(spec_read16(cfg.regs(), dev, 0)),
{
    let pci_vid = pci_read_config16(cfg, dev, 0);
    if pci_vid == 0xffff {
        return true;
    }
    if pci_vid == PCI_VID_INTEL {
        return false;
    }
    true
}

/// The configuration state after setting (`hide != 0`) or clearing the hide
/// bit in P2SBC[8].
pub open spec fn hide_bit_step(s: RegState, dev: u32, hide: i32) -> RegState {
    let reg = (P2SBC + 1) as u16;
    let a = cfg_word_addr(dev, reg);
    let old_byte = spec_read8(s.0, dev, reg);
    let new_byte: u8 = if hide != 0 {
        (old_byte & 0xfe) | 1
    } else {
        old_byte & 0xfe
    };
    st_write_lanes(s, a, (reg % 4) as u64, 1, new_byte as u32)
}

pub fn p2sb_dev_set_hide_bit(cfg: &mut Mmio, dev: u32, hide: i32)
    ensures
        final(cfg).state() == hide_bit_step(old(cfg).state(), dev, hide),
{
    let reg: u16 = (P2SBC + 1) as u16;
    let mask: u8 = 1;
    let mut val = pci_read_config8(cfg, dev, reg);
    assert(!mask == 0xfeu8) by (bit_vector)
        requires
            mask == 1u8,
    ;
    val = val & !mask;
    if hide != 0 {
        val = val | mask;
    }
    pci_write_config8(cfg, dev, reg, val);
}

/// Clears the hide bit of the P2SB device at `dev`.
pub fn p2sb_dev_unhide(cfg: &mut Mmio, dev: u32)
    ensures
        final(cfg).state() == hide_bit_step(old(cfg).state(), dev, 0),
{
    p2sb_dev_set_hide_bit(cfg, dev, 0);
    let _still_hidden = p2sb_dev_is_hidden(cfg, dev);
}

/// Sets the hide bit of the P2SB device at `dev`.
pub fn p2sb_dev_hide(cfg: &mut Mmio, dev: u32)
    ensures
        final(cfg).state() == hide_bit_step(old(cfg).state(), dev, 1),
{
    p2sb_dev_set_hide_bit(cfg, dev, 1);
    let _still_visible = !p2sb_dev_is_hidden(cfg, dev);
}

/// Makes the SoC's P2SB device visible.
pub fn p2sb_unhide(cfg: &mut Mmio)
    ensures
        final(cfg).state() == hide_bit_step(old(cfg).state(), PCH_DEV_P2SB, 0),
{
    p2sb_dev_unhide(cfg, PCH_DEV_P2SB);
}

/// Hides the SoC's P2SB device.
pub fn p2sb_hide(cfg: &mut Mmio)
    ensures
        final(cfg).state() == hide_bit_step(old(cfg).state(), PCH_DEV_P2SB, 1),
{
    p2sb_dev_hide(cfg, PCH_DEV_P2SB);
}

/// The P2SB's configuration base is that of device 1f, function 1 on bus 0.
pub proof fn lemma_p2sb_dev()
    ensures
        PCI_DEV_P2SB == spec_pci_dev(0, ESPI, 1),
{
    assert(((0u32 & 0xfff) << 20u32) | ((0x1fu32 & 0x1f) << 15u32) | ((1u32 & 0x7) << 12u32)
        == 0xf9000u32) by (bit_vector);
}

/// Hiding or unhiding sets or clears bit 0 of P2SBC[15:8] and keeps the
/// other bits of that byte, and the other bytes of its word.
pub proof fn lemma_hide_bit_read_back(s: RegState, dev: u32, hide: i32)
    ensures
        ({
            let reg = (P2SBC + 1) as u16;
            let old_byte = spec_read8(s.0, dev, reg);
            let s2 = hide_bit_step(s, dev, hide);
            &&& spec_read8(s2.0, dev, reg) == if hide != 0 {
                (old_byte & 0xfe) | 1
            } else {
                old_byte & 0xfe
            }
            &&& spec_read8(s2.0, dev, P2SBC as u16) == spec_read8(s.0, dev, P2SBC as u16)
            &&& spec_read16(s2.0, dev, 0) == spec_read16(s.0, dev, 0)
        }),
{
    let reg = (P2SBC + 1) as u16;
    let a = cfg_word_addr(dev, reg);
    let old_byte = spec_read8(s.0, dev, reg);
    let new_byte: u8 = if hide != 0 {
        (old_byte & 0xfe) | 1
    } else {
        old_byte & 0xfe
    };
    let w = reg_value(s.0, a);
    assert(cfg_lane_shift(reg) == 8);
    assert(cfg_word_addr(dev, P2SBC as u16) == a);
    crate::pci::lemma_config8_read_after_write(w, 8, new_byte, 0);
    assert(cfg_word_addr(dev, 0) != a);
}

} // verus!
