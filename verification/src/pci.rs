//! PCI device addressing and configuration-space access.
//!
//! Configuration space is held in an [`Mmio`] register model whose 32-bit
//! words are addressed by `dev | reg` with `reg` rounded down to a multiple
//! of four, as in the enhanced configuration access mechanism.  Byte and
//! half-word accesses select the corresponding lanes of that word.
use vstd::prelude::*;
use crate::mmio::{Mmio, reg_value, w32, insert_lanes, st_write_lanes};

verus! {

/// Device number and function number packed as a PCI device-function pair.
pub open spec fn spec_pci_devfn(slot: u8, func: u8) -> u32 {
    (((slot & 0x1f) as u32) << 3u32) | ((func & 0x7) as u32)
}

/// Configuration-space base of a device: bus (with segment) in bits 31:20,
/// device in bits 19:15, function in bits 14:12.
pub open spec fn spec_pci_dev(segbus: u32, slot: u32, func: u32) -> u32 {
    ((segbus & 0xfff) << 20u32) | ((slot & 0x1f) << 15u32) | ((func & 0x7) << 12u32)
}

pub fn pci_devfn(slot: u8, func: u8) -> (r: u32)
    ensures
        r == spec_pci_devfn(slot, func),
{
    (((slot & 0x1f) as u32) << 3u32) | ((func & 0x7) as u32)
}

pub fn pci_dev(segbus: u32, slot: u32, func: u32) -> (r: u32)
    ensures
        r == spec_pci_dev(segbus, slot, func),
{
    ((segbus & 0xfff) << 20u32) | ((slot & 0x1f) << 15u32) | ((func & 0x7) << 12u32)
}

/// Device on bus 0.
pub fn pci_dev0(slot: u32, func: u32) -> (r: u32)
    ensures
        r == spec_pci_dev(0, slot, func),
{
    pci_dev(0, slot, func)
}

/// Address of the configuration word that holds byte `reg` of `dev`.
pub open spec fn cfg_word_addr(dev: u32, reg: u16) -> u64 {
    ((dev as int) + ((reg as int) / 4) * 4) as u64
}

/// Bit position of byte `reg` within its configuration word.
pub open spec fn cfg_lane_shift(reg: u16) -> u32 {
    ((reg % 4) * 8) as u32
}

pub open spec fn spec_read8(cfg: Map<u64, u32>, dev: u32, reg: u16) -> u8 {
    ((reg_value(cfg, cfg_word_addr(dev, reg)) >> cfg_lane_shift(reg)) & 0xff) as u8
}

pub open spec fn spec_read16(cfg: Map<u64, u32>, dev: u32, reg: u16) -> u16 {
    ((reg_value(cfg, cfg_word_addr(dev, reg)) >> cfg_lane_shift(reg)) & 0xffff) as u16
}

fn word_addr(dev: u32, reg: u16) -> (a: u64)
    ensures
        a == cfg_word_addr(dev, reg),
{
    dev as u64 + ((reg / 4) as u64) * 4
}

fn lane_shift(reg: u16) -> (s: u32)
    ensures
        s == cfg_lane_shift(reg),
        s <= 24,
{
    ((reg % 4) * 8) as u32
}

pub fn pci_read_config32(cfg: &Mmio, dev: u32, reg: u16) -> (v: u32)
    ensures
        v == cfg.value(cfg_word_addr(dev, reg)),
{
    cfg.read32(word_addr(dev, reg))
}

pub fn pci_read_config16(cfg: &Mmio, dev: u32, reg: u16) -> (v: u16)
    ensures
        v == spec_read16(cfg.regs(), dev, reg),
{
    let w = cfg.read32(word_addr(dev, reg));
    ((w >> lane_shift(reg)) & 0xffff) as u16
}

pub fn pci_read_config8(cfg: &Mmio, dev: u32, reg: u16) -> (v: u8)
    ensures
        v == spec_read8(cfg.regs(), dev, reg),
{
    let w = cfg.read32(word_addr(dev, reg));
    ((w >> lane_shift(reg)) & 0xff) as u8
}

pub fn pci_write_config32(cfg: &mut Mmio, dev: u32, reg: u16, value: u32)
    ensures
        final(cfg).regs() == old(cfg).regs().insert(cfg_word_addr(dev, reg), value),
        final(cfg).writes() == old(cfg).writes().push(w32(cfg_word_addr(dev, reg), value)),
{
    cfg.write32(word_addr(dev, reg), value);
}

/// 16-bit configuration write: one half-word access at byte `reg` of `dev`.
pub fn pci_write_config16(cfg: &mut Mmio, dev: u32, reg: u16, value: u16)
    ensures
        final(cfg).state() == st_write_lanes(
            old(cfg).state(),
            cfg_word_addr(dev, reg),
            (reg % 4) as u64,
            2,
            value as u32,
        ),
{
    cfg.write_lanes(word_addr(dev, reg), (reg % 4) as u64, 2, value as u32);
}

/// 8-bit configuration write: one byte access at byte `reg` of `dev`.
pub fn pci_write_config8(cfg: &mut Mmio, dev: u32, reg: u16, value: u8)
    ensures
        final(cfg).state() == st_write_lanes(
            old(cfg).state(),
            cfg_word_addr(dev, reg),
            (reg % 4) as u64,
            1,
            value as u32,
        ),
{
    cfg.write_lanes(word_addr(dev, reg), (reg % 4) as u64, 1, value as u32);
}

/// A byte written to configuration space is read back unchanged, and the
/// other bytes of the same word are untouched.
pub proof fn lemma_config8_read_after_write(word: u32, shift: u32, value: u8, other: u32)
    requires
        shift == 0 || shift == 8 || shift == 16 || shift == 24,
        other == 0 || other == 8 || other == 16 || other == 24,
        other != shift,
    ensures
        ((insert_lanes(word, 0xffu32 << shift, (value as u32) << shift) >> shift) & 0xff) as u8
            == value,
        (insert_lanes(word, 0xffu32 << shift, (value as u32) << shift) >> other) & 0xff == (word
            >> other) & 0xff,
{
    let v = value as u32;
    assert(v < 256);
    assert((((word & !(0xffu32 << shift)) | ((v << shift) & (0xffu32 << shift))) >> shift) & 0xff
        == v) by (bit_vector)
        requires
            v < 256,
            shift == 0 || shift == 8 || shift == 16 || shift == 24,
    ;
    assert((((word & !(0xffu32 << shift)) | ((v << shift) & (0xffu32 << shift))) >> other) & 0xff
        == (word >> other) & 0xff) by (bit_vector)
        requires
            shift == 0 || shift == 8 || shift == 16 || shift == 24,
            other == 0 || other == 8 || other == 16 || other == 24,
            other != shift,
    ;
}

} // verus!
