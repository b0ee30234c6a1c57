//! PCI devices of the Apollo Lake / Gemini Lake PCH.
use vstd::prelude::*;
use crate::pci::{pci_dev, pci_devfn, spec_pci_dev, spec_pci_devfn};

verus! {

/// PCI device (slot) numbers of the PCH functions.
#[derive(Clone, Copy, PartialEq, Eq, Structural)]
pub enum PchDevSlot {
    Npk,
    Cnvi,
    P2sb,
    Hda,
    Cse,
    Ish,
    Sata,
    Pcie,
    Pcie1,
    Xhci,
    Sio1,
    Sio2,
    Uart,
    Spi,
    Pwm,
    Sdcard,
    Emmc,
    Ufs,
    Sdio,
    Lpc,
}

impl PchDevSlot {
    pub open spec fn spec_slot(self) -> u8 {
        match self {
            PchDevSlot::Npk => 0x00,
            PchDevSlot::Cnvi => 0x0c,
            PchDevSlot::P2sb => 0x0d,
            PchDevSlot::Hda => 0x0e,
            PchDevSlot::Cse => 0x0f,
            PchDevSlot::Ish => 0x11,
            PchDevSlot::Sata => 0x12,
            PchDevSlot::Pcie => 0x13,
            PchDevSlot::Pcie1 => 0x14,
            PchDevSlot::Xhci => 0x15,
            PchDevSlot::Sio1 => 0x16,
            PchDevSlot::Sio2 => 0x17,
            PchDevSlot::Uart => 0x18,
            PchDevSlot::Spi => 0x19,
            PchDevSlot::Pwm => 0x1a,
            PchDevSlot::Sdcard => 0x1b,
            PchDevSlot::Emmc => 0x1c,
            PchDevSlot::Ufs => 0x1d,
            PchDevSlot::Sdio => 0x1e,
            PchDevSlot::Lpc => 0x1f,
        }
    }

    /// The device number.
    pub fn slot(self) -> (v: u8)
        ensures
            v == self.spec_slot(),
    {
        match self {
            PchDevSlot::Npk => 0x00,
            PchDevSlot::Cnvi => 0x0c,
            PchDevSlot::P2sb => 0x0d,
            PchDevSlot::Hda => 0x0e,
            PchDevSlot::Cse => 0x0f,
            PchDevSlot::Ish => 0x11,
            PchDevSlot::Sata => 0x12,
            PchDevSlot::Pcie => 0x13,
            PchDevSlot::Pcie1 => 0x14,
            PchDevSlot::Xhci => 0x15,
            PchDevSlot::Sio1 => 0x16,
            PchDevSlot::Sio2 => 0x17,
            PchDevSlot::Uart => 0x18,
            PchDevSlot::Spi => 0x19,
            PchDevSlot::Pwm => 0x1a,
            PchDevSlot::Sdcard => 0x1b,
            PchDevSlot::Emmc => 0x1c,
            PchDevSlot::Ufs => 0x1d,
            PchDevSlot::Sdio => 0x1e,
            PchDevSlot::Lpc => 0x1f,
        }
    }
}

/// Configuration-space base of PCH function `func` of `slot` on bus 0.
pub fn pch_dev(slot: PchDevSlot, func: u8) -> (r: u32)
    ensures
        r == spec_pci_dev(0, slot.spec_slot() as u32, func as u32),
{
    pci_dev(0, slot.slot() as u32, func as u32)
}

/// Device-function pair of PCH function `func` of `slot`.
pub fn pch_devfn(slot: PchDevSlot, func: u8) -> (r: u32)
    ensures
        r == spec_pci_devfn(slot.spec_slot(), func),
{
    pci_devfn(slot.slot(), func)
}

/// Configuration-space base of the LPC bridge, 00:1f.0.
pub const PCH_DEV_LPC: u32 = 0xf8000;
/// Device-function pair of the CNVi, 0c.0.
pub const PCH_DEVFN_CNVI: u32 = 0x60;

pub proof fn lemma_pch_constants()
    ensures
        PCH_DEV_LPC == spec_pci_dev(0, 0x1f, 0),
        PCH_DEVFN_CNVI == spec_pci_devfn(0x0c, 0),
{
    assert(((0u32 & 0xfff) << 20u32) | ((0x1fu32 & 0x1f) << 15u32) | ((0u32 & 0x7) << 12u32)
        == 0xf8000u32) by (bit_vector);
    assert((((0x0cu8 & 0x1f) as u32) << 3u32) | ((0u8 & 0x7) as u32) == 0x60u32) by (bit_vector);
}

} // verus!
