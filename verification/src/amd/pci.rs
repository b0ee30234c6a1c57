//! PCI configuration addresses in the AMD MMIO configuration window.
use vstd::prelude::*;

verus! {

pub const MMIO_CFG_BASE: u32 = 0xE000_0000;

/// A PCI configuration register.
#[derive(Clone, Copy)]
pub struct PciAddress {
    /// 4 bits
    pub segment: u8,
    /// 8 bits
    pub bus: u8,
    /// 5 bits
    pub device: u8,
    /// 3 bits
    pub function: u8,
    /// 12 bits
    pub offset: u16,
}

impl PciAddress {
    pub open spec fn valid(self) -> bool {
        self.segment < 16 && self.device < 32 && self.function < 8 && self.offset < 4096
    }

    pub open spec fn spec_mmio_config_address(self) -> u32 {
        MMIO_CFG_BASE | ((self.segment as u32) << 28u32) | ((self.bus as u32) << 20u32) | ((
        self.device as u32) << 15u32) | ((self.function as u32) << 12u32) | (self.offset as u32)
    }

    /// Address of the register in the MMIO configuration window.
    pub fn mmio_config_address(self) -> (a: u32)
        requires
            self.valid(),
        ensures
            a == self.spec_mmio_config_address(),
    {
        MMIO_CFG_BASE | ((self.segment as u32) << 28u32) | ((self.bus as u32) << 20u32) | ((
        self.device as u32) << 15u32) | ((self.function as u32) << 12u32) | (self.offset as u32)
    }
}

/// The configuration address holds the bus, device, function and register
/// offset in separate fields, so each can be read back.
pub proof fn lemma_mmio_config_address_fields(p: PciAddress)
    requires
        p.valid(),
    ensures
        (p.spec_mmio_config_address() >> 20u32) & 0xff == p.bus,
        (p.spec_mmio_config_address() >> 15u32) & 0x1f == p.device,
        (p.spec_mmio_config_address() >> 12u32) & 0x7 == p.function,
        p.spec_mmio_config_address() & 0xfff == p.offset,
        p.spec_mmio_config_address() >= MMIO_CFG_BASE,
{
    let s = p.segment as u32;
    let b = p.bus as u32;
    let d = p.device as u32;
    let f = p.function as u32;
    let o = p.offset as u32;
    assert({
        let a = 0xE000_0000u32 | (s << 28u32) | (b << 20u32) | (d << 15u32) | (f << 12u32) | o;
        &&& (a >> 20u32) & 0xff == b
        &&& (a >> 15u32) & 0x1f == d
        &&& (a >> 12u32) & 0x7 == f
        &&& a & 0xfff == o
        &&& a >= 0xE000_0000u32
    }) by (bit_vector)
        requires
            s < 16,
            b < 256,
            d < 32,
            f < 8,
            o < 4096,
    ;
}

} // verus!
