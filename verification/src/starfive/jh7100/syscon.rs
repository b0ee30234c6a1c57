//! System control: the system control fields and the driver.
#![allow(non_snake_case)]
#![allow(non_upper_case_globals)]
use vstd::prelude::*;
use crate::mmio::Mmio;
use crate::starfive::jh7100::{field_step, set_field, cmd_is_on, is_on, DriverError};

verus! {

pub const SYSCON_SYSMAIN_CTRL_BASE_ADDR: u32 = 0x11850000;
pub const syscon_sysmain_ctrl_SCFG_pll0_REG_ADDR: u32 = SYSCON_SYSMAIN_CTRL_BASE_ADDR + 0x0;
pub const syscon_sysmain_ctrl_SCFG_pll1_REG_ADDR: u32 = SYSCON_SYSMAIN_CTRL_BASE_ADDR + 0x4;
pub const syscon_sysmain_ctrl_SCFG_pll2_REG_ADDR: u32 = SYSCON_SYSMAIN_CTRL_BASE_ADDR + 0x8;
pub const syscon_sysmain_ctrl_SCFG_plls_stat_REG_ADDR: u32 = SYSCON_SYSMAIN_CTRL_BASE_ADDR + 0xC;
pub const syscon_sysmain_ctrl_register4_REG_ADDR: u32 = SYSCON_SYSMAIN_CTRL_BASE_ADDR + 0x10;
pub const syscon_sysmain_ctrl_SCFG_u74_boot_vect0_low_REG_ADDR: u32 = SYSCON_SYSMAIN_CTRL_BASE_ADDR + 0x14;
pub const syscon_sysmain_ctrl_SCFG_u74_boot_vect0_hi_REG_ADDR: u32 = SYSCON_SYSMAIN_CTRL_BASE_ADDR + 0x18;
pub const syscon_sysmain_ctrl_SCFG_u74_boot_vect1_low_REG_ADDR: u32 = SYSCON_SYSMAIN_CTRL_BASE_ADDR + 0x1C;
pub const syscon_sysmain_ctrl_SCFG_u74_boot_vect1_hi_REG_ADDR: u32 = SYSCON_SYSMAIN_CTRL_BASE_ADDR + 0x20;
pub const syscon_sysmain_ctrl_SCFG_u74_REG_ADDR: u32 = SYSCON_SYSMAIN_CTRL_BASE_ADDR + 0x24;
pub const syscon_sysmain_ctrl_register10_REG_ADDR: u32 = SYSCON_SYSMAIN_CTRL_BASE_ADDR + 0x28;
pub const syscon_sysmain_ctrl_register11_REG_ADDR: u32 = SYSCON_SYSMAIN_CTRL_BASE_ADDR + 0x2C;
pub const syscon_sysmain_ctrl_register12_REG_ADDR: u32 = SYSCON_SYSMAIN_CTRL_BASE_ADDR + 0x30;
pub const syscon_sysmain_ctrl_register13_REG_ADDR: u32 = SYSCON_SYSMAIN_CTRL_BASE_ADDR + 0x34;
pub const syscon_sysmain_ctrl_register14_REG_ADDR: u32 = SYSCON_SYSMAIN_CTRL_BASE_ADDR + 0x38;
pub const syscon_sysmain_ctrl_register15_REG_ADDR: u32 = SYSCON_SYSMAIN_CTRL_BASE_ADDR + 0x3C;
pub const syscon_sysmain_ctrl_register16_REG_ADDR: u32 = SYSCON_SYSMAIN_CTRL_BASE_ADDR + 0x40;
pub const syscon_sysmain_ctrl_register17_REG_ADDR: u32 = SYSCON_SYSMAIN_CTRL_BASE_ADDR + 0x44;
pub const syscon_sysmain_ctrl_register18_REG_ADDR: u32 = SYSCON_SYSMAIN_CTRL_BASE_ADDR + 0x48;
pub const syscon_sysmain_ctrl_register19_REG_ADDR: u32 = SYSCON_SYSMAIN_CTRL_BASE_ADDR + 0x4C;
pub const syscon_sysmain_ctrl_register20_REG_ADDR: u32 = SYSCON_SYSMAIN_CTRL_BASE_ADDR + 0x50;
pub const syscon_sysmain_ctrl_register21_REG_ADDR: u32 = SYSCON_SYSMAIN_CTRL_BASE_ADDR + 0x54;
pub const syscon_sysmain_ctrl_register22_REG_ADDR: u32 = SYSCON_SYSMAIN_CTRL_BASE_ADDR + 0x58;
pub const syscon_sysmain_ctrl_register23_REG_ADDR: u32 = SYSCON_SYSMAIN_CTRL_BASE_ADDR + 0x5C;
pub const syscon_sysmain_ctrl_qspi_REG_ADDR: u32 = SYSCON_SYSMAIN_CTRL_BASE_ADDR + 0x60;
pub const syscon_sysmain_ctrl_intmem_REG_ADDR: u32 = SYSCON_SYSMAIN_CTRL_BASE_ADDR + 0x64;
pub const syscon_sysmain_ctrl_register26_REG_ADDR: u32 = SYSCON_SYSMAIN_CTRL_BASE_ADDR + 0x68;
pub const syscon_sysmain_ctrl_register27_REG_ADDR: u32 = SYSCON_SYSMAIN_CTRL_BASE_ADDR + 0x6C;
pub const syscon_sysmain_ctrl_register28_REG_ADDR: u32 = SYSCON_SYSMAIN_CTRL_BASE_ADDR + 0x70;
pub const syscon_sysmain_ctrl_register29_REG_ADDR: u32 = SYSCON_SYSMAIN_CTRL_BASE_ADDR + 0x74;
pub const syscon_sysmain_ctrl_SCFG_gmac_timestamp0_REG_ADDR: u32 = SYSCON_SYSMAIN_CTRL_BASE_ADDR + 0x78;
pub const syscon_sysmain_ctrl_SCFG_gmac_timestamp1_REG_ADDR: u32 = SYSCON_SYSMAIN_CTRL_BASE_ADDR + 0x7C;
pub const syscon_sysmain_ctrl_register32_REG_ADDR: u32 = SYSCON_SYSMAIN_CTRL_BASE_ADDR + 0x80;
pub const syscon_sysmain_ctrl_register33_REG_ADDR: u32 = SYSCON_SYSMAIN_CTRL_BASE_ADDR + 0x84;
pub const syscon_sysmain_ctrl_register34_REG_ADDR: u32 = SYSCON_SYSMAIN_CTRL_BASE_ADDR + 0x88;
pub const syscon_sysmain_ctrl_register35_REG_ADDR: u32 = SYSCON_SYSMAIN_CTRL_BASE_ADDR + 0x8C;
pub const syscon_sysmain_ctrl_register36_REG_ADDR: u32 = SYSCON_SYSMAIN_CTRL_BASE_ADDR + 0x90;
pub const syscon_sysmain_ctrl_register37_REG_ADDR: u32 = SYSCON_SYSMAIN_CTRL_BASE_ADDR + 0x94;
pub const syscon_sysmain_ctrl_register38_REG_ADDR: u32 = SYSCON_SYSMAIN_CTRL_BASE_ADDR + 0x98;
pub const syscon_sysmain_ctrl_register39_REG_ADDR: u32 = SYSCON_SYSMAIN_CTRL_BASE_ADDR + 0x9C;
pub const syscon_sysmain_ctrl_register40_REG_ADDR: u32 = SYSCON_SYSMAIN_CTRL_BASE_ADDR + 0xA0;
pub const syscon_sysmain_ctrl_SCFG_intC1_7to0_REG_ADDR: u32 = SYSCON_SYSMAIN_CTRL_BASE_ADDR + 0xA4;
pub const syscon_sysmain_ctrl_SCFG_intC0_src15to8_REG_ADDR: u32 = SYSCON_SYSMAIN_CTRL_BASE_ADDR + 0xA8;
pub const syscon_sysmain_ctrl_SCFG_intC0_src23to16_REG_ADDR: u32 = SYSCON_SYSMAIN_CTRL_BASE_ADDR + 0xAC;
pub const syscon_sysmain_ctrl_SCFG_intC0_src31to24_REG_ADDR: u32 = SYSCON_SYSMAIN_CTRL_BASE_ADDR + 0xB0;
pub const syscon_sysmain_ctrl_register47_REG_ADDR: u32 = SYSCON_SYSMAIN_CTRL_BASE_ADDR + 0xBC;
pub const syscon_sysmain_ctrl_register48_REG_ADDR: u32 = SYSCON_SYSMAIN_CTRL_BASE_ADDR + 0xC0;
pub const syscon_sysmain_ctrl_register52_REG_ADDR: u32 = SYSCON_SYSMAIN_CTRL_BASE_ADDR + 0xC4;
pub const syscon_sysmain_ctrl_register49_REG_ADDR: u32 = SYSCON_SYSMAIN_CTRL_BASE_ADDR + 0xC8;
pub const syscon_sysmain_ctrl_register50_REG_ADDR: u32 = SYSCON_SYSMAIN_CTRL_BASE_ADDR + 0xCC;
pub const syscon_sysmain_ctrl_register51_REG_ADDR: u32 = SYSCON_SYSMAIN_CTRL_BASE_ADDR + 0xD0;
pub const syscon_sysmain_ctrl_register66_REG_ADDR: u32 = SYSCON_SYSMAIN_CTRL_BASE_ADDR + 0xD8;
pub const syscon_sysmain_ctrl_register53_REG_ADDR: u32 = SYSCON_SYSMAIN_CTRL_BASE_ADDR + 0xDC;
pub const syscon_sysmain_ctrl_register54_REG_ADDR: u32 = SYSCON_SYSMAIN_CTRL_BASE_ADDR + 0xE0;
pub const syscon_sysmain_ctrl_register55_REG_ADDR: u32 = SYSCON_SYSMAIN_CTRL_BASE_ADDR + 0xE4;
pub const syscon_sysmain_ctrl_register56_REG_ADDR: u32 = SYSCON_SYSMAIN_CTRL_BASE_ADDR + 0xE8;
pub const syscon_sysmain_ctrl_register57_REG_ADDR: u32 = SYSCON_SYSMAIN_CTRL_BASE_ADDR + 0xEC;
pub const syscon_sysmain_ctrl_register58_REG_ADDR: u32 = SYSCON_SYSMAIN_CTRL_BASE_ADDR + 0xF0;
pub const syscon_sysmain_ctrl_register59_REG_ADDR: u32 = SYSCON_SYSMAIN_CTRL_BASE_ADDR + 0xF4;
pub const syscon_sysmain_ctrl_register60_REG_ADDR: u32 = SYSCON_SYSMAIN_CTRL_BASE_ADDR + 0xF8;
pub const syscon_sysmain_ctrl_register61_REG_ADDR: u32 = SYSCON_SYSMAIN_CTRL_BASE_ADDR + 0xFC;
pub const syscon_sysmain_ctrl_register62_REG_ADDR: u32 = SYSCON_SYSMAIN_CTRL_BASE_ADDR + 0x100;
pub const syscon_sysmain_ctrl_register63_REG_ADDR: u32 = SYSCON_SYSMAIN_CTRL_BASE_ADDR + 0x104;
pub const syscon_sysmain_ctrl_register64_REG_ADDR: u32 = SYSCON_SYSMAIN_CTRL_BASE_ADDR + 0x108;
pub const syscon_sysmain_ctrl_register65_REG_ADDR: u32 = SYSCON_SYSMAIN_CTRL_BASE_ADDR + 0x10C;
pub const syscon_sysmain_ctrl_register68_REG_ADDR: u32 = SYSCON_SYSMAIN_CTRL_BASE_ADDR + 0x110;
pub const syscon_sysmain_ctrl_register67_REG_ADDR: u32 = SYSCON_SYSMAIN_CTRL_BASE_ADDR + 0x114;
pub const syscon_sysmain_ctrl_register69_REG_ADDR: u32 = SYSCON_SYSMAIN_CTRL_BASE_ADDR + 0x118;
pub const syscon_sysmain_ctrl_register70_REG_ADDR: u32 = SYSCON_SYSMAIN_CTRL_BASE_ADDR + 0x11C;
pub const syscon_sysmain_ctrl_register71_REG_ADDR: u32 = SYSCON_SYSMAIN_CTRL_BASE_ADDR + 0x120;
pub const syscon_sysmain_ctrl_register72_REG_ADDR: u32 = SYSCON_SYSMAIN_CTRL_BASE_ADDR + 0x124;

/// The system controller.
pub struct Syscon {
    base: usize,
}

impl Syscon {
    pub closed spec fn spec_base(&self) -> usize {
        self.base
    }

    pub fn new() -> (r: Syscon)
        ensures
            r.spec_base() == 0,
    {
        Syscon { base: 0 }
    }

    /// Returns a pointer to the register block
    pub fn ptr(&self) -> (r: usize)
        ensures
            r == self.spec_base(),
    {
        self.base
    }

    /// Nothing to do.
    pub fn init(&mut self) -> (r: Result<(), DriverError>)
        ensures
            r is Ok,
    {
        Ok(())
    }

    pub fn pread(&self, _data: &mut [u8], _offset: usize) -> (r: Result<usize, DriverError>)
        ensures
            r == Err::<usize, DriverError>(DriverError::NotImplemented),
    {
        Err(DriverError::NotImplemented)
    }

    /// `on` answers 1 (there is nothing to initialise); anything else 0.
    pub fn pwrite(&mut self, data: &[u8], _offset: usize) -> (r: Result<usize, DriverError>)
        ensures
            is_on(data@) ==> r == Ok::<usize, DriverError>(1),
            !is_on(data@) ==> r == Ok::<usize, DriverError>(0),
    {
        if cmd_is_on(data) {
            self.syscon_init();
            Ok(1)
        } else {
            Ok(0)
        }
    }

    fn init_pll_ddr(&self) {
    }

    fn init_pll_ge(&self) {
    }

    /// Enables core 1.
    pub fn finish(&mut self, bus: &mut Mmio)
        ensures
            final(bus).state() == field_step(old(bus).state(), syscon_sysmain_ctrl_register69_REG_ADDR, 0x1, 1u32 & 0x1),
    {
        _SET_SYSCON_REG_register69_core1_en(bus, 1);
    }

    fn syscon_init(&mut self) {
    }
}

pub fn _SET_SYSCON_REG_SCFG_pll0_reset(bus: &mut Mmio, v: u32)
    ensures
        final(bus).state() == field_step(old(bus).state(), syscon_sysmain_ctrl_SCFG_pll0_REG_ADDR, 0x1, v & 0x1),
{
    set_field(bus, syscon_sysmain_ctrl_SCFG_pll0_REG_ADDR, 0x1, v & 0x1);
}

pub fn _GET_SYSCON_REG_SCFG_pll0_reset(bus: &Mmio) -> (r: u32)
    ensures
        r == bus.value(syscon_sysmain_ctrl_SCFG_pll0_REG_ADDR as u64) & 0x1,
{
    bus.read32(syscon_sysmain_ctrl_SCFG_pll0_REG_ADDR as u64) & 0x1
}

pub fn _SET_SYSCON_REG_SCFG_pll0_pwrdn(bus: &mut Mmio, v: u32)
    ensures
        final(bus).state() == field_step(old(bus).state(), syscon_sysmain_ctrl_SCFG_pll0_REG_ADDR, 0x2, (v & 0x1) << 1u32),
{
    set_field(bus, syscon_sysmain_ctrl_SCFG_pll0_REG_ADDR, 0x2, (v & 0x1) << 1u32);
}

pub fn _GET_SYSCON_REG_SCFG_pll0_pwrdn(bus: &Mmio) -> (r: u32)
    ensures
        r == (bus.value(syscon_sysmain_ctrl_SCFG_pll0_REG_ADDR as u64) >> 1u32) & 0x1,
{
    (bus.read32(syscon_sysmain_ctrl_SCFG_pll0_REG_ADDR as u64) >> 1u32) & 0x1
}

pub fn _SET_SYSCON_REG_SCFG_pll0_intfb(bus: &mut Mmio, v: u32)
    ensures
        final(bus).state() == field_step(old(bus).state(), syscon_sysmain_ctrl_SCFG_pll0_REG_ADDR, 0x4, (v & 0x1) << 2u32),
{
    set_field(bus, syscon_sysmain_ctrl_SCFG_pll0_REG_ADDR, 0x4, (v & 0x1) << 2u32);
}

pub fn _GET_SYSCON_REG_SCFG_pll0_intfb(bus: &Mmio) -> (r: u32)
    ensures
        r == (bus.value(syscon_sysmain_ctrl_SCFG_pll0_REG_ADDR as u64) >> 2u32) & 0x1,
{
    (bus.read32(syscon_sysmain_ctrl_SCFG_pll0_REG_ADDR as u64) >> 2u32) & 0x1
}

pub fn _SET_SYSCON_REG_SCFG_pll0_bypass(bus: &mut Mmio, v: u32)
    ensures
        final(bus).state() == field_step(old(bus).state(), syscon_sysmain_ctrl_SCFG_pll0_REG_ADDR, 0x8, (v & 0x1) << 3u32),
{
    set_field(bus, syscon_sysmain_ctrl_SCFG_pll0_REG_ADDR, 0x8, (v & 0x1) << 3u32);
}

pub fn _GET_SYSCON_REG_SCFG_pll0_bypass(bus: &Mmio) -> (r: u32)
    ensures
        r == (bus.value(syscon_sysmain_ctrl_SCFG_pll0_REG_ADDR as u64) >> 3u32) & 0x1,
{
    (bus.read32(syscon_sysmain_ctrl_SCFG_pll0_REG_ADDR as u64) >> 3u32) & 0x1
}

pub fn _SET_SYSCON_REG_SCFG_pll0_clk_refdiv(bus: &mut Mmio, v: u32)
    ensures
        final(bus).state() == field_step(old(bus).state(), syscon_sysmain_ctrl_SCFG_pll0_REG_ADDR, 0xf0, (v & 0xf) << 4u32),
{
    set_field(bus, syscon_sysmain_ctrl_SCFG_pll0_REG_ADDR, 0xf0, (v & 0xf) << 4u32);
}

pub fn _GET_SYSCON_REG_SCFG_pll0_clk_refdiv(bus: &Mmio) -> (r: u32)
    ensures
        r == (bus.value(syscon_sysmain_ctrl_SCFG_pll0_REG_ADDR as u64) >> 4u32) & 0xf,
{
    (bus.read32(syscon_sysmain_ctrl_SCFG_pll0_REG_ADDR as u64) >> 4u32) & 0xf
}

pub fn _SET_SYSCON_REG_SCFG_pll0_clk_fbkdiv(bus: &mut Mmio, v: u32)
    ensures
        final(bus).state() == field_step(old(bus).state(), syscon_sysmain_ctrl_SCFG_pll0_REG_ADDR, 0x3f00, (v & 0x3f) << 8u32),
{
    set_field(bus, syscon_sysmain_ctrl_SCFG_pll0_REG_ADDR, 0x3f00, (v & 0x3f) << 8u32);
}

pub fn _GET_SYSCON_REG_SCFG_pll0_clk_fbkdiv(bus: &Mmio) -> (r: u32)
    ensures
        r == (bus.value(syscon_sysmain_ctrl_SCFG_pll0_REG_ADDR as u64) >> 8u32) & 0x3f,
{
    (bus.read32(syscon_sysmain_ctrl_SCFG_pll0_REG_ADDR as u64) >> 8u32) & 0x3f
}

pub fn _SET_SYSCON_REG_SCFG_pll0_bw_adj(bus: &mut Mmio, v: u32)
    ensures
        final(bus).state() == field_step(old(bus).state(), syscon_sysmain_ctrl_SCFG_pll0_REG_ADDR, 0x3f0000, (v & 0x3f) << 16u32),
{
    set_field(bus, syscon_sysmain_ctrl_SCFG_pll0_REG_ADDR, 0x3f0000, (v & 0x3f) << 16u32);
}

pub fn _GET_SYSCON_REG_SCFG_pll0_bw_adj(bus: &Mmio) -> (r: u32)
    ensures
        r == (bus.value(syscon_sysmain_ctrl_SCFG_pll0_REG_ADDR as u64) >> 16u32) & 0x3f,
{
    (bus.read32(syscon_sysmain_ctrl_SCFG_pll0_REG_ADDR as u64) >> 16u32) & 0x3f
}

pub fn _SET_SYSCON_REG_SCFG_pll0_clk_outdiv(bus: &mut Mmio, v: u32)
    ensures
        final(bus).state() == field_step(old(bus).state(), syscon_sysmain_ctrl_SCFG_pll0_REG_ADDR, 0xf000000, (v & 0xf) << 24u32),
{
    set_field(bus, syscon_sysmain_ctrl_SCFG_pll0_REG_ADDR, 0xf000000, (v & 0xf) << 24u32);
}

pub fn _GET_SYSCON_REG_SCFG_pll0_clk_outdiv(bus: &Mmio) -> (r: u32)
    ensures
        r == (bus.value(syscon_sysmain_ctrl_SCFG_pll0_REG_ADDR as u64) >> 24u32) & 0xf,
{
    (bus.read32(syscon_sysmain_ctrl_SCFG_pll0_REG_ADDR as u64) >> 24u32) & 0xf
}

pub fn _SET_SYSCON_REG_SCFG_pll1_reset(bus: &mut Mmio, v: u32)
    ensures
        final(bus).state() == field_step(old(bus).state(), syscon_sysmain_ctrl_SCFG_pll1_REG_ADDR, 0x1, v & 0x1),
{
    set_field(bus, syscon_sysmain_ctrl_SCFG_pll1_REG_ADDR, 0x1, v & 0x1);
}

pub fn _GET_SYSCON_REG_SCFG_pll1_reset(bus: &Mmio) -> (r: u32)
    ensures
        r == bus.value(syscon_sysmain_ctrl_SCFG_pll1_REG_ADDR as u64) & 0x1,
{
    bus.read32(syscon_sysmain_ctrl_SCFG_pll1_REG_ADDR as u64) & 0x1
}

pub fn _SET_SYSCON_REG_SCFG_pll1_pwrdn(bus: &mut Mmio, v: u32)
    ensures
        final(bus).state() == field_step(old(bus).state(), syscon_sysmain_ctrl_SCFG_pll1_REG_ADDR, 0x2, (v & 0x1) << 1u32),
{
    set_field(bus, syscon_sysmain_ctrl_SCFG_pll1_REG_ADDR, 0x2, (v & 0x1) << 1u32);
}

pub fn _GET_SYSCON_REG_SCFG_pll1_pwrdn(bus: &Mmio) -> (r: u32)
    ensures
        r == (bus.value(syscon_sysmain_ctrl_SCFG_pll1_REG_ADDR as u64) >> 1u32) & 0x1,
{
    (bus.read32(syscon_sysmain_ctrl_SCFG_pll1_REG_ADDR as u64) >> 1u32) & 0x1
}

pub fn _SET_SYSCON_REG_SCFG_pll1_intfb(bus: &mut Mmio, v: u32)
    ensures
        final(bus).state() == field_step(old(bus).state(), syscon_sysmain_ctrl_SCFG_pll1_REG_ADDR, 0x4, (v & 0x1) << 2u32),
{
    set_field(bus, syscon_sysmain_ctrl_SCFG_pll1_REG_ADDR, 0x4, (v & 0x1) << 2u32);
}

pub fn _GET_SYSCON_REG_SCFG_pll1_intfb(bus: &Mmio) -> (r: u32)
    ensures
        r == (bus.value(syscon_sysmain_ctrl_SCFG_pll1_REG_ADDR as u64) >> 2u32) & 0x1,
{
    (bus.read32(syscon_sysmain_ctrl_SCFG_pll1_REG_ADDR as u64) >> 2u32) & 0x1
}

pub fn _SET_SYSCON_REG_SCFG_pll1_bypass(bus: &mut Mmio, v: u32)
    ensures
        final(bus).state() == field_step(old(bus).state(), syscon_sysmain_ctrl_SCFG_pll1_REG_ADDR, 0x8, (v & 0x1) << 3u32),
{
    set_field(bus, syscon_sysmain_ctrl_SCFG_pll1_REG_ADDR, 0x8, (v & 0x1) << 3u32);
}

pub fn _GET_SYSCON_REG_SCFG_pll1_bypass(bus: &Mmio) -> (r: u32)
    ensures
        r == (bus.value(syscon_sysmain_ctrl_SCFG_pll1_REG_ADDR as u64) >> 3u32) & 0x1,
{
    (bus.read32(syscon_sysmain_ctrl_SCFG_pll1_REG_ADDR as u64) >> 3u32) & 0x1
}

pub fn _SET_SYSCON_REG_SCFG_pll1_clk_refdiv(bus: &mut Mmio, v: u32)
    ensures
        final(bus).state() == field_step(old(bus).state(), syscon_sysmain_ctrl_SCFG_pll1_REG_ADDR, 0xf0, (v & 0xf) << 4u32),
{
    set_field(bus, syscon_sysmain_ctrl_SCFG_pll1_REG_ADDR, 0xf0, (v & 0xf) << 4u32);
}

pub fn _GET_SYSCON_REG_SCFG_pll1_clk_refdiv(bus: &Mmio) -> (r: u32)
    ensures
        r == (bus.value(syscon_sysmain_ctrl_SCFG_pll1_REG_ADDR as u64) >> 4u32) & 0xf,
{
    (bus.read32(syscon_sysmain_ctrl_SCFG_pll1_REG_ADDR as u64) >> 4u32) & 0xf
}

pub fn _SET_SYSCON_REG_SCFG_pll1_clk_fbkdiv(bus: &mut Mmio, v: u32)
    ensures
        final(bus).state() == field_step(old(bus).state(), syscon_sysmain_ctrl_SCFG_pll1_REG_ADDR, 0x3f00, (v & 0x3f) << 8u32),
{
    set_field(bus, syscon_sysmain_ctrl_SCFG_pll1_REG_ADDR, 0x3f00, (v & 0x3f) << 8u32);
}

pub fn _GET_SYSCON_REG_SCFG_pll1_clk_fbkdiv(bus: &Mmio) -> (r: u32)
    ensures
        r == (bus.value(syscon_sysmain_ctrl_SCFG_pll1_REG_ADDR as u64) >> 8u32) & 0x3f,
{
    (bus.read32(syscon_sysmain_ctrl_SCFG_pll1_REG_ADDR as u64) >> 8u32) & 0x3f
}

pub fn _SET_SYSCON_REG_SCFG_pll1_bw_adj(bus: &mut Mmio, v: u32)
    ensures
        final(bus).state() == field_step(old(bus).state(), syscon_sysmain_ctrl_SCFG_pll1_REG_ADDR, 0x3f0000, (v & 0x3f) << 16u32),
{
    set_field(bus, syscon_sysmain_ctrl_SCFG_pll1_REG_ADDR, 0x3f0000, (v & 0x3f) << 16u32);
}

pub fn _GET_SYSCON_REG_SCFG_pll1_bw_adj(bus: &Mmio) -> (r: u32)
    ensures
        r == (bus.value(syscon_sysmain_ctrl_SCFG_pll1_REG_ADDR as u64) >> 16u32) & 0x3f,
{
    (bus.read32(syscon_sysmain_ctrl_SCFG_pll1_REG_ADDR as u64) >> 16u32) & 0x3f
}

pub fn _SET_SYSCON_REG_SCFG_pll1_clk_outdiv(bus: &mut Mmio, v: u32)
    ensures
        final(bus).state() == field_step(old(bus).state(), syscon_sysmain_ctrl_SCFG_pll1_REG_ADDR, 0xf000000, (v & 0xf) << 24u32),
{
    set_field(bus, syscon_sysmain_ctrl_SCFG_pll1_REG_ADDR, 0xf000000, (v & 0xf) << 24u32);
}

pub fn _GET_SYSCON_REG_SCFG_pll1_clk_outdiv(bus: &Mmio) -> (r: u32)
    ensures
        r == (bus.value(syscon_sysmain_ctrl_SCFG_pll1_REG_ADDR as u64) >> 24u32) & 0xf,
{
    (bus.read32(syscon_sysmain_ctrl_SCFG_pll1_REG_ADDR as u64) >> 24u32) & 0xf
}

pub fn _SET_SYSCON_REG_SCFG_pll2_reset(bus: &mut Mmio, v: u32)
    ensures
        final(bus).state() == field_step(old(bus).state(), syscon_sysmain_ctrl_SCFG_pll2_REG_ADDR, 0x1, v & 0x1),
{
    set_field(bus, syscon_sysmain_ctrl_SCFG_pll2_REG_ADDR, 0x1, v & 0x1);
}

pub fn _GET_SYSCON_REG_SCFG_pll2_reset(bus: &Mmio) -> (r: u32)
    ensures
        r == bus.value(syscon_sysmain_ctrl_SCFG_pll2_REG_ADDR as u64) & 0x1,
{
    bus.read32(syscon_sysmain_ctrl_SCFG_pll2_REG_ADDR as u64) & 0x1
}

pub fn _SET_SYSCON_REG_SCFG_pll2_pwrdn(bus: &mut Mmio, v: u32)
    ensures
        final(bus).state() == field_step(old(bus).state(), syscon_sysmain_ctrl_SCFG_pll2_REG_ADDR, 0x2, (v & 0x1) << 1u32),
{
    set_field(bus, syscon_sysmain_ctrl_SCFG_pll2_REG_ADDR, 0x2, (v & 0x1) << 1u32);
}

pub fn _GET_SYSCON_REG_SCFG_pll2_pwrdn(bus: &Mmio) -> (r: u32)
    ensures
        r == (bus.value(syscon_sysmain_ctrl_SCFG_pll2_REG_ADDR as u64) >> 1u32) & 0x1,
{
    (bus.read32(syscon_sysmain_ctrl_SCFG_pll2_REG_ADDR as u64) >> 1u32) & 0x1
}

pub fn _SET_SYSCON_REG_SCFG_pll2_intfb(bus: &mut Mmio, v: u32)
    ensures
        final(bus).state() == field_step(old(bus).state(), syscon_sysmain_ctrl_SCFG_pll2_REG_ADDR, 0x4, (v & 0x1) << 2u32),
{
    set_field(bus, syscon_sysmain_ctrl_SCFG_pll2_REG_ADDR, 0x4, (v & 0x1) << 2u32);
}

pub fn _GET_SYSCON_REG_SCFG_pll2_intfb(bus: &Mmio) -> (r: u32)
    ensures
        r == (bus.value(syscon_sysmain_ctrl_SCFG_pll2_REG_ADDR as u64) >> 2u32) & 0x1,
{
    (bus.read32(syscon_sysmain_ctrl_SCFG_pll2_REG_ADDR as u64) >> 2u32) & 0x1
}

pub fn _SET_SYSCON_REG_SCFG_pll2_bypass(bus: &mut Mmio, v: u32)
    ensures
        final(bus).state() == field_step(old(bus).state(), syscon_sysmain_ctrl_SCFG_pll2_REG_ADDR, 0x8, (v & 0x1) << 3u32),
{
    set_field(bus, syscon_sysmain_ctrl_SCFG_pll2_REG_ADDR, 0x8, (v & 0x1) << 3u32);
}

pub fn _GET_SYSCON_REG_SCFG_pll2_bypass(bus: &Mmio) -> (r: u32)
    ensures
        r == (bus.value(syscon_sysmain_ctrl_SCFG_pll2_REG_ADDR as u64) >> 3u32) & 0x1,
{
    (bus.read32(syscon_sysmain_ctrl_SCFG_pll2_REG_ADDR as u64) >> 3u32) & 0x1
}

pub fn _SET_SYSCON_REG_SCFG_pll2_clk_refdiv(bus: &mut Mmio, v: u32)
    ensures
        final(bus).state() == field_step(old(bus).state(), syscon_sysmain_ctrl_SCFG_pll2_REG_ADDR, 0xf0, (v & 0xf) << 4u32),
{
    set_field(bus, syscon_sysmain_ctrl_SCFG_pll2_REG_ADDR, 0xf0, (v & 0xf) << 4u32);
}

pub fn _GET_SYSCON_REG_SCFG_pll2_clk_refdiv(bus: &Mmio) -> (r: u32)
    ensures
        r == (bus.value(syscon_sysmain_ctrl_SCFG_pll2_REG_ADDR as u64) >> 4u32) & 0xf,
{
    (bus.read32(syscon_sysmain_ctrl_SCFG_pll2_REG_ADDR as u64) >> 4u32) & 0xf
}

pub fn _SET_SYSCON_REG_SCFG_pll2_clk_fbkdiv(bus: &mut Mmio, v: u32)
    ensures
        final(bus).state() == field_step(old(bus).state(), syscon_sysmain_ctrl_SCFG_pll2_REG_ADDR, 0x3f00, (v & 0x3f) << 8u32),
{
    set_field(bus, syscon_sysmain_ctrl_SCFG_pll2_REG_ADDR, 0x3f00, (v & 0x3f) << 8u32);
}

pub fn _GET_SYSCON_REG_SCFG_pll2_clk_fbkdiv(bus: &Mmio) -> (r: u32)
    ensures
        r == (bus.value(syscon_sysmain_ctrl_SCFG_pll2_REG_ADDR as u64) >> 8u32) & 0x3f,
{
    (bus.read32(syscon_sysmain_ctrl_SCFG_pll2_REG_ADDR as u64) >> 8u32) & 0x3f
}

pub fn _SET_SYSCON_REG_SCFG_pll2_bw_adj(bus: &mut Mmio, v: u32)
    ensures
        final(bus).state() == field_step(old(bus).state(), syscon_sysmain_ctrl_SCFG_pll2_REG_ADDR, 0x3f0000, (v & 0x3f) << 16u32),
{
    set_field(bus, syscon_sysmain_ctrl_SCFG_pll2_REG_ADDR, 0x3f0000, (v & 0x3f) << 16u32);
}

pub fn _GET_SYSCON_REG_SCFG_pll2_bw_adj(bus: &Mmio) -> (r: u32)
    ensures
        r == (bus.value(syscon_sysmain_ctrl_SCFG_pll2_REG_ADDR as u64) >> 16u32) & 0x3f,
{
    (bus.read32(syscon_sysmain_ctrl_SCFG_pll2_REG_ADDR as u64) >> 16u32) & 0x3f
}

pub fn _SET_SYSCON_REG_SCFG_pll2_clk_outdiv(bus: &mut Mmio, v: u32)
    ensures
        final(bus).state() == field_step(old(bus).state(), syscon_sysmain_ctrl_SCFG_pll2_REG_ADDR, 0xf000000, (v & 0xf) << 24u32),
{
    set_field(bus, syscon_sysmain_ctrl_SCFG_pll2_REG_ADDR, 0xf000000, (v & 0xf) << 24u32);
}

pub fn _GET_SYSCON_REG_SCFG_pll2_clk_outdiv(bus: &Mmio) -> (r: u32)
    ensures
        r == (bus.value(syscon_sysmain_ctrl_SCFG_pll2_REG_ADDR as u64) >> 24u32) & 0xf,
{
    (bus.read32(syscon_sysmain_ctrl_SCFG_pll2_REG_ADDR as u64) >> 24u32) & 0xf
}

pub fn _SET_SYSCON_REG_SCFG_plls_stat_pll0_test(bus: &mut Mmio, v: u32)
    ensures
        final(bus).state() == field_step(old(bus).state(), syscon_sysmain_ctrl_SCFG_plls_stat_REG_ADDR, 0x1, v & 0x1),
{
    set_field(bus, syscon_sysmain_ctrl_SCFG_plls_stat_REG_ADDR, 0x1, v & 0x1);
}

pub fn _GET_SYSCON_REG_SCFG_plls_stat_pll0_test(bus: &Mmio) -> (r: u32)
    ensures
        r == bus.value(syscon_sysmain_ctrl_SCFG_plls_stat_REG_ADDR as u64) & 0x1,
{
    bus.read32(syscon_sysmain_ctrl_SCFG_plls_stat_REG_ADDR as u64) & 0x1
}

pub fn _SET_SYSCON_REG_SCFG_plls_stat_pll1_test(bus: &mut Mmio, v: u32)
    ensures
        final(bus).state() == field_step(old(bus).state(), syscon_sysmain_ctrl_SCFG_plls_stat_REG_ADDR, 0x2, (v & 0x1) << 1u32),
{
    set_field(bus, syscon_sysmain_ctrl_SCFG_plls_stat_REG_ADDR, 0x2, (v & 0x1) << 1u32);
}

pub fn _GET_SYSCON_REG_SCFG_plls_stat_pll1_test(bus: &Mmio) -> (r: u32)
    ensures
        r == (bus.value(syscon_sysmain_ctrl_SCFG_plls_stat_REG_ADDR as u64) >> 1u32) & 0x1,
{
    (bus.read32(syscon_sysmain_ctrl_SCFG_plls_stat_REG_ADDR as u64) >> 1u32) & 0x1
}

pub fn _SET_SYSCON_REG_SCFG_plls_stat_pll2_test(bus: &mut Mmio, v: u32)
    ensures
        final(bus).state() == field_step(old(bus).state(), syscon_sysmain_ctrl_SCFG_plls_stat_REG_ADDR, 0x4, (v & 0x1) << 2u32),
{
    set_field(bus, syscon_sysmain_ctrl_SCFG_plls_stat_REG_ADDR, 0x4, (v & 0x1) << 2u32);
}

pub fn _GET_SYSCON_REG_SCFG_plls_stat_pll2_test(bus: &Mmio) -> (r: u32)
    ensures
        r == (bus.value(syscon_sysmain_ctrl_SCFG_plls_stat_REG_ADDR as u64) >> 2u32) & 0x1,
{
    (bus.read32(syscon_sysmain_ctrl_SCFG_plls_stat_REG_ADDR as u64) >> 2u32) & 0x1
}

pub fn _GET_SYSCON_REG_SCFG_plls_stat_pll0_lock(bus: &Mmio) -> (r: u32)
    ensures
        r == (bus.value(syscon_sysmain_ctrl_SCFG_plls_stat_REG_ADDR as u64) >> 4u32) & 0x1,
{
    (bus.read32(syscon_sysmain_ctrl_SCFG_plls_stat_REG_ADDR as u64) >> 4u32) & 0x1
}

pub fn _GET_SYSCON_REG_SCFG_plls_stat_pll0_ref_slip(bus: &Mmio) -> (r: u32)
    ensures
        r == (bus.value(syscon_sysmain_ctrl_SCFG_plls_stat_REG_ADDR as u64) >> 5u32) & 0x1,
{
    (bus.read32(syscon_sysmain_ctrl_SCFG_plls_stat_REG_ADDR as u64) >> 5u32) & 0x1
}

pub fn _GET_SYSCON_REG_SCFG_plls_stat_pll0_fdbk_slip(bus: &Mmio) -> (r: u32)
    ensures
        r == (bus.value(syscon_sysmain_ctrl_SCFG_plls_stat_REG_ADDR as u64) >> 6u32) & 0x1,
{
    (bus.read32(syscon_sysmain_ctrl_SCFG_plls_stat_REG_ADDR as u64) >> 6u32) & 0x1
}

pub fn _GET_SYSCON_REG_SCFG_plls_stat_pll1_lock(bus: &Mmio) -> (r: u32)
    ensures
        r == (bus.value(syscon_sysmain_ctrl_SCFG_plls_stat_REG_ADDR as u64) >> 8u32) & 0x1,
{
    (bus.read32(syscon_sysmain_ctrl_SCFG_plls_stat_REG_ADDR as u64) >> 8u32) & 0x1
}

pub fn _GET_SYSCON_REG_SCFG_plls_stat_pll1_ref_slip(bus: &Mmio) -> (r: u32)
    ensures
        r == (bus.value(syscon_sysmain_ctrl_SCFG_plls_stat_REG_ADDR as u64) >> 9u32) & 0x1,
{
    (bus.read32(syscon_sysmain_ctrl_SCFG_plls_stat_REG_ADDR as u64) >> 9u32) & 0x1
}

pub fn _GET_SYSCON_REG_SCFG_plls_stat_pll1_fdbk_slip(bus: &Mmio) -> (r: u32)
    ensures
        r == (bus.value(syscon_sysmain_ctrl_SCFG_plls_stat_REG_ADDR as u64) >> 10u32) & 0x1,
{
    (bus.read32(syscon_sysmain_ctrl_SCFG_plls_stat_REG_ADDR as u64) >> 10u32) & 0x1
}

pub fn _GET_SYSCON_REG_SCFG_plls_stat_pll2_lock(bus: &Mmio) -> (r: u32)
    ensures
        r == (bus.value(syscon_sysmain_ctrl_SCFG_plls_stat_REG_ADDR as u64) >> 12u32) & 0x1,
{
    (bus.read32(syscon_sysmain_ctrl_SCFG_plls_stat_REG_ADDR as u64) >> 12u32) & 0x1
}

pub fn _GET_SYSCON_REG_SCFG_plls_stat_pll2_ref_slip(bus: &Mmio) -> (r: u32)
    ensures
        r == (bus.value(syscon_sysmain_ctrl_SCFG_plls_stat_REG_ADDR as u64) >> 13u32) & 0x1,
{
    (bus.read32(syscon_sysmain_ctrl_SCFG_plls_stat_REG_ADDR as u64) >> 13u32) & 0x1
}

pub fn _GET_SYSCON_REG_SCFG_plls_stat_pll2_fdbk_slip(bus: &Mmio) -> (r: u32)
    ensures
        r == (bus.value(syscon_sysmain_ctrl_SCFG_plls_stat_REG_ADDR as u64) >> 14u32) & 0x1,
{
    (bus.read32(syscon_sysmain_ctrl_SCFG_plls_stat_REG_ADDR as u64) >> 14u32) & 0x1
}

pub fn _GET_SYSCON_REG_register4_SCFG_u74_halt_from_tile0(bus: &Mmio) -> (r: u32)
    ensures
        r == bus.value(syscon_sysmain_ctrl_register4_REG_ADDR as u64) & 0x1,
{
    bus.read32(syscon_sysmain_ctrl_register4_REG_ADDR as u64) & 0x1
}

pub fn _GET_SYSCON_REG_register4_SCFG_u74_halt_from_tile1(bus: &Mmio) -> (r: u32)
    ensures
        r == (bus.value(syscon_sysmain_ctrl_register4_REG_ADDR as u64) >> 1u32) & 0x1,
{
    (bus.read32(syscon_sysmain_ctrl_register4_REG_ADDR as u64) >> 1u32) & 0x1
}

pub fn _GET_SYSCON_REG_register4_SCFG_u74_debug_ndreset(bus: &Mmio) -> (r: u32)
    ensures
        r == (bus.value(syscon_sysmain_ctrl_register4_REG_ADDR as u64) >> 2u32) & 0x1,
{
    (bus.read32(syscon_sysmain_ctrl_register4_REG_ADDR as u64) >> 2u32) & 0x1
}

pub fn _GET_SYSCON_REG_register4_SCFG_u74_debug_dmactive(bus: &Mmio) -> (r: u32)
    ensures
        r == (bus.value(syscon_sysmain_ctrl_register4_REG_ADDR as u64) >> 3u32) & 0x1,
{
    (bus.read32(syscon_sysmain_ctrl_register4_REG_ADDR as u64) >> 3u32) & 0x1
}

pub fn _SET_SYSCON_REG_SCFG_u74_boot_vect0_low_b32(bus: &mut Mmio, v: u32)
    ensures
        final(bus).state() == field_step(old(bus).state(), syscon_sysmain_ctrl_SCFG_u74_boot_vect0_low_REG_ADDR, 0xffffffff, v & 0xffffffff),
{
    set_field(bus, syscon_sysmain_ctrl_SCFG_u74_boot_vect0_low_REG_ADDR, 0xffffffff, v & 0xffffffff);
}

pub fn _GET_SYSCON_REG_SCFG_u74_boot_vect0_low_b32(bus: &Mmio) -> (r: u32)
    ensures
        r == bus.value(syscon_sysmain_ctrl_SCFG_u74_boot_vect0_low_REG_ADDR as u64) & 0xffffffff,
{
    bus.read32(syscon_sysmain_ctrl_SCFG_u74_boot_vect0_low_REG_ADDR as u64) & 0xffffffff
}

pub fn _SET_SYSCON_REG_SCFG_u74_boot_vect0_hi_b6(bus: &mut Mmio, v: u32)
    ensures
        final(bus).state() == field_step(old(bus).state(), syscon_sysmain_ctrl_SCFG_u74_boot_vect0_hi_REG_ADDR, 0x3f, v & 0x3f),
{
    set_field(bus, syscon_sysmain_ctrl_SCFG_u74_boot_vect0_hi_REG_ADDR, 0x3f, v & 0x3f);
}

pub fn _GET_SYSCON_REG_SCFG_u74_boot_vect0_hi_b6(bus: &Mmio) -> (r: u32)
    ensures
        r == bus.value(syscon_sysmain_ctrl_SCFG_u74_boot_vect0_hi_REG_ADDR as u64) & 0x3f,
{
    bus.read32(syscon_sysmain_ctrl_SCFG_u74_boot_vect0_hi_REG_ADDR as u64) & 0x3f
}

pub fn _SET_SYSCON_REG_SCFG_u74_boot_vect1_low_b32(bus: &mut Mmio, v: u32)
    ensures
        final(bus).state() == field_step(old(bus).state(), syscon_sysmain_ctrl_SCFG_u74_boot_vect1_low_REG_ADDR, 0xffffffff, v & 0xffffffff),
{
    set_field(bus, syscon_sysmain_ctrl_SCFG_u74_boot_vect1_low_REG_ADDR, 0xffffffff, v & 0xffffffff);
}

pub fn _GET_SYSCON_REG_SCFG_u74_boot_vect1_low_b32(bus: &Mmio) -> (r: u32)
    ensures
        r == bus.value(syscon_sysmain_ctrl_SCFG_u74_boot_vect1_low_REG_ADDR as u64) & 0xffffffff,
{
    bus.read32(syscon_sysmain_ctrl_SCFG_u74_boot_vect1_low_REG_ADDR as u64) & 0xffffffff
}

pub fn _SET_SYSCON_REG_SCFG_u74_boot_vect1_hi_b6(bus: &mut Mmio, v: u32)
    ensures
        final(bus).state() == field_step(old(bus).state(), syscon_sysmain_ctrl_SCFG_u74_boot_vect1_hi_REG_ADDR, 0x3f, v & 0x3f),
{
    set_field(bus, syscon_sysmain_ctrl_SCFG_u74_boot_vect1_hi_REG_ADDR, 0x3f, v & 0x3f);
}

pub fn _GET_SYSCON_REG_SCFG_u74_boot_vect1_hi_b6(bus: &Mmio) -> (r: u32)
    ensures
        r == bus.value(syscon_sysmain_ctrl_SCFG_u74_boot_vect1_hi_REG_ADDR as u64) & 0x3f,
{
    bus.read32(syscon_sysmain_ctrl_SCFG_u74_boot_vect1_hi_REG_ADDR as u64) & 0x3f
}

pub fn _SET_SYSCON_REG_SCFG_u74_PRID(bus: &mut Mmio, v: u32)
    ensures
        final(bus).state() == field_step(old(bus).state(), syscon_sysmain_ctrl_SCFG_u74_REG_ADDR, 0x7ff, v & 0x7ff),
{
    set_field(bus, syscon_sysmain_ctrl_SCFG_u74_REG_ADDR, 0x7ff, v & 0x7ff);
}

pub fn _GET_SYSCON_REG_SCFG_u74_PRID(bus: &Mmio) -> (r: u32)
    ensures
        r == bus.value(syscon_sysmain_ctrl_SCFG_u74_REG_ADDR as u64) & 0x7ff,
{
    bus.read32(syscon_sysmain_ctrl_SCFG_u74_REG_ADDR as u64) & 0x7ff
}

pub fn _GET_SYSCON_REG_register10_e24_halt(bus: &Mmio) -> (r: u32)
    ensures
        r == bus.value(syscon_sysmain_ctrl_register10_REG_ADDR as u64) & 0x1,
{
    bus.read32(syscon_sysmain_ctrl_register10_REG_ADDR as u64) & 0x1
}

pub fn _GET_SYSCON_REG_register10_e24_dbg_reset(bus: &Mmio) -> (r: u32)
    ensures
        r == (bus.value(syscon_sysmain_ctrl_register10_REG_ADDR as u64) >> 1u32) & 0x1,
{
    (bus.read32(syscon_sysmain_ctrl_register10_REG_ADDR as u64) >> 1u32) & 0x1
}

pub fn _GET_SYSCON_REG_register10_e24_dbg_active(bus: &Mmio) -> (r: u32)
    ensures
        r == (bus.value(syscon_sysmain_ctrl_register10_REG_ADDR as u64) >> 2u32) & 0x1,
{
    (bus.read32(syscon_sysmain_ctrl_register10_REG_ADDR as u64) >> 2u32) & 0x1
}

pub fn _SET_SYSCON_REG_register11_SCFG_nbdla_pwrbus_ram_a_pd(bus: &mut Mmio, v: u32)
    ensures
        final(bus).state() == field_step(old(bus).state(), syscon_sysmain_ctrl_register11_REG_ADDR, 0xffffffff, v & 0xffffffff),
{
    set_field(bus, syscon_sysmain_ctrl_register11_REG_ADDR, 0xffffffff, v & 0xffffffff);
}

pub fn _GET_SYSCON_REG_register11_SCFG_nbdla_pwrbus_ram_a_pd(bus: &Mmio) -> (r: u32)
    ensures
        r == bus.value(syscon_sysmain_ctrl_register11_REG_ADDR as u64) & 0xffffffff,
{
    bus.read32(syscon_sysmain_ctrl_register11_REG_ADDR as u64) & 0xffffffff
}

pub fn _SET_SYSCON_REG_register12_SCFG_nbdla_pwrbus_ram_c_pd(bus: &mut Mmio, v: u32)
    ensures
        final(bus).state() == field_step(old(bus).state(), syscon_sysmain_ctrl_register12_REG_ADDR, 0xffffffff, v & 0xffffffff),
{
    set_field(bus, syscon_sysmain_ctrl_register12_REG_ADDR, 0xffffffff, v & 0xffffffff);
}

pub fn _GET_SYSCON_REG_register12_SCFG_nbdla_pwrbus_ram_c_pd(bus: &Mmio) -> (r: u32)
    ensures
        r == bus.value(syscon_sysmain_ctrl_register12_REG_ADDR as u64) & 0xffffffff,
{
    bus.read32(syscon_sysmain_ctrl_register12_REG_ADDR as u64) & 0xffffffff
}

pub fn _SET_SYSCON_REG_register13_SCFG_nbdla_pwrbus_ram_o_pd(bus: &mut Mmio, v: u32)
    ensures
        final(bus).state() == field_step(old(bus).state(), syscon_sysmain_ctrl_register13_REG_ADDR, 0xffffffff, v & 0xffffffff),
{
    set_field(bus, syscon_sysmain_ctrl_register13_REG_ADDR, 0xffffffff, v & 0xffffffff);
}

pub fn _GET_SYSCON_REG_register13_SCFG_nbdla_pwrbus_ram_o_pd(bus: &Mmio) -> (r: u32)
    ensures
        r == bus.value(syscon_sysmain_ctrl_register13_REG_ADDR as u64) & 0xffffffff,
{
    bus.read32(syscon_sysmain_ctrl_register13_REG_ADDR as u64) & 0xffffffff
}

pub fn _SET_SYSCON_REG_register14_SCFG_nbdla_pwrbus_ram_p_pd(bus: &mut Mmio, v: u32)
    ensures
        final(bus).state() == field_step(old(bus).state(), syscon_sysmain_ctrl_register14_REG_ADDR, 0xffffffff, v & 0xffffffff),
{
    set_field(bus, syscon_sysmain_ctrl_register14_REG_ADDR, 0xffffffff, v & 0xffffffff);
}

pub fn _GET_SYSCON_REG_register14_SCFG_nbdla_pwrbus_ram_p_pd(bus: &Mmio) -> (r: u32)
    ensures
        r == bus.value(syscon_sysmain_ctrl_register14_REG_ADDR as u64) & 0xffffffff,
{
    bus.read32(syscon_sysmain_ctrl_register14_REG_ADDR as u64) & 0xffffffff
}

pub fn _SET_SYSCON_REG_register15_SCFG_nbdla_pwrbus_ram_x_pd(bus: &mut Mmio, v: u32)
    ensures
        final(bus).state() == field_step(old(bus).state(), syscon_sysmain_ctrl_register15_REG_ADDR, 0xffffffff, v & 0xffffffff),
{
    set_field(bus, syscon_sysmain_ctrl_register15_REG_ADDR, 0xffffffff, v & 0xffffffff);
}

pub fn _GET_SYSCON_REG_register15_SCFG_nbdla_pwrbus_ram_x_pd(bus: &Mmio) -> (r: u32)
    ensures
        r == bus.value(syscon_sysmain_ctrl_register15_REG_ADDR as u64) & 0xffffffff,
{
    bus.read32(syscon_sysmain_ctrl_register15_REG_ADDR as u64) & 0xffffffff
}

pub fn _SET_SYSCON_REG_register16_SCFG_nbdla_globclk_ovr_on(bus: &mut Mmio, v: u32)
    ensures
        final(bus).state() == field_step(old(bus).state(), syscon_sysmain_ctrl_register16_REG_ADDR, 0x1, v & 0x1),
{
    set_field(bus, syscon_sysmain_ctrl_register16_REG_ADDR, 0x1, v & 0x1);
}

pub fn _GET_SYSCON_REG_register16_SCFG_nbdla_globclk_ovr_on(bus: &Mmio) -> (r: u32)
    ensures
        r == bus.value(syscon_sysmain_ctrl_register16_REG_ADDR as u64) & 0x1,
{
    bus.read32(syscon_sysmain_ctrl_register16_REG_ADDR as u64) & 0x1
}

pub fn _SET_SYSCON_REG_register16_SCFG_nbdla_disable_clock_gating(bus: &mut Mmio, v: u32)
    ensures
        final(bus).state() == field_step(old(bus).state(), syscon_sysmain_ctrl_register16_REG_ADDR, 0x2, (v & 0x1) << 1u32),
{
    set_field(bus, syscon_sysmain_ctrl_register16_REG_ADDR, 0x2, (v & 0x1) << 1u32);
}

pub fn _GET_SYSCON_REG_register16_SCFG_nbdla_disable_clock_gating(bus: &Mmio) -> (r: u32)
    ensures
        r == (bus.value(syscon_sysmain_ctrl_register16_REG_ADDR as u64) >> 1u32) & 0x1,
{
    (bus.read32(syscon_sysmain_ctrl_register16_REG_ADDR as u64) >> 1u32) & 0x1
}

pub fn _SET_SYSCON_REG_register16_SCFG_nbdla_direct_reset(bus: &mut Mmio, v: u32)
    ensures
        final(bus).state() == field_step(old(bus).state(), syscon_sysmain_ctrl_register16_REG_ADDR, 0x4, (v & 0x1) << 2u32),
{
    set_field(bus, syscon_sysmain_ctrl_register16_REG_ADDR, 0x4, (v & 0x1) << 2u32);
}

pub fn _GET_SYSCON_REG_register16_SCFG_nbdla_direct_reset(bus: &Mmio) -> (r: u32)
    ensures
        r == (bus.value(syscon_sysmain_ctrl_register16_REG_ADDR as u64) >> 2u32) & 0x1,
{
    (bus.read32(syscon_sysmain_ctrl_register16_REG_ADDR as u64) >> 2u32) & 0x1
}

pub fn _SET_SYSCON_REG_register16_SCFG_nbdla_clkgating_en(bus: &mut Mmio, v: u32)
    ensures
        final(bus).state() == field_step(old(bus).state(), syscon_sysmain_ctrl_register16_REG_ADDR, 0x8, (v & 0x1) << 3u32),
{
    set_field(bus, syscon_sysmain_ctrl_register16_REG_ADDR, 0x8, (v & 0x1) << 3u32);
}

pub fn _GET_SYSCON_REG_register16_SCFG_nbdla_clkgating_en(bus: &Mmio) -> (r: u32)
    ensures
        r == (bus.value(syscon_sysmain_ctrl_register16_REG_ADDR as u64) >> 3u32) & 0x1,
{
    (bus.read32(syscon_sysmain_ctrl_register16_REG_ADDR as u64) >> 3u32) & 0x1
}

pub fn _GET_SYSCON_REG_register17_SCFG_jpegc_cur_inst_a(bus: &Mmio) -> (r: u32)
    ensures
        r == bus.value(syscon_sysmain_ctrl_register17_REG_ADDR as u64) & 0x3,
{
    bus.read32(syscon_sysmain_ctrl_register17_REG_ADDR as u64) & 0x3
}

pub fn _GET_SYSCON_REG_register18_SCFG_wave511_vpu_idle(bus: &Mmio) -> (r: u32)
    ensures
        r == bus.value(syscon_sysmain_ctrl_register18_REG_ADDR as u64) & 0x1,
{
    bus.read32(syscon_sysmain_ctrl_register18_REG_ADDR as u64) & 0x1
}

pub fn _GET_SYSCON_REG_register19_SCFG_wave521_vpu_idle(bus: &Mmio) -> (r: u32)
    ensures
        r == bus.value(syscon_sysmain_ctrl_register19_REG_ADDR as u64) & 0x1,
{
    bus.read32(syscon_sysmain_ctrl_register19_REG_ADDR as u64) & 0x1
}

pub fn _SET_SYSCON_REG_register20_u0_syscon_162_SCFG_gc300_csys_req(bus: &mut Mmio, v: u32)
    ensures
        final(bus).state() == field_step(old(bus).state(), syscon_sysmain_ctrl_register20_REG_ADDR, 0x1, v & 0x1),
{
    set_field(bus, syscon_sysmain_ctrl_register20_REG_ADDR, 0x1, v & 0x1);
}

pub fn _GET_SYSCON_REG_register20_u0_syscon_162_SCFG_gc300_csys_req(bus: &Mmio) -> (r: u32)
    ensures
        r == bus.value(syscon_sysmain_ctrl_register20_REG_ADDR as u64) & 0x1,
{
    bus.read32(syscon_sysmain_ctrl_register20_REG_ADDR as u64) & 0x1
}

pub fn _GET_SYSCON_REG_register21_u0_syscon_162_SCFG_gc300_cactive(bus: &Mmio) -> (r: u32)
    ensures
        r == bus.value(syscon_sysmain_ctrl_register21_REG_ADDR as u64) & 0x1,
{
    bus.read32(syscon_sysmain_ctrl_register21_REG_ADDR as u64) & 0x1
}

pub fn _GET_SYSCON_REG_register21_u0_syscon_162_SCFG_gc300_csys_ack(bus: &Mmio) -> (r: u32)
    ensures
        r == (bus.value(syscon_sysmain_ctrl_register21_REG_ADDR as u64) >> 1u32) & 0x1,
{
    (bus.read32(syscon_sysmain_ctrl_register21_REG_ADDR as u64) >> 1u32) & 0x1
}

pub fn _GET_SYSCON_REG_register22_u0_syscon_162_SCFG_gc300_debug_out(bus: &Mmio) -> (r: u32)
    ensures
        r == bus.value(syscon_sysmain_ctrl_register22_REG_ADDR as u64) & 0xff,
{
    bus.read32(syscon_sysmain_ctrl_register22_REG_ADDR as u64) & 0xff
}

pub fn _SET_SYSCON_REG_register23_SCFG_cmsensor_rst0(bus: &mut Mmio, v: u32)
    ensures
        final(bus).state() == field_step(old(bus).state(), syscon_sysmain_ctrl_register23_REG_ADDR, 0x1, v & 0x1),
{
    set_field(bus, syscon_sysmain_ctrl_register23_REG_ADDR, 0x1, v & 0x1);
}

pub fn _GET_SYSCON_REG_register23_SCFG_cmsensor_rst0(bus: &Mmio) -> (r: u32)
    ensures
        r == bus.value(syscon_sysmain_ctrl_register23_REG_ADDR as u64) & 0x1,
{
    bus.read32(syscon_sysmain_ctrl_register23_REG_ADDR as u64) & 0x1
}

pub fn _SET_SYSCON_REG_register23_SCFG_cmsensor_rst1(bus: &mut Mmio, v: u32)
    ensures
        final(bus).state() == field_step(old(bus).state(), syscon_sysmain_ctrl_register23_REG_ADDR, 0x2, (v & 0x1) << 1u32),
{
    set_field(bus, syscon_sysmain_ctrl_register23_REG_ADDR, 0x2, (v & 0x1) << 1u32);
}

pub fn _GET_SYSCON_REG_register23_SCFG_cmsensor_rst1(bus: &Mmio) -> (r: u32)
    ensures
        r == (bus.value(syscon_sysmain_ctrl_register23_REG_ADDR as u64) >> 1u32) & 0x1,
{
    (bus.read32(syscon_sysmain_ctrl_register23_REG_ADDR as u64) >> 1u32) & 0x1
}

pub fn _SET_SYSCON_REG_qspi_SCFG_sram_config(bus: &mut Mmio, v: u32)
    ensures
        final(bus).state() == field_step(old(bus).state(), syscon_sysmain_ctrl_qspi_REG_ADDR, 0xff, v & 0xff),
{
    set_field(bus, syscon_sysmain_ctrl_qspi_REG_ADDR, 0xff, v & 0xff);
}

pub fn _GET_SYSCON_REG_qspi_SCFG_sram_config(bus: &Mmio) -> (r: u32)
    ensures
        r == bus.value(syscon_sysmain_ctrl_qspi_REG_ADDR as u64) & 0xff,
{
    bus.read32(syscon_sysmain_ctrl_qspi_REG_ADDR as u64) & 0xff
}

pub fn _SET_SYSCON_REG_intmem_SCFG_sram_config(bus: &mut Mmio, v: u32)
    ensures
        final(bus).state() == field_step(old(bus).state(), syscon_sysmain_ctrl_intmem_REG_ADDR, 0xff, v & 0xff),
{
    set_field(bus, syscon_sysmain_ctrl_intmem_REG_ADDR, 0xff, v & 0xff);
}

pub fn _GET_SYSCON_REG_intmem_SCFG_sram_config(bus: &Mmio) -> (r: u32)
    ensures
        r == bus.value(syscon_sysmain_ctrl_intmem_REG_ADDR as u64) & 0xff,
{
    bus.read32(syscon_sysmain_ctrl_intmem_REG_ADDR as u64) & 0xff
}

pub fn _SET_SYSCON_REG_intmem_SCFG_sram_config_rom(bus: &mut Mmio, v: u32)
    ensures
        final(bus).state() == field_step(old(bus).state(), syscon_sysmain_ctrl_intmem_REG_ADDR, 0xff00, (v & 0xff) << 8u32),
{
    set_field(bus, syscon_sysmain_ctrl_intmem_REG_ADDR, 0xff00, (v & 0xff) << 8u32);
}

pub fn _GET_SYSCON_REG_intmem_SCFG_sram_config_rom(bus: &Mmio) -> (r: u32)
    ensures
        r == (bus.value(syscon_sysmain_ctrl_intmem_REG_ADDR as u64) >> 8u32) & 0xff,
{
    (bus.read32(syscon_sysmain_ctrl_intmem_REG_ADDR as u64) >> 8u32) & 0xff
}

pub fn _SET_SYSCON_REG_register26_SCFG_dma1p2p_sel(bus: &mut Mmio, v: u32)
    ensures
        final(bus).state() == field_step(old(bus).state(), syscon_sysmain_ctrl_register26_REG_ADDR, 0xffffffff, v & 0xffffffff),
{
    set_field(bus, syscon_sysmain_ctrl_register26_REG_ADDR, 0xffffffff, v & 0xffffffff);
}

pub fn _GET_SYSCON_REG_register26_SCFG_dma1p2p_sel(bus: &Mmio) -> (r: u32)
    ensures
        r == bus.value(syscon_sysmain_ctrl_register26_REG_ADDR as u64) & 0xffffffff,
{
    bus.read32(syscon_sysmain_ctrl_register26_REG_ADDR as u64) & 0xffffffff
}

pub fn _SET_SYSCON_REG_register27_SCFG_dmaezMst_sel(bus: &mut Mmio, v: u32)
    ensures
        final(bus).state() == field_step(old(bus).state(), syscon_sysmain_ctrl_register27_REG_ADDR, 0xffffffff, v & 0xffffffff),
{
    set_field(bus, syscon_sysmain_ctrl_register27_REG_ADDR, 0xffffffff, v & 0xffffffff);
}

pub fn _GET_SYSCON_REG_register27_SCFG_dmaezMst_sel(bus: &Mmio) -> (r: u32)
    ensures
        r == bus.value(syscon_sysmain_ctrl_register27_REG_ADDR as u64) & 0xffffffff,
{
    bus.read32(syscon_sysmain_ctrl_register27_REG_ADDR as u64) & 0xffffffff
}

pub fn _SET_SYSCON_REG_register28_SCFG_gmac_phy_intf_sel(bus: &mut Mmio, v: u32)
    ensures
        final(bus).state() == field_step(old(bus).state(), syscon_sysmain_ctrl_register28_REG_ADDR, 0x7, v & 0x7),
{
    set_field(bus, syscon_sysmain_ctrl_register28_REG_ADDR, 0x7, v & 0x7);
}

pub fn _GET_SYSCON_REG_register28_SCFG_gmac_phy_intf_sel(bus: &Mmio) -> (r: u32)
    ensures
        r == bus.value(syscon_sysmain_ctrl_register28_REG_ADDR as u64) & 0x7,
{
    bus.read32(syscon_sysmain_ctrl_register28_REG_ADDR as u64) & 0x7
}

pub fn _SET_SYSCON_REG_register28_gmac_SCFG_sram_cfg(bus: &mut Mmio, v: u32)
    ensures
        final(bus).state() == field_step(old(bus).state(), syscon_sysmain_ctrl_register28_REG_ADDR, 0xff0, (v & 0xff) << 4u32),
{
    set_field(bus, syscon_sysmain_ctrl_register28_REG_ADDR, 0xff0, (v & 0xff) << 4u32);
}

pub fn _GET_SYSCON_REG_register28_gmac_SCFG_sram_cfg(bus: &Mmio) -> (r: u32)
    ensures
        r == (bus.value(syscon_sysmain_ctrl_register28_REG_ADDR as u64) >> 4u32) & 0xff,
{
    (bus.read32(syscon_sysmain_ctrl_register28_REG_ADDR as u64) >> 4u32) & 0xff
}

pub fn _GET_SYSCON_REG_register29_gmac_speed(bus: &Mmio) -> (r: u32)
    ensures
        r == bus.value(syscon_sysmain_ctrl_register29_REG_ADDR as u64) & 0x3,
{
    bus.read32(syscon_sysmain_ctrl_register29_REG_ADDR as u64) & 0x3
}

pub fn _GET_SYSCON_REG_register29_gmac_ptp_pps(bus: &Mmio) -> (r: u32)
    ensures
        r == (bus.value(syscon_sysmain_ctrl_register29_REG_ADDR as u64) >> 2u32) & 0x1,
{
    (bus.read32(syscon_sysmain_ctrl_register29_REG_ADDR as u64) >> 2u32) & 0x1
}

pub fn _GET_SYSCON_REG_register29_gmac_tx_ckg_ctrl(bus: &Mmio) -> (r: u32)
    ensures
        r == (bus.value(syscon_sysmain_ctrl_register29_REG_ADDR as u64) >> 3u32) & 0x1,
{
    (bus.read32(syscon_sysmain_ctrl_register29_REG_ADDR as u64) >> 3u32) & 0x1
}

pub fn _GET_SYSCON_REG_SCFG_gmac_timestamp0_ptp(bus: &Mmio) -> (r: u32)
    ensures
        r == bus.value(syscon_sysmain_ctrl_SCFG_gmac_timestamp0_REG_ADDR as u64) & 0xffffffff,
{
    bus.read32(syscon_sysmain_ctrl_SCFG_gmac_timestamp0_REG_ADDR as u64) & 0xffffffff
}

pub fn _GET_SYSCON_REG_SCFG_gmac_timestamp1_ptp(bus: &Mmio) -> (r: u32)
    ensures
        r == bus.value(syscon_sysmain_ctrl_SCFG_gmac_timestamp1_REG_ADDR as u64) & 0xffffffff,
{
    bus.read32(syscon_sysmain_ctrl_SCFG_gmac_timestamp1_REG_ADDR as u64) & 0xffffffff
}

pub fn _SET_SYSCON_REG_register32_SCFG_gmac_phy_rstn(bus: &mut Mmio, v: u32)
    ensures
        final(bus).state() == field_step(old(bus).state(), syscon_sysmain_ctrl_register32_REG_ADDR, 0x1, v & 0x1),
{
    set_field(bus, syscon_sysmain_ctrl_register32_REG_ADDR, 0x1, v & 0x1);
}

pub fn _GET_SYSCON_REG_register32_SCFG_gmac_phy_rstn(bus: &Mmio) -> (r: u32)
    ensures
        r == bus.value(syscon_sysmain_ctrl_register32_REG_ADDR as u64) & 0x1,
{
    bus.read32(syscon_sysmain_ctrl_register32_REG_ADDR as u64) & 0x1
}

pub fn _SET_SYSCON_REG_register33_SCFG_sdio0_hbig_endian(bus: &mut Mmio, v: u32)
    ensures
        final(bus).state() == field_step(old(bus).state(), syscon_sysmain_ctrl_register33_REG_ADDR, 0x1, v & 0x1),
{
    set_field(bus, syscon_sysmain_ctrl_register33_REG_ADDR, 0x1, v & 0x1);
}

pub fn _GET_SYSCON_REG_register33_SCFG_sdio0_hbig_endian(bus: &Mmio) -> (r: u32)
    ensures
        r == bus.value(syscon_sysmain_ctrl_register33_REG_ADDR as u64) & 0x1,
{
    bus.read32(syscon_sysmain_ctrl_register33_REG_ADDR as u64) & 0x1
}

pub fn _SET_SYSCON_REG_register33_SCFG_sdio0_m_hbig_endian(bus: &mut Mmio, v: u32)
    ensures
        final(bus).state() == field_step(old(bus).state(), syscon_sysmain_ctrl_register33_REG_ADDR, 0x2, (v & 0x1) << 1u32),
{
    set_field(bus, syscon_sysmain_ctrl_register33_REG_ADDR, 0x2, (v & 0x1) << 1u32);
}

pub fn _GET_SYSCON_REG_register33_SCFG_sdio0_m_hbig_endian(bus: &Mmio) -> (r: u32)
    ensures
        r == (bus.value(syscon_sysmain_ctrl_register33_REG_ADDR as u64) >> 1u32) & 0x1,
{
    (bus.read32(syscon_sysmain_ctrl_register33_REG_ADDR as u64) >> 1u32) & 0x1
}

pub fn _SET_SYSCON_REG_register33_sdio0_SCFG_sram_config(bus: &mut Mmio, v: u32)
    ensures
        final(bus).state() == field_step(old(bus).state(), syscon_sysmain_ctrl_register33_REG_ADDR, 0x3fc, (v & 0xff) << 2u32),
{
    set_field(bus, syscon_sysmain_ctrl_register33_REG_ADDR, 0x3fc, (v & 0xff) << 2u32);
}

pub fn _GET_SYSCON_REG_register33_sdio0_SCFG_sram_config(bus: &Mmio) -> (r: u32)
    ensures
        r == (bus.value(syscon_sysmain_ctrl_register33_REG_ADDR as u64) >> 2u32) & 0xff,
{
    (bus.read32(syscon_sysmain_ctrl_register33_REG_ADDR as u64) >> 2u32) & 0xff
}

pub fn _SET_SYSCON_REG_register34_SCFG_sdio1_hbig_endian(bus: &mut Mmio, v: u32)
    ensures
        final(bus).state() == field_step(old(bus).state(), syscon_sysmain_ctrl_register34_REG_ADDR, 0x1, v & 0x1),
{
    set_field(bus, syscon_sysmain_ctrl_register34_REG_ADDR, 0x1, v & 0x1);
}

pub fn _GET_SYSCON_REG_register34_SCFG_sdio1_hbig_endian(bus: &Mmio) -> (r: u32)
    ensures
        r == bus.value(syscon_sysmain_ctrl_register34_REG_ADDR as u64) & 0x1,
{
    bus.read32(syscon_sysmain_ctrl_register34_REG_ADDR as u64) & 0x1
}

pub fn _SET_SYSCON_REG_register34_SCFG_sdio1_m_hbig_endian(bus: &mut Mmio, v: u32)
    ensures
        final(bus).state() == field_step(old(bus).state(), syscon_sysmain_ctrl_register34_REG_ADDR, 0x2, (v & 0x1) << 1u32),
{
    set_field(bus, syscon_sysmain_ctrl_register34_REG_ADDR, 0x2, (v & 0x1) << 1u32);
}

pub fn _GET_SYSCON_REG_register34_SCFG_sdio1_m_hbig_endian(bus: &Mmio) -> (r: u32)
    ensures
        r == (bus.value(syscon_sysmain_ctrl_register34_REG_ADDR as u64) >> 1u32) & 0x1,
{
    (bus.read32(syscon_sysmain_ctrl_register34_REG_ADDR as u64) >> 1u32) & 0x1
}

pub fn _SET_SYSCON_REG_register34_sdio1_SCFG_sram_config(bus: &mut Mmio, v: u32)
    ensures
        final(bus).state() == field_step(old(bus).state(), syscon_sysmain_ctrl_register34_REG_ADDR, 0x3fc, (v & 0xff) << 2u32),
{
    set_field(bus, syscon_sysmain_ctrl_register34_REG_ADDR, 0x3fc, (v & 0xff) << 2u32);
}

pub fn _GET_SYSCON_REG_register34_sdio1_SCFG_sram_config(bus: &Mmio) -> (r: u32)
    ensures
        r == (bus.value(syscon_sysmain_ctrl_register34_REG_ADDR as u64) >> 2u32) & 0xff,
{
    (bus.read32(syscon_sysmain_ctrl_register34_REG_ADDR as u64) >> 2u32) & 0xff
}

pub fn _SET_SYSCON_REG_register35_SCFG_spi2ahb_mode(bus: &mut Mmio, v: u32)
    ensures
        final(bus).state() == field_step(old(bus).state(), syscon_sysmain_ctrl_register35_REG_ADDR, 0x3, v & 0x3),
{
    set_field(bus, syscon_sysmain_ctrl_register35_REG_ADDR, 0x3, v & 0x3);
}

pub fn _GET_SYSCON_REG_register35_SCFG_spi2ahb_mode(bus: &Mmio) -> (r: u32)
    ensures
        r == bus.value(syscon_sysmain_ctrl_register35_REG_ADDR as u64) & 0x3,
{
    bus.read32(syscon_sysmain_ctrl_register35_REG_ADDR as u64) & 0x3
}

pub fn _GET_SYSCON_REG_register36_spi2ahb_sleep(bus: &Mmio) -> (r: u32)
    ensures
        r == bus.value(syscon_sysmain_ctrl_register36_REG_ADDR as u64) & 0x1,
{
    bus.read32(syscon_sysmain_ctrl_register36_REG_ADDR as u64) & 0x1
}

pub fn _SET_SYSCON_REG_register37_ezmst_SCFG_sram_config(bus: &mut Mmio, v: u32)
    ensures
        final(bus).state() == field_step(old(bus).state(), syscon_sysmain_ctrl_register37_REG_ADDR, 0xff, v & 0xff),
{
    set_field(bus, syscon_sysmain_ctrl_register37_REG_ADDR, 0xff, v & 0xff);
}

pub fn _GET_SYSCON_REG_register37_ezmst_SCFG_sram_config(bus: &Mmio) -> (r: u32)
    ensures
        r == bus.value(syscon_sysmain_ctrl_register37_REG_ADDR as u64) & 0xff,
{
    bus.read32(syscon_sysmain_ctrl_register37_REG_ADDR as u64) & 0xff
}

pub fn _SET_SYSCON_REG_register38_sec_SCFG_sram_cfg(bus: &mut Mmio, v: u32)
    ensures
        final(bus).state() == field_step(old(bus).state(), syscon_sysmain_ctrl_register38_REG_ADDR, 0xff, v & 0xff),
{
    set_field(bus, syscon_sysmain_ctrl_register38_REG_ADDR, 0xff, v & 0xff);
}

pub fn _GET_SYSCON_REG_register38_sec_SCFG_sram_cfg(bus: &Mmio) -> (r: u32)
    ensures
        r == bus.value(syscon_sysmain_ctrl_register38_REG_ADDR as u64) & 0xff,
{
    bus.read32(syscon_sysmain_ctrl_register38_REG_ADDR as u64) & 0xff
}

pub fn _SET_SYSCON_REG_register39_uart0_SCFG_sram_config(bus: &mut Mmio, v: u32)
    ensures
        final(bus).state() == field_step(old(bus).state(), syscon_sysmain_ctrl_register39_REG_ADDR, 0xff, v & 0xff),
{
    set_field(bus, syscon_sysmain_ctrl_register39_REG_ADDR, 0xff, v & 0xff);
}

pub fn _GET_SYSCON_REG_register39_uart0_SCFG_sram_config(bus: &Mmio) -> (r: u32)
    ensures
        r == bus.value(syscon_sysmain_ctrl_register39_REG_ADDR as u64) & 0xff,
{
    bus.read32(syscon_sysmain_ctrl_register39_REG_ADDR as u64) & 0xff
}

pub fn _SET_SYSCON_REG_register39_uart1_SCFG_sram_config(bus: &mut Mmio, v: u32)
    ensures
        final(bus).state() == field_step(old(bus).state(), syscon_sysmain_ctrl_register39_REG_ADDR, 0xff00, (v & 0xff) << 8u32),
{
    set_field(bus, syscon_sysmain_ctrl_register39_REG_ADDR, 0xff00, (v & 0xff) << 8u32);
}

pub fn _GET_SYSCON_REG_register39_uart1_SCFG_sram_config(bus: &Mmio) -> (r: u32)
    ensures
        r == (bus.value(syscon_sysmain_ctrl_register39_REG_ADDR as u64) >> 8u32) & 0xff,
{
    (bus.read32(syscon_sysmain_ctrl_register39_REG_ADDR as u64) >> 8u32) & 0xff
}

pub fn _GET_SYSCON_REG_register40_trng_secure_mode(bus: &Mmio) -> (r: u32)
    ensures
        r == bus.value(syscon_sysmain_ctrl_register40_REG_ADDR as u64) & 0x1,
{
    bus.read32(syscon_sysmain_ctrl_register40_REG_ADDR as u64) & 0x1
}

pub fn _GET_SYSCON_REG_register40_trng_nonce_mode(bus: &Mmio) -> (r: u32)
    ensures
        r == (bus.value(syscon_sysmain_ctrl_register40_REG_ADDR as u64) >> 1u32) & 0x1,
{
    (bus.read32(syscon_sysmain_ctrl_register40_REG_ADDR as u64) >> 1u32) & 0x1
}

pub fn _SET_SYSCON_REG_SCFG_intC1_7to0_int_src1(bus: &mut Mmio, v: u32)
    ensures
        final(bus).state() == field_step(old(bus).state(), syscon_sysmain_ctrl_SCFG_intC1_7to0_REG_ADDR, 0xff, v & 0xff),
{
    set_field(bus, syscon_sysmain_ctrl_SCFG_intC1_7to0_REG_ADDR, 0xff, v & 0xff);
}

pub fn _GET_SYSCON_REG_SCFG_intC1_7to0_int_src1(bus: &Mmio) -> (r: u32)
    ensures
        r == bus.value(syscon_sysmain_ctrl_SCFG_intC1_7to0_REG_ADDR as u64) & 0xff,
{
    bus.read32(syscon_sysmain_ctrl_SCFG_intC1_7to0_REG_ADDR as u64) & 0xff
}

pub fn _SET_SYSCON_REG_SCFG_intC0_src15to8_int_src1(bus: &mut Mmio, v: u32)
    ensures
        final(bus).state() == field_step(old(bus).state(), syscon_sysmain_ctrl_SCFG_intC0_src15to8_REG_ADDR, 0xff, v & 0xff),
{
    set_field(bus, syscon_sysmain_ctrl_SCFG_intC0_src15to8_REG_ADDR, 0xff, v & 0xff);
}

pub fn _GET_SYSCON_REG_SCFG_intC0_src15to8_int_src1(bus: &Mmio) -> (r: u32)
    ensures
        r == bus.value(syscon_sysmain_ctrl_SCFG_intC0_src15to8_REG_ADDR as u64) & 0xff,
{
    bus.read32(syscon_sysmain_ctrl_SCFG_intC0_src15to8_REG_ADDR as u64) & 0xff
}

pub fn _SET_SYSCON_REG_SCFG_intC0_src23to16_int_src1(bus: &mut Mmio, v: u32)
    ensures
        final(bus).state() == field_step(old(bus).state(), syscon_sysmain_ctrl_SCFG_intC0_src23to16_REG_ADDR, 0xff, v & 0xff),
{
    set_field(bus, syscon_sysmain_ctrl_SCFG_intC0_src23to16_REG_ADDR, 0xff, v & 0xff);
}

pub fn _GET_SYSCON_REG_SCFG_intC0_src23to16_int_src1(bus: &Mmio) -> (r: u32)
    ensures
        r == bus.value(syscon_sysmain_ctrl_SCFG_intC0_src23to16_REG_ADDR as u64) & 0xff,
{
    bus.read32(syscon_sysmain_ctrl_SCFG_intC0_src23to16_REG_ADDR as u64) & 0xff
}

pub fn _SET_SYSCON_REG_SCFG_intC0_src31to24_int_src1(bus: &mut Mmio, v: u32)
    ensures
        final(bus).state() == field_step(old(bus).state(), syscon_sysmain_ctrl_SCFG_intC0_src31to24_REG_ADDR, 0xff, v & 0xff),
{
    set_field(bus, syscon_sysmain_ctrl_SCFG_intC0_src31to24_REG_ADDR, 0xff, v & 0xff);
}

pub fn _GET_SYSCON_REG_SCFG_intC0_src31to24_int_src1(bus: &Mmio) -> (r: u32)
    ensures
        r == bus.value(syscon_sysmain_ctrl_SCFG_intC0_src31to24_REG_ADDR as u64) & 0xff,
{
    bus.read32(syscon_sysmain_ctrl_SCFG_intC0_src31to24_REG_ADDR as u64) & 0xff
}

pub fn _SET_SYSCON_REG_register47_e24_reset_vector(bus: &mut Mmio, v: u32)
    ensures
        final(bus).state() == field_step(old(bus).state(), syscon_sysmain_ctrl_register47_REG_ADDR, 0xffffffff, v & 0xffffffff),
{
    set_field(bus, syscon_sysmain_ctrl_register47_REG_ADDR, 0xffffffff, v & 0xffffffff);
}

pub fn _GET_SYSCON_REG_register47_e24_reset_vector(bus: &Mmio) -> (r: u32)
    ensures
        r == bus.value(syscon_sysmain_ctrl_register47_REG_ADDR as u64) & 0xffffffff,
{
    bus.read32(syscon_sysmain_ctrl_register47_REG_ADDR as u64) & 0xffffffff
}

pub fn _SET_SYSCON_REG_register48_SCFG_qspi_sclk_dlychain_sel(bus: &mut Mmio, v: u32)
    ensures
        final(bus).state() == field_step(old(bus).state(), syscon_sysmain_ctrl_register48_REG_ADDR, 0xffffffff, v & 0xffffffff),
{
    set_field(bus, syscon_sysmain_ctrl_register48_REG_ADDR, 0xffffffff, v & 0xffffffff);
}

pub fn _GET_SYSCON_REG_register48_SCFG_qspi_sclk_dlychain_sel(bus: &Mmio) -> (r: u32)
    ensures
        r == bus.value(syscon_sysmain_ctrl_register48_REG_ADDR as u64) & 0xffffffff,
{
    bus.read32(syscon_sysmain_ctrl_register48_REG_ADDR as u64) & 0xffffffff
}

pub fn _SET_SYSCON_REG_register52_SCFG_gmac_rxclk_dlychain_sel(bus: &mut Mmio, v: u32)
    ensures
        final(bus).state() == field_step(old(bus).state(), syscon_sysmain_ctrl_register52_REG_ADDR, 0xffffffff, v & 0xffffffff),
{
    set_field(bus, syscon_sysmain_ctrl_register52_REG_ADDR, 0xffffffff, v & 0xffffffff);
}

pub fn _GET_SYSCON_REG_register52_SCFG_gmac_rxclk_dlychain_sel(bus: &Mmio) -> (r: u32)
    ensures
        r == bus.value(syscon_sysmain_ctrl_register52_REG_ADDR as u64) & 0xffffffff,
{
    bus.read32(syscon_sysmain_ctrl_register52_REG_ADDR as u64) & 0xffffffff
}

pub fn _SET_SYSCON_REG_register49_SCFG_gmac_gtxclk_dlychain_sel(bus: &mut Mmio, v: u32)
    ensures
        final(bus).state() == field_step(old(bus).state(), syscon_sysmain_ctrl_register49_REG_ADDR, 0xffffffff, v & 0xffffffff),
{
    set_field(bus, syscon_sysmain_ctrl_register49_REG_ADDR, 0xffffffff, v & 0xffffffff);
}

pub fn _GET_SYSCON_REG_register49_SCFG_gmac_gtxclk_dlychain_sel(bus: &Mmio) -> (r: u32)
    ensures
        r == bus.value(syscon_sysmain_ctrl_register49_REG_ADDR as u64) & 0xffffffff,
{
    bus.read32(syscon_sysmain_ctrl_register49_REG_ADDR as u64) & 0xffffffff
}

pub fn _SET_SYSCON_REG_register50_SCFG_sdio0_cclk_dlychain_sel(bus: &mut Mmio, v: u32)
    ensures
        final(bus).state() == field_step(old(bus).state(), syscon_sysmain_ctrl_register50_REG_ADDR, 0xffffffff, v & 0xffffffff),
{
    set_field(bus, syscon_sysmain_ctrl_register50_REG_ADDR, 0xffffffff, v & 0xffffffff);
}

pub fn _GET_SYSCON_REG_register50_SCFG_sdio0_cclk_dlychain_sel(bus: &Mmio) -> (r: u32)
    ensures
        r == bus.value(syscon_sysmain_ctrl_register50_REG_ADDR as u64) & 0xffffffff,
{
    bus.read32(syscon_sysmain_ctrl_register50_REG_ADDR as u64) & 0xffffffff
}

pub fn _SET_SYSCON_REG_register51_SCFG_sdio1_cclk_dlychain_sel(bus: &mut Mmio, v: u32)
    ensures
        final(bus).state() == field_step(old(bus).state(), syscon_sysmain_ctrl_register51_REG_ADDR, 0xffffffff, v & 0xffffffff),
{
    set_field(bus, syscon_sysmain_ctrl_register51_REG_ADDR, 0xffffffff, v & 0xffffffff);
}

pub fn _GET_SYSCON_REG_register51_SCFG_sdio1_cclk_dlychain_sel(bus: &Mmio) -> (r: u32)
    ensures
        r == bus.value(syscon_sysmain_ctrl_register51_REG_ADDR as u64) & 0xffffffff,
{
    bus.read32(syscon_sysmain_ctrl_register51_REG_ADDR as u64) & 0xffffffff
}

pub fn _SET_SYSCON_REG_register66_SCFG_axi_cache_sel(bus: &mut Mmio, v: u32)
    ensures
        final(bus).state() == field_step(old(bus).state(), syscon_sysmain_ctrl_register66_REG_ADDR, 0xff, v & 0xff),
{
    set_field(bus, syscon_sysmain_ctrl_register66_REG_ADDR, 0xff, v & 0xff);
}

pub fn _GET_SYSCON_REG_register66_SCFG_axi_cache_sel(bus: &Mmio) -> (r: u32)
    ensures
        r == bus.value(syscon_sysmain_ctrl_register66_REG_ADDR as u64) & 0xff,
{
    bus.read32(syscon_sysmain_ctrl_register66_REG_ADDR as u64) & 0xff
}

pub fn _SET_SYSCON_REG_register66_SCFG_default_arcache(bus: &mut Mmio, v: u32)
    ensures
        final(bus).state() == field_step(old(bus).state(), syscon_sysmain_ctrl_register66_REG_ADDR, 0xf00, (v & 0xf) << 8u32),
{
    set_field(bus, syscon_sysmain_ctrl_register66_REG_ADDR, 0xf00, (v & 0xf) << 8u32);
}

pub fn _GET_SYSCON_REG_register66_SCFG_default_arcache(bus: &Mmio) -> (r: u32)
    ensures
        r == (bus.value(syscon_sysmain_ctrl_register66_REG_ADDR as u64) >> 8u32) & 0xf,
{
    (bus.read32(syscon_sysmain_ctrl_register66_REG_ADDR as u64) >> 8u32) & 0xf
}

pub fn _SET_SYSCON_REG_register66_SCFG_default_awcache(bus: &mut Mmio, v: u32)
    ensures
        final(bus).state() == field_step(old(bus).state(), syscon_sysmain_ctrl_register66_REG_ADDR, 0xf000, (v & 0xf) << 12u32),
{
    set_field(bus, syscon_sysmain_ctrl_register66_REG_ADDR, 0xf000, (v & 0xf) << 12u32);
}

pub fn _GET_SYSCON_REG_register66_SCFG_default_awcache(bus: &Mmio) -> (r: u32)
    ensures
        r == (bus.value(syscon_sysmain_ctrl_register66_REG_ADDR as u64) >> 12u32) & 0xf,
{
    (bus.read32(syscon_sysmain_ctrl_register66_REG_ADDR as u64) >> 12u32) & 0xf
}

pub fn _SET_SYSCON_REG_register53_SCFG_axi_cache_sel(bus: &mut Mmio, v: u32)
    ensures
        final(bus).state() == field_step(old(bus).state(), syscon_sysmain_ctrl_register53_REG_ADDR, 0xff, v & 0xff),
{
    set_field(bus, syscon_sysmain_ctrl_register53_REG_ADDR, 0xff, v & 0xff);
}

pub fn _GET_SYSCON_REG_register53_SCFG_axi_cache_sel(bus: &Mmio) -> (r: u32)
    ensures
        r == bus.value(syscon_sysmain_ctrl_register53_REG_ADDR as u64) & 0xff,
{
    bus.read32(syscon_sysmain_ctrl_register53_REG_ADDR as u64) & 0xff
}

pub fn _SET_SYSCON_REG_register53_SCFG_default_arcache(bus: &mut Mmio, v: u32)
    ensures
        final(bus).state() == field_step(old(bus).state(), syscon_sysmain_ctrl_register53_REG_ADDR, 0xf00, (v & 0xf) << 8u32),
{
    set_field(bus, syscon_sysmain_ctrl_register53_REG_ADDR, 0xf00, (v & 0xf) << 8u32);
}

pub fn _GET_SYSCON_REG_register53_SCFG_default_arcache(bus: &Mmio) -> (r: u32)
    ensures
        r == (bus.value(syscon_sysmain_ctrl_register53_REG_ADDR as u64) >> 8u32) & 0xf,
{
    (bus.read32(syscon_sysmain_ctrl_register53_REG_ADDR as u64) >> 8u32) & 0xf
}

pub fn _SET_SYSCON_REG_register53_SCFG_default_awcache(bus: &mut Mmio, v: u32)
    ensures
        final(bus).state() == field_step(old(bus).state(), syscon_sysmain_ctrl_register53_REG_ADDR, 0xf000, (v & 0xf) << 12u32),
{
    set_field(bus, syscon_sysmain_ctrl_register53_REG_ADDR, 0xf000, (v & 0xf) << 12u32);
}

pub fn _GET_SYSCON_REG_register53_SCFG_default_awcache(bus: &Mmio) -> (r: u32)
    ensures
        r == (bus.value(syscon_sysmain_ctrl_register53_REG_ADDR as u64) >> 12u32) & 0xf,
{
    (bus.read32(syscon_sysmain_ctrl_register53_REG_ADDR as u64) >> 12u32) & 0xf
}

pub fn _SET_SYSCON_REG_register54_SCFG_axi_cache_sel(bus: &mut Mmio, v: u32)
    ensures
        final(bus).state() == field_step(old(bus).state(), syscon_sysmain_ctrl_register54_REG_ADDR, 0xff, v & 0xff),
{
    set_field(bus, syscon_sysmain_ctrl_register54_REG_ADDR, 0xff, v & 0xff);
}

pub fn _GET_SYSCON_REG_register54_SCFG_axi_cache_sel(bus: &Mmio) -> (r: u32)
    ensures
        r == bus.value(syscon_sysmain_ctrl_register54_REG_ADDR as u64) & 0xff,
{
    bus.read32(syscon_sysmain_ctrl_register54_REG_ADDR as u64) & 0xff
}

pub fn _SET_SYSCON_REG_register54_SCFG_default_arcache(bus: &mut Mmio, v: u32)
    ensures
        final(bus).state() == field_step(old(bus).state(), syscon_sysmain_ctrl_register54_REG_ADDR, 0xf00, (v & 0xf) << 8u32),
{
    set_field(bus, syscon_sysmain_ctrl_register54_REG_ADDR, 0xf00, (v & 0xf) << 8u32);
}

pub fn _GET_SYSCON_REG_register54_SCFG_default_arcache(bus: &Mmio) -> (r: u32)
    ensures
        r == (bus.value(syscon_sysmain_ctrl_register54_REG_ADDR as u64) >> 8u32) & 0xf,
{
    (bus.read32(syscon_sysmain_ctrl_register54_REG_ADDR as u64) >> 8u32) & 0xf
}

pub fn _SET_SYSCON_REG_register54_SCFG_default_awcache(bus: &mut Mmio, v: u32)
    ensures
        final(bus).state() == field_step(old(bus).state(), syscon_sysmain_ctrl_register54_REG_ADDR, 0xf000, (v & 0xf) << 12u32),
{
    set_field(bus, syscon_sysmain_ctrl_register54_REG_ADDR, 0xf000, (v & 0xf) << 12u32);
}

pub fn _GET_SYSCON_REG_register54_SCFG_default_awcache(bus: &Mmio) -> (r: u32)
    ensures
        r == (bus.value(syscon_sysmain_ctrl_register54_REG_ADDR as u64) >> 12u32) & 0xf,
{
    (bus.read32(syscon_sysmain_ctrl_register54_REG_ADDR as u64) >> 12u32) & 0xf
}

pub fn _SET_SYSCON_REG_register55_SCFG_axi_cache_sel(bus: &mut Mmio, v: u32)
    ensures
        final(bus).state() == field_step(old(bus).state(), syscon_sysmain_ctrl_register55_REG_ADDR, 0xff, v & 0xff),
{
    set_field(bus, syscon_sysmain_ctrl_register55_REG_ADDR, 0xff, v & 0xff);
}

pub fn _GET_SYSCON_REG_register55_SCFG_axi_cache_sel(bus: &Mmio) -> (r: u32)
    ensures
        r == bus.value(syscon_sysmain_ctrl_register55_REG_ADDR as u64) & 0xff,
{
    bus.read32(syscon_sysmain_ctrl_register55_REG_ADDR as u64) & 0xff
}

pub fn _SET_SYSCON_REG_register55_SCFG_default_arcache(bus: &mut Mmio, v: u32)
    ensures
        final(bus).state() == field_step(old(bus).state(), syscon_sysmain_ctrl_register55_REG_ADDR, 0xf00, (v & 0xf) << 8u32),
{
    set_field(bus, syscon_sysmain_ctrl_register55_REG_ADDR, 0xf00, (v & 0xf) << 8u32);
}

pub fn _GET_SYSCON_REG_register55_SCFG_default_arcache(bus: &Mmio) -> (r: u32)
    ensures
        r == (bus.value(syscon_sysmain_ctrl_register55_REG_ADDR as u64) >> 8u32) & 0xf,
{
    (bus.read32(syscon_sysmain_ctrl_register55_REG_ADDR as u64) >> 8u32) & 0xf
}

pub fn _SET_SYSCON_REG_register55_SCFG_default_awcache(bus: &mut Mmio, v: u32)
    ensures
        final(bus).state() == field_step(old(bus).state(), syscon_sysmain_ctrl_register55_REG_ADDR, 0xf000, (v & 0xf) << 12u32),
{
    set_field(bus, syscon_sysmain_ctrl_register55_REG_ADDR, 0xf000, (v & 0xf) << 12u32);
}

pub fn _GET_SYSCON_REG_register55_SCFG_default_awcache(bus: &Mmio) -> (r: u32)
    ensures
        r == (bus.value(syscon_sysmain_ctrl_register55_REG_ADDR as u64) >> 12u32) & 0xf,
{
    (bus.read32(syscon_sysmain_ctrl_register55_REG_ADDR as u64) >> 12u32) & 0xf
}

pub fn _SET_SYSCON_REG_register56_SCFG_axi_cache_sel(bus: &mut Mmio, v: u32)
    ensures
        final(bus).state() == field_step(old(bus).state(), syscon_sysmain_ctrl_register56_REG_ADDR, 0xff, v & 0xff),
{
    set_field(bus, syscon_sysmain_ctrl_register56_REG_ADDR, 0xff, v & 0xff);
}

pub fn _GET_SYSCON_REG_register56_SCFG_axi_cache_sel(bus: &Mmio) -> (r: u32)
    ensures
        r == bus.value(syscon_sysmain_ctrl_register56_REG_ADDR as u64) & 0xff,
{
    bus.read32(syscon_sysmain_ctrl_register56_REG_ADDR as u64) & 0xff
}

pub fn _SET_SYSCON_REG_register56_SCFG_default_arcache(bus: &mut Mmio, v: u32)
    ensures
        final(bus).state() == field_step(old(bus).state(), syscon_sysmain_ctrl_register56_REG_ADDR, 0xf00, (v & 0xf) << 8u32),
{
    set_field(bus, syscon_sysmain_ctrl_register56_REG_ADDR, 0xf00, (v & 0xf) << 8u32);
}

pub fn _GET_SYSCON_REG_register56_SCFG_default_arcache(bus: &Mmio) -> (r: u32)
    ensures
        r == (bus.value(syscon_sysmain_ctrl_register56_REG_ADDR as u64) >> 8u32) & 0xf,
{
    (bus.read32(syscon_sysmain_ctrl_register56_REG_ADDR as u64) >> 8u32) & 0xf
}

pub fn _SET_SYSCON_REG_register56_SCFG_default_awcache(bus: &mut Mmio, v: u32)
    ensures
        final(bus).state() == field_step(old(bus).state(), syscon_sysmain_ctrl_register56_REG_ADDR, 0xf000, (v & 0xf) << 12u32),
{
    set_field(bus, syscon_sysmain_ctrl_register56_REG_ADDR, 0xf000, (v & 0xf) << 12u32);
}

pub fn _GET_SYSCON_REG_register56_SCFG_default_awcache(bus: &Mmio) -> (r: u32)
    ensures
        r == (bus.value(syscon_sysmain_ctrl_register56_REG_ADDR as u64) >> 12u32) & 0xf,
{
    (bus.read32(syscon_sysmain_ctrl_register56_REG_ADDR as u64) >> 12u32) & 0xf
}

pub fn _SET_SYSCON_REG_register57_SCFG_axi_cache_sel(bus: &mut Mmio, v: u32)
    ensures
        final(bus).state() == field_step(old(bus).state(), syscon_sysmain_ctrl_register57_REG_ADDR, 0xff, v & 0xff),
{
    set_field(bus, syscon_sysmain_ctrl_register57_REG_ADDR, 0xff, v & 0xff);
}

pub fn _GET_SYSCON_REG_register57_SCFG_axi_cache_sel(bus: &Mmio) -> (r: u32)
    ensures
        r == bus.value(syscon_sysmain_ctrl_register57_REG_ADDR as u64) & 0xff,
{
    bus.read32(syscon_sysmain_ctrl_register57_REG_ADDR as u64) & 0xff
}

pub fn _SET_SYSCON_REG_register57_SCFG_default_arcache(bus: &mut Mmio, v: u32)
    ensures
        final(bus).state() == field_step(old(bus).state(), syscon_sysmain_ctrl_register57_REG_ADDR, 0xf00, (v & 0xf) << 8u32),
{
    set_field(bus, syscon_sysmain_ctrl_register57_REG_ADDR, 0xf00, (v & 0xf) << 8u32);
}

pub fn _GET_SYSCON_REG_register57_SCFG_default_arcache(bus: &Mmio) -> (r: u32)
    ensures
        r == (bus.value(syscon_sysmain_ctrl_register57_REG_ADDR as u64) >> 8u32) & 0xf,
{
    (bus.read32(syscon_sysmain_ctrl_register57_REG_ADDR as u64) >> 8u32) & 0xf
}

pub fn _SET_SYSCON_REG_register57_SCFG_default_awcache(bus: &mut Mmio, v: u32)
    ensures
        final(bus).state() == field_step(old(bus).state(), syscon_sysmain_ctrl_register57_REG_ADDR, 0xf000, (v & 0xf) << 12u32),
{
    set_field(bus, syscon_sysmain_ctrl_register57_REG_ADDR, 0xf000, (v & 0xf) << 12u32);
}

pub fn _GET_SYSCON_REG_register57_SCFG_default_awcache(bus: &Mmio) -> (r: u32)
    ensures
        r == (bus.value(syscon_sysmain_ctrl_register57_REG_ADDR as u64) >> 12u32) & 0xf,
{
    (bus.read32(syscon_sysmain_ctrl_register57_REG_ADDR as u64) >> 12u32) & 0xf
}

pub fn _SET_SYSCON_REG_register58_SCFG_axi_cache_sel(bus: &mut Mmio, v: u32)
    ensures
        final(bus).state() == field_step(old(bus).state(), syscon_sysmain_ctrl_register58_REG_ADDR, 0xff, v & 0xff),
{
    set_field(bus, syscon_sysmain_ctrl_register58_REG_ADDR, 0xff, v & 0xff);
}

pub fn _GET_SYSCON_REG_register58_SCFG_axi_cache_sel(bus: &Mmio) -> (r: u32)
    ensures
        r == bus.value(syscon_sysmain_ctrl_register58_REG_ADDR as u64) & 0xff,
{
    bus.read32(syscon_sysmain_ctrl_register58_REG_ADDR as u64) & 0xff
}

pub fn _SET_SYSCON_REG_register58_SCFG_default_arcache(bus: &mut Mmio, v: u32)
    ensures
        final(bus).state() == field_step(old(bus).state(), syscon_sysmain_ctrl_register58_REG_ADDR, 0xf00, (v & 0xf) << 8u32),
{
    set_field(bus, syscon_sysmain_ctrl_register58_REG_ADDR, 0xf00, (v & 0xf) << 8u32);
}

pub fn _GET_SYSCON_REG_register58_SCFG_default_arcache(bus: &Mmio) -> (r: u32)
    ensures
        r == (bus.value(syscon_sysmain_ctrl_register58_REG_ADDR as u64) >> 8u32) & 0xf,
{
    (bus.read32(syscon_sysmain_ctrl_register58_REG_ADDR as u64) >> 8u32) & 0xf
}

pub fn _SET_SYSCON_REG_register58_SCFG_default_awcache(bus: &mut Mmio, v: u32)
    ensures
        final(bus).state() == field_step(old(bus).state(), syscon_sysmain_ctrl_register58_REG_ADDR, 0xf000, (v & 0xf) << 12u32),
{
    set_field(bus, syscon_sysmain_ctrl_register58_REG_ADDR, 0xf000, (v & 0xf) << 12u32);
}

pub fn _GET_SYSCON_REG_register58_SCFG_default_awcache(bus: &Mmio) -> (r: u32)
    ensures
        r == (bus.value(syscon_sysmain_ctrl_register58_REG_ADDR as u64) >> 12u32) & 0xf,
{
    (bus.read32(syscon_sysmain_ctrl_register58_REG_ADDR as u64) >> 12u32) & 0xf
}

pub fn _SET_SYSCON_REG_register59_SCFG_axi_cache_sel(bus: &mut Mmio, v: u32)
    ensures
        final(bus).state() == field_step(old(bus).state(), syscon_sysmain_ctrl_register59_REG_ADDR, 0xff, v & 0xff),
{
    set_field(bus, syscon_sysmain_ctrl_register59_REG_ADDR, 0xff, v & 0xff);
}

pub fn _GET_SYSCON_REG_register59_SCFG_axi_cache_sel(bus: &Mmio) -> (r: u32)
    ensures
        r == bus.value(syscon_sysmain_ctrl_register59_REG_ADDR as u64) & 0xff,
{
    bus.read32(syscon_sysmain_ctrl_register59_REG_ADDR as u64) & 0xff
}

pub fn _SET_SYSCON_REG_register59_SCFG_default_arcache(bus: &mut Mmio, v: u32)
    ensures
        final(bus).state() == field_step(old(bus).state(), syscon_sysmain_ctrl_register59_REG_ADDR, 0xf00, (v & 0xf) << 8u32),
{
    set_field(bus, syscon_sysmain_ctrl_register59_REG_ADDR, 0xf00, (v & 0xf) << 8u32);
}

pub fn _GET_SYSCON_REG_register59_SCFG_default_arcache(bus: &Mmio) -> (r: u32)
    ensures
        r == (bus.value(syscon_sysmain_ctrl_register59_REG_ADDR as u64) >> 8u32) & 0xf,
{
    (bus.read32(syscon_sysmain_ctrl_register59_REG_ADDR as u64) >> 8u32) & 0xf
}

pub fn _SET_SYSCON_REG_register59_SCFG_default_awcache(bus: &mut Mmio, v: u32)
    ensures
        final(bus).state() == field_step(old(bus).state(), syscon_sysmain_ctrl_register59_REG_ADDR, 0xf000, (v & 0xf) << 12u32),
{
    set_field(bus, syscon_sysmain_ctrl_register59_REG_ADDR, 0xf000, (v & 0xf) << 12u32);
}

pub fn _GET_SYSCON_REG_register59_SCFG_default_awcache(bus: &Mmio) -> (r: u32)
    ensures
        r == (bus.value(syscon_sysmain_ctrl_register59_REG_ADDR as u64) >> 12u32) & 0xf,
{
    (bus.read32(syscon_sysmain_ctrl_register59_REG_ADDR as u64) >> 12u32) & 0xf
}

pub fn _SET_SYSCON_REG_register60_SCFG_axi_cache_sel(bus: &mut Mmio, v: u32)
    ensures
        final(bus).state() == field_step(old(bus).state(), syscon_sysmain_ctrl_register60_REG_ADDR, 0xff, v & 0xff),
{
    set_field(bus, syscon_sysmain_ctrl_register60_REG_ADDR, 0xff, v & 0xff);
}

pub fn _GET_SYSCON_REG_register60_SCFG_axi_cache_sel(bus: &Mmio) -> (r: u32)
    ensures
        r == bus.value(syscon_sysmain_ctrl_register60_REG_ADDR as u64) & 0xff,
{
    bus.read32(syscon_sysmain_ctrl_register60_REG_ADDR as u64) & 0xff
}

pub fn _SET_SYSCON_REG_register60_SCFG_default_arcache(bus: &mut Mmio, v: u32)
    ensures
        final(bus).state() == field_step(old(bus).state(), syscon_sysmain_ctrl_register60_REG_ADDR, 0xf00, (v & 0xf) << 8u32),
{
    set_field(bus, syscon_sysmain_ctrl_register60_REG_ADDR, 0xf00, (v & 0xf) << 8u32);
}

pub fn _GET_SYSCON_REG_register60_SCFG_default_arcache(bus: &Mmio) -> (r: u32)
    ensures
        r == (bus.value(syscon_sysmain_ctrl_register60_REG_ADDR as u64) >> 8u32) & 0xf,
{
    (bus.read32(syscon_sysmain_ctrl_register60_REG_ADDR as u64) >> 8u32) & 0xf
}

pub fn _SET_SYSCON_REG_register60_SCFG_default_awcache(bus: &mut Mmio, v: u32)
    ensures
        final(bus).state() == field_step(old(bus).state(), syscon_sysmain_ctrl_register60_REG_ADDR, 0xf000, (v & 0xf) << 12u32),
{
    set_field(bus, syscon_sysmain_ctrl_register60_REG_ADDR, 0xf000, (v & 0xf) << 12u32);
}

pub fn _GET_SYSCON_REG_register60_SCFG_default_awcache(bus: &Mmio) -> (r: u32)
    ensures
        r == (bus.value(syscon_sysmain_ctrl_register60_REG_ADDR as u64) >> 12u32) & 0xf,
{
    (bus.read32(syscon_sysmain_ctrl_register60_REG_ADDR as u64) >> 12u32) & 0xf
}

pub fn _SET_SYSCON_REG_register61_SCFG_axi_cache_sel(bus: &mut Mmio, v: u32)
    ensures
        final(bus).state() == field_step(old(bus).state(), syscon_sysmain_ctrl_register61_REG_ADDR, 0xff, v & 0xff),
{
    set_field(bus, syscon_sysmain_ctrl_register61_REG_ADDR, 0xff, v & 0xff);
}

pub fn _GET_SYSCON_REG_register61_SCFG_axi_cache_sel(bus: &Mmio) -> (r: u32)
    ensures
        r == bus.value(syscon_sysmain_ctrl_register61_REG_ADDR as u64) & 0xff,
{
    bus.read32(syscon_sysmain_ctrl_register61_REG_ADDR as u64) & 0xff
}

pub fn _SET_SYSCON_REG_register61_SCFG_default_arcache(bus: &mut Mmio, v: u32)
    ensures
        final(bus).state() == field_step(old(bus).state(), syscon_sysmain_ctrl_register61_REG_ADDR, 0xf00, (v & 0xf) << 8u32),
{
    set_field(bus, syscon_sysmain_ctrl_register61_REG_ADDR, 0xf00, (v & 0xf) << 8u32);
}

pub fn _GET_SYSCON_REG_register61_SCFG_default_arcache(bus: &Mmio) -> (r: u32)
    ensures
        r == (bus.value(syscon_sysmain_ctrl_register61_REG_ADDR as u64) >> 8u32) & 0xf,
{
    (bus.read32(syscon_sysmain_ctrl_register61_REG_ADDR as u64) >> 8u32) & 0xf
}

pub fn _SET_SYSCON_REG_register61_SCFG_default_awcache(bus: &mut Mmio, v: u32)
    ensures
        final(bus).state() == field_step(old(bus).state(), syscon_sysmain_ctrl_register61_REG_ADDR, 0xf000, (v & 0xf) << 12u32),
{
    set_field(bus, syscon_sysmain_ctrl_register61_REG_ADDR, 0xf000, (v & 0xf) << 12u32);
}

pub fn _GET_SYSCON_REG_register61_SCFG_default_awcache(bus: &Mmio) -> (r: u32)
    ensures
        r == (bus.value(syscon_sysmain_ctrl_register61_REG_ADDR as u64) >> 12u32) & 0xf,
{
    (bus.read32(syscon_sysmain_ctrl_register61_REG_ADDR as u64) >> 12u32) & 0xf
}

pub fn _SET_SYSCON_REG_register62_SCFG_axi_cache_sel(bus: &mut Mmio, v: u32)
    ensures
        final(bus).state() == field_step(old(bus).state(), syscon_sysmain_ctrl_register62_REG_ADDR, 0xff, v & 0xff),
{
    set_field(bus, syscon_sysmain_ctrl_register62_REG_ADDR, 0xff, v & 0xff);
}

pub fn _GET_SYSCON_REG_register62_SCFG_axi_cache_sel(bus: &Mmio) -> (r: u32)
    ensures
        r == bus.value(syscon_sysmain_ctrl_register62_REG_ADDR as u64) & 0xff,
{
    bus.read32(syscon_sysmain_ctrl_register62_REG_ADDR as u64) & 0xff
}

pub fn _SET_SYSCON_REG_register62_SCFG_default_arcache(bus: &mut Mmio, v: u32)
    ensures
        final(bus).state() == field_step(old(bus).state(), syscon_sysmain_ctrl_register62_REG_ADDR, 0xf00, (v & 0xf) << 8u32),
{
    set_field(bus, syscon_sysmain_ctrl_register62_REG_ADDR, 0xf00, (v & 0xf) << 8u32);
}

pub fn _GET_SYSCON_REG_register62_SCFG_default_arcache(bus: &Mmio) -> (r: u32)
    ensures
        r == (bus.value(syscon_sysmain_ctrl_register62_REG_ADDR as u64) >> 8u32) & 0xf,
{
    (bus.read32(syscon_sysmain_ctrl_register62_REG_ADDR as u64) >> 8u32) & 0xf
}

pub fn _SET_SYSCON_REG_register62_SCFG_default_awcache(bus: &mut Mmio, v: u32)
    ensures
        final(bus).state() == field_step(old(bus).state(), syscon_sysmain_ctrl_register62_REG_ADDR, 0xf000, (v & 0xf) << 12u32),
{
    set_field(bus, syscon_sysmain_ctrl_register62_REG_ADDR, 0xf000, (v & 0xf) << 12u32);
}

pub fn _GET_SYSCON_REG_register62_SCFG_default_awcache(bus: &Mmio) -> (r: u32)
    ensures
        r == (bus.value(syscon_sysmain_ctrl_register62_REG_ADDR as u64) >> 12u32) & 0xf,
{
    (bus.read32(syscon_sysmain_ctrl_register62_REG_ADDR as u64) >> 12u32) & 0xf
}

pub fn _SET_SYSCON_REG_register63_SCFG_axi_cache_sel(bus: &mut Mmio, v: u32)
    ensures
        final(bus).state() == field_step(old(bus).state(), syscon_sysmain_ctrl_register63_REG_ADDR, 0xff, v & 0xff),
{
    set_field(bus, syscon_sysmain_ctrl_register63_REG_ADDR, 0xff, v & 0xff);
}

pub fn _GET_SYSCON_REG_register63_SCFG_axi_cache_sel(bus: &Mmio) -> (r: u32)
    ensures
        r == bus.value(syscon_sysmain_ctrl_register63_REG_ADDR as u64) & 0xff,
{
    bus.read32(syscon_sysmain_ctrl_register63_REG_ADDR as u64) & 0xff
}

pub fn _SET_SYSCON_REG_register63_SCFG_default_arcache(bus: &mut Mmio, v: u32)
    ensures
        final(bus).state() == field_step(old(bus).state(), syscon_sysmain_ctrl_register63_REG_ADDR, 0xf00, (v & 0xf) << 8u32),
{
    set_field(bus, syscon_sysmain_ctrl_register63_REG_ADDR, 0xf00, (v & 0xf) << 8u32);
}

pub fn _GET_SYSCON_REG_register63_SCFG_default_arcache(bus: &Mmio) -> (r: u32)
    ensures
        r == (bus.value(syscon_sysmain_ctrl_register63_REG_ADDR as u64) >> 8u32) & 0xf,
{
    (bus.read32(syscon_sysmain_ctrl_register63_REG_ADDR as u64) >> 8u32) & 0xf
}

pub fn _SET_SYSCON_REG_register63_SCFG_default_awcache(bus: &mut Mmio, v: u32)
    ensures
        final(bus).state() == field_step(old(bus).state(), syscon_sysmain_ctrl_register63_REG_ADDR, 0xf000, (v & 0xf) << 12u32),
{
    set_field(bus, syscon_sysmain_ctrl_register63_REG_ADDR, 0xf000, (v & 0xf) << 12u32);
}

pub fn _GET_SYSCON_REG_register63_SCFG_default_awcache(bus: &Mmio) -> (r: u32)
    ensures
        r == (bus.value(syscon_sysmain_ctrl_register63_REG_ADDR as u64) >> 12u32) & 0xf,
{
    (bus.read32(syscon_sysmain_ctrl_register63_REG_ADDR as u64) >> 12u32) & 0xf
}

pub fn _SET_SYSCON_REG_register64_SCFG_axi_cache_sel(bus: &mut Mmio, v: u32)
    ensures
        final(bus).state() == field_step(old(bus).state(), syscon_sysmain_ctrl_register64_REG_ADDR, 0xff, v & 0xff),
{
    set_field(bus, syscon_sysmain_ctrl_register64_REG_ADDR, 0xff, v & 0xff);
}

pub fn _GET_SYSCON_REG_register64_SCFG_axi_cache_sel(bus: &Mmio) -> (r: u32)
    ensures
        r == bus.value(syscon_sysmain_ctrl_register64_REG_ADDR as u64) & 0xff,
{
    bus.read32(syscon_sysmain_ctrl_register64_REG_ADDR as u64) & 0xff
}

pub fn _SET_SYSCON_REG_register64_SCFG_default_arcache(bus: &mut Mmio, v: u32)
    ensures
        final(bus).state() == field_step(old(bus).state(), syscon_sysmain_ctrl_register64_REG_ADDR, 0xf00, (v & 0xf) << 8u32),
{
    set_field(bus, syscon_sysmain_ctrl_register64_REG_ADDR, 0xf00, (v & 0xf) << 8u32);
}

pub fn _GET_SYSCON_REG_register64_SCFG_default_arcache(bus: &Mmio) -> (r: u32)
    ensures
        r == (bus.value(syscon_sysmain_ctrl_register64_REG_ADDR as u64) >> 8u32) & 0xf,
{
    (bus.read32(syscon_sysmain_ctrl_register64_REG_ADDR as u64) >> 8u32) & 0xf
}

pub fn _SET_SYSCON_REG_register64_SCFG_default_awcache(bus: &mut Mmio, v: u32)
    ensures
        final(bus).state() == field_step(old(bus).state(), syscon_sysmain_ctrl_register64_REG_ADDR, 0xf000, (v & 0xf) << 12u32),
{
    set_field(bus, syscon_sysmain_ctrl_register64_REG_ADDR, 0xf000, (v & 0xf) << 12u32);
}

pub fn _GET_SYSCON_REG_register64_SCFG_default_awcache(bus: &Mmio) -> (r: u32)
    ensures
        r == (bus.value(syscon_sysmain_ctrl_register64_REG_ADDR as u64) >> 12u32) & 0xf,
{
    (bus.read32(syscon_sysmain_ctrl_register64_REG_ADDR as u64) >> 12u32) & 0xf
}

pub fn _SET_SYSCON_REG_register65_SCFG_axi_cache_sel(bus: &mut Mmio, v: u32)
    ensures
        final(bus).state() == field_step(old(bus).state(), syscon_sysmain_ctrl_register65_REG_ADDR, 0xff, v & 0xff),
{
    set_field(bus, syscon_sysmain_ctrl_register65_REG_ADDR, 0xff, v & 0xff);
}

pub fn _GET_SYSCON_REG_register65_SCFG_axi_cache_sel(bus: &Mmio) -> (r: u32)
    ensures
        r == bus.value(syscon_sysmain_ctrl_register65_REG_ADDR as u64) & 0xff,
{
    bus.read32(syscon_sysmain_ctrl_register65_REG_ADDR as u64) & 0xff
}

pub fn _SET_SYSCON_REG_register65_SCFG_default_arcache(bus: &mut Mmio, v: u32)
    ensures
        final(bus).state() == field_step(old(bus).state(), syscon_sysmain_ctrl_register65_REG_ADDR, 0xf00, (v & 0xf) << 8u32),
{
    set_field(bus, syscon_sysmain_ctrl_register65_REG_ADDR, 0xf00, (v & 0xf) << 8u32);
}

pub fn _GET_SYSCON_REG_register65_SCFG_default_arcache(bus: &Mmio) -> (r: u32)
    ensures
        r == (bus.value(syscon_sysmain_ctrl_register65_REG_ADDR as u64) >> 8u32) & 0xf,
{
    (bus.read32(syscon_sysmain_ctrl_register65_REG_ADDR as u64) >> 8u32) & 0xf
}

pub fn _SET_SYSCON_REG_register65_SCFG_default_awcache(bus: &mut Mmio, v: u32)
    ensures
        final(bus).state() == field_step(old(bus).state(), syscon_sysmain_ctrl_register65_REG_ADDR, 0xf000, (v & 0xf) << 12u32),
{
    set_field(bus, syscon_sysmain_ctrl_register65_REG_ADDR, 0xf000, (v & 0xf) << 12u32);
}

pub fn _GET_SYSCON_REG_register65_SCFG_default_awcache(bus: &Mmio) -> (r: u32)
    ensures
        r == (bus.value(syscon_sysmain_ctrl_register65_REG_ADDR as u64) >> 12u32) & 0xf,
{
    (bus.read32(syscon_sysmain_ctrl_register65_REG_ADDR as u64) >> 12u32) & 0xf
}

pub fn _SET_SYSCON_REG_register68_SCFG_disable_u74_memaxi_remap(bus: &mut Mmio, v: u32)
    ensures
        final(bus).state() == field_step(old(bus).state(), syscon_sysmain_ctrl_register68_REG_ADDR, 0x1, v & 0x1),
{
    set_field(bus, syscon_sysmain_ctrl_register68_REG_ADDR, 0x1, v & 0x1);
}

pub fn _GET_SYSCON_REG_register68_SCFG_disable_u74_memaxi_remap(bus: &Mmio) -> (r: u32)
    ensures
        r == bus.value(syscon_sysmain_ctrl_register68_REG_ADDR as u64) & 0x1,
{
    bus.read32(syscon_sysmain_ctrl_register68_REG_ADDR as u64) & 0x1
}

pub fn _SET_SYSCON_REG_register67_SCFG_axi_cache_sel(bus: &mut Mmio, v: u32)
    ensures
        final(bus).state() == field_step(old(bus).state(), syscon_sysmain_ctrl_register67_REG_ADDR, 0xff, v & 0xff),
{
    set_field(bus, syscon_sysmain_ctrl_register67_REG_ADDR, 0xff, v & 0xff);
}

pub fn _GET_SYSCON_REG_register67_SCFG_axi_cache_sel(bus: &Mmio) -> (r: u32)
    ensures
        r == bus.value(syscon_sysmain_ctrl_register67_REG_ADDR as u64) & 0xff,
{
    bus.read32(syscon_sysmain_ctrl_register67_REG_ADDR as u64) & 0xff
}

pub fn _SET_SYSCON_REG_register67_SCFG_default_arcache(bus: &mut Mmio, v: u32)
    ensures
        final(bus).state() == field_step(old(bus).state(), syscon_sysmain_ctrl_register67_REG_ADDR, 0xf00, (v & 0xf) << 8u32),
{
    set_field(bus, syscon_sysmain_ctrl_register67_REG_ADDR, 0xf00, (v & 0xf) << 8u32);
}

pub fn _GET_SYSCON_REG_register67_SCFG_default_arcache(bus: &Mmio) -> (r: u32)
    ensures
        r == (bus.value(syscon_sysmain_ctrl_register67_REG_ADDR as u64) >> 8u32) & 0xf,
{
    (bus.read32(syscon_sysmain_ctrl_register67_REG_ADDR as u64) >> 8u32) & 0xf
}

pub fn _SET_SYSCON_REG_register67_SCFG_default_awcache(bus: &mut Mmio, v: u32)
    ensures
        final(bus).state() == field_step(old(bus).state(), syscon_sysmain_ctrl_register67_REG_ADDR, 0xf000, (v & 0xf) << 12u32),
{
    set_field(bus, syscon_sysmain_ctrl_register67_REG_ADDR, 0xf000, (v & 0xf) << 12u32);
}

pub fn _GET_SYSCON_REG_register67_SCFG_default_awcache(bus: &Mmio) -> (r: u32)
    ensures
        r == (bus.value(syscon_sysmain_ctrl_register67_REG_ADDR as u64) >> 12u32) & 0xf,
{
    (bus.read32(syscon_sysmain_ctrl_register67_REG_ADDR as u64) >> 12u32) & 0xf
}

pub fn _SET_SYSCON_REG_register69_core1_en(bus: &mut Mmio, v: u32)
    ensures
        final(bus).state() == field_step(old(bus).state(), syscon_sysmain_ctrl_register69_REG_ADDR, 0x1, v & 0x1),
{
    set_field(bus, syscon_sysmain_ctrl_register69_REG_ADDR, 0x1, v & 0x1);
}

pub fn _GET_SYSCON_REG_register69_core1_en(bus: &Mmio) -> (r: u32)
    ensures
        r == bus.value(syscon_sysmain_ctrl_register69_REG_ADDR as u64) & 0x1,
{
    bus.read32(syscon_sysmain_ctrl_register69_REG_ADDR as u64) & 0x1
}

pub fn _SET_SYSCON_REG_register70_SCFG_boot_mode(bus: &mut Mmio, v: u32)
    ensures
        final(bus).state() == field_step(old(bus).state(), syscon_sysmain_ctrl_register70_REG_ADDR, 0x1, v & 0x1),
{
    set_field(bus, syscon_sysmain_ctrl_register70_REG_ADDR, 0x1, v & 0x1);
}

pub fn _GET_SYSCON_REG_register70_SCFG_boot_mode(bus: &Mmio) -> (r: u32)
    ensures
        r == bus.value(syscon_sysmain_ctrl_register70_REG_ADDR as u64) & 0x1,
{
    bus.read32(syscon_sysmain_ctrl_register70_REG_ADDR as u64) & 0x1
}

pub fn _GET_SYSCON_REG_register70_SCFG_u74_IOPAD_bootmode(bus: &Mmio) -> (r: u32)
    ensures
        r == (bus.value(syscon_sysmain_ctrl_register70_REG_ADDR as u64) >> 1u32) & 0x1,
{
    (bus.read32(syscon_sysmain_ctrl_register70_REG_ADDR as u64) >> 1u32) & 0x1
}

pub fn _SET_SYSCON_REG_register71_SCFG_u74_reset_vector(bus: &mut Mmio, v: u32)
    ensures
        final(bus).state() == field_step(old(bus).state(), syscon_sysmain_ctrl_register71_REG_ADDR, 0xffffffff, v & 0xffffffff),
{
    set_field(bus, syscon_sysmain_ctrl_register71_REG_ADDR, 0xffffffff, v & 0xffffffff);
}

pub fn _GET_SYSCON_REG_register71_SCFG_u74_reset_vector(bus: &Mmio) -> (r: u32)
    ensures
        r == bus.value(syscon_sysmain_ctrl_register71_REG_ADDR as u64) & 0xffffffff,
{
    bus.read32(syscon_sysmain_ctrl_register71_REG_ADDR as u64) & 0xffffffff
}

pub fn _GET_SYSCON_REG_register72_u74_boot_device_sel(bus: &Mmio) -> (r: u32)
    ensures
        r == bus.value(syscon_sysmain_ctrl_register72_REG_ADDR as u64) & 0x7,
{
    bus.read32(syscon_sysmain_ctrl_register72_REG_ADDR as u64) & 0x7
}

} // verus!
