//! I/O pad control: the pad control fields and the driver.
#![allow(non_snake_case)]
#![allow(non_upper_case_globals)]
use vstd::prelude::*;
use crate::mmio::{Mmio, RegState};
use crate::starfive::jh7100::{field_step, set_field, cmd_is_on, cmd_is_early, is_on, is_early, DriverError};

verus! {

pub const SYSCON_IOPAD_CTRL_BASE_ADDR: u32 = 0x00_1185_8000;
pub const syscon_iopad_ctrl_register0_REG_ADDR: u32 = SYSCON_IOPAD_CTRL_BASE_ADDR + 0x0;
pub const syscon_iopad_ctrl_register1_REG_ADDR: u32 = SYSCON_IOPAD_CTRL_BASE_ADDR + 0x4;
pub const syscon_iopad_ctrl_register2_REG_ADDR: u32 = SYSCON_IOPAD_CTRL_BASE_ADDR + 0x8;
pub const syscon_iopad_ctrl_register3_REG_ADDR: u32 = SYSCON_IOPAD_CTRL_BASE_ADDR + 0xC;
pub const syscon_iopad_ctrl_register4_REG_ADDR: u32 = SYSCON_IOPAD_CTRL_BASE_ADDR + 0x10;
pub const syscon_iopad_ctrl_register5_REG_ADDR: u32 = SYSCON_IOPAD_CTRL_BASE_ADDR + 0x14;
pub const syscon_iopad_ctrl_register6_REG_ADDR: u32 = SYSCON_IOPAD_CTRL_BASE_ADDR + 0x18;
pub const syscon_iopad_ctrl_register7_REG_ADDR: u32 = SYSCON_IOPAD_CTRL_BASE_ADDR + 0x1C;
pub const syscon_iopad_ctrl_register8_REG_ADDR: u32 = SYSCON_IOPAD_CTRL_BASE_ADDR + 0x20;
pub const syscon_iopad_ctrl_register9_REG_ADDR: u32 = SYSCON_IOPAD_CTRL_BASE_ADDR + 0x24;
pub const syscon_iopad_ctrl_register10_REG_ADDR: u32 = SYSCON_IOPAD_CTRL_BASE_ADDR + 0x28;
pub const syscon_iopad_ctrl_register11_REG_ADDR: u32 = SYSCON_IOPAD_CTRL_BASE_ADDR + 0x2C;
pub const syscon_iopad_ctrl_register12_REG_ADDR: u32 = SYSCON_IOPAD_CTRL_BASE_ADDR + 0x30;
pub const syscon_iopad_ctrl_register13_REG_ADDR: u32 = SYSCON_IOPAD_CTRL_BASE_ADDR + 0x34;
pub const syscon_iopad_ctrl_register14_REG_ADDR: u32 = SYSCON_IOPAD_CTRL_BASE_ADDR + 0x38;
pub const syscon_iopad_ctrl_register15_REG_ADDR: u32 = SYSCON_IOPAD_CTRL_BASE_ADDR + 0x3C;
pub const syscon_iopad_ctrl_register16_REG_ADDR: u32 = SYSCON_IOPAD_CTRL_BASE_ADDR + 0x40;
pub const syscon_iopad_ctrl_register17_REG_ADDR: u32 = SYSCON_IOPAD_CTRL_BASE_ADDR + 0x44;
pub const syscon_iopad_ctrl_register18_REG_ADDR: u32 = SYSCON_IOPAD_CTRL_BASE_ADDR + 0x48;
pub const syscon_iopad_ctrl_register19_REG_ADDR: u32 = SYSCON_IOPAD_CTRL_BASE_ADDR + 0x4C;
pub const syscon_iopad_ctrl_register20_REG_ADDR: u32 = SYSCON_IOPAD_CTRL_BASE_ADDR + 0x50;
pub const syscon_iopad_ctrl_register21_REG_ADDR: u32 = SYSCON_IOPAD_CTRL_BASE_ADDR + 0x54;
pub const syscon_iopad_ctrl_register22_REG_ADDR: u32 = SYSCON_IOPAD_CTRL_BASE_ADDR + 0x58;
pub const syscon_iopad_ctrl_register23_REG_ADDR: u32 = SYSCON_IOPAD_CTRL_BASE_ADDR + 0x5C;
pub const syscon_iopad_ctrl_register24_REG_ADDR: u32 = SYSCON_IOPAD_CTRL_BASE_ADDR + 0x60;
pub const syscon_iopad_ctrl_register25_REG_ADDR: u32 = SYSCON_IOPAD_CTRL_BASE_ADDR + 0x64;
pub const syscon_iopad_ctrl_register26_REG_ADDR: u32 = SYSCON_IOPAD_CTRL_BASE_ADDR + 0x68;
pub const syscon_iopad_ctrl_register27_REG_ADDR: u32 = SYSCON_IOPAD_CTRL_BASE_ADDR + 0x6C;
pub const syscon_iopad_ctrl_register28_REG_ADDR: u32 = SYSCON_IOPAD_CTRL_BASE_ADDR + 0x70;
pub const syscon_iopad_ctrl_register29_REG_ADDR: u32 = SYSCON_IOPAD_CTRL_BASE_ADDR + 0x74;
pub const syscon_iopad_ctrl_register30_REG_ADDR: u32 = SYSCON_IOPAD_CTRL_BASE_ADDR + 0x78;
pub const syscon_iopad_ctrl_register31_REG_ADDR: u32 = SYSCON_IOPAD_CTRL_BASE_ADDR + 0x7C;
pub const syscon_iopad_ctrl_register32_REG_ADDR: u32 = SYSCON_IOPAD_CTRL_BASE_ADDR + 0x80;
pub const syscon_iopad_ctrl_register33_REG_ADDR: u32 = SYSCON_IOPAD_CTRL_BASE_ADDR + 0x84;
pub const syscon_iopad_ctrl_register34_REG_ADDR: u32 = SYSCON_IOPAD_CTRL_BASE_ADDR + 0x88;
pub const syscon_iopad_ctrl_register35_REG_ADDR: u32 = SYSCON_IOPAD_CTRL_BASE_ADDR + 0x8C;
pub const syscon_iopad_ctrl_register36_REG_ADDR: u32 = SYSCON_IOPAD_CTRL_BASE_ADDR + 0x90;
pub const syscon_iopad_ctrl_register37_REG_ADDR: u32 = SYSCON_IOPAD_CTRL_BASE_ADDR + 0x94;
pub const syscon_iopad_ctrl_register38_REG_ADDR: u32 = SYSCON_IOPAD_CTRL_BASE_ADDR + 0x98;
pub const syscon_iopad_ctrl_register39_REG_ADDR: u32 = SYSCON_IOPAD_CTRL_BASE_ADDR + 0x9C;
pub const syscon_iopad_ctrl_register40_REG_ADDR: u32 = SYSCON_IOPAD_CTRL_BASE_ADDR + 0xA0;
pub const syscon_iopad_ctrl_register41_REG_ADDR: u32 = SYSCON_IOPAD_CTRL_BASE_ADDR + 0xA4;
pub const syscon_iopad_ctrl_register42_REG_ADDR: u32 = SYSCON_IOPAD_CTRL_BASE_ADDR + 0xA8;
pub const syscon_iopad_ctrl_register43_REG_ADDR: u32 = SYSCON_IOPAD_CTRL_BASE_ADDR + 0xAC;
pub const syscon_iopad_ctrl_register44_REG_ADDR: u32 = SYSCON_IOPAD_CTRL_BASE_ADDR + 0xB0;
pub const syscon_iopad_ctrl_register45_REG_ADDR: u32 = SYSCON_IOPAD_CTRL_BASE_ADDR + 0xB4;
pub const syscon_iopad_ctrl_register46_REG_ADDR: u32 = SYSCON_IOPAD_CTRL_BASE_ADDR + 0xB8;
pub const syscon_iopad_ctrl_register47_REG_ADDR: u32 = SYSCON_IOPAD_CTRL_BASE_ADDR + 0xBC;
pub const syscon_iopad_ctrl_register48_REG_ADDR: u32 = SYSCON_IOPAD_CTRL_BASE_ADDR + 0xC0;
pub const syscon_iopad_ctrl_register49_REG_ADDR: u32 = SYSCON_IOPAD_CTRL_BASE_ADDR + 0xC4;
pub const syscon_iopad_ctrl_register50_REG_ADDR: u32 = SYSCON_IOPAD_CTRL_BASE_ADDR + 0xC8;
pub const syscon_iopad_ctrl_register51_REG_ADDR: u32 = SYSCON_IOPAD_CTRL_BASE_ADDR + 0xCC;
pub const syscon_iopad_ctrl_register52_REG_ADDR: u32 = SYSCON_IOPAD_CTRL_BASE_ADDR + 0xD0;
pub const syscon_iopad_ctrl_register53_REG_ADDR: u32 = SYSCON_IOPAD_CTRL_BASE_ADDR + 0xD4;
pub const syscon_iopad_ctrl_register54_REG_ADDR: u32 = SYSCON_IOPAD_CTRL_BASE_ADDR + 0xD8;
pub const syscon_iopad_ctrl_register55_REG_ADDR: u32 = SYSCON_IOPAD_CTRL_BASE_ADDR + 0xDC;
pub const syscon_iopad_ctrl_register56_REG_ADDR: u32 = SYSCON_IOPAD_CTRL_BASE_ADDR + 0xE0;
pub const syscon_iopad_ctrl_register57_REG_ADDR: u32 = SYSCON_IOPAD_CTRL_BASE_ADDR + 0xE4;
pub const syscon_iopad_ctrl_register58_REG_ADDR: u32 = SYSCON_IOPAD_CTRL_BASE_ADDR + 0xE8;
pub const syscon_iopad_ctrl_register59_REG_ADDR: u32 = SYSCON_IOPAD_CTRL_BASE_ADDR + 0xEC;
pub const syscon_iopad_ctrl_register60_REG_ADDR: u32 = SYSCON_IOPAD_CTRL_BASE_ADDR + 0xF0;
pub const syscon_iopad_ctrl_register61_REG_ADDR: u32 = SYSCON_IOPAD_CTRL_BASE_ADDR + 0xF4;
pub const syscon_iopad_ctrl_register62_REG_ADDR: u32 = SYSCON_IOPAD_CTRL_BASE_ADDR + 0xF8;
pub const syscon_iopad_ctrl_register63_REG_ADDR: u32 = SYSCON_IOPAD_CTRL_BASE_ADDR + 0xFC;
pub const syscon_iopad_ctrl_register64_REG_ADDR: u32 = SYSCON_IOPAD_CTRL_BASE_ADDR + 0x100;
pub const syscon_iopad_ctrl_register65_REG_ADDR: u32 = SYSCON_IOPAD_CTRL_BASE_ADDR + 0x104;
pub const syscon_iopad_ctrl_register66_REG_ADDR: u32 = SYSCON_IOPAD_CTRL_BASE_ADDR + 0x108;
pub const syscon_iopad_ctrl_register67_REG_ADDR: u32 = SYSCON_IOPAD_CTRL_BASE_ADDR + 0x10C;
pub const syscon_iopad_ctrl_register68_REG_ADDR: u32 = SYSCON_IOPAD_CTRL_BASE_ADDR + 0x110;
pub const syscon_iopad_ctrl_register69_REG_ADDR: u32 = SYSCON_IOPAD_CTRL_BASE_ADDR + 0x114;
pub const syscon_iopad_ctrl_register70_REG_ADDR: u32 = SYSCON_IOPAD_CTRL_BASE_ADDR + 0x118;
pub const syscon_iopad_ctrl_register71_REG_ADDR: u32 = SYSCON_IOPAD_CTRL_BASE_ADDR + 0x11C;
pub const syscon_iopad_ctrl_register72_REG_ADDR: u32 = SYSCON_IOPAD_CTRL_BASE_ADDR + 0x120;
pub const syscon_iopad_ctrl_register73_REG_ADDR: u32 = SYSCON_IOPAD_CTRL_BASE_ADDR + 0x124;
pub const syscon_iopad_ctrl_register74_REG_ADDR: u32 = SYSCON_IOPAD_CTRL_BASE_ADDR + 0x128;
pub const syscon_iopad_ctrl_register75_REG_ADDR: u32 = SYSCON_IOPAD_CTRL_BASE_ADDR + 0x12C;
pub const syscon_iopad_ctrl_register76_REG_ADDR: u32 = SYSCON_IOPAD_CTRL_BASE_ADDR + 0x130;
pub const syscon_iopad_ctrl_register77_REG_ADDR: u32 = SYSCON_IOPAD_CTRL_BASE_ADDR + 0x134;
pub const syscon_iopad_ctrl_register78_REG_ADDR: u32 = SYSCON_IOPAD_CTRL_BASE_ADDR + 0x138;
pub const syscon_iopad_ctrl_register79_REG_ADDR: u32 = SYSCON_IOPAD_CTRL_BASE_ADDR + 0x13C;
pub const syscon_iopad_ctrl_register80_REG_ADDR: u32 = SYSCON_IOPAD_CTRL_BASE_ADDR + 0x140;
pub const syscon_iopad_ctrl_register81_REG_ADDR: u32 = SYSCON_IOPAD_CTRL_BASE_ADDR + 0x144;
pub const syscon_iopad_ctrl_register82_REG_ADDR: u32 = SYSCON_IOPAD_CTRL_BASE_ADDR + 0x148;
pub const syscon_iopad_ctrl_register83_REG_ADDR: u32 = SYSCON_IOPAD_CTRL_BASE_ADDR + 0x14C;
pub const syscon_iopad_ctrl_register84_REG_ADDR: u32 = SYSCON_IOPAD_CTRL_BASE_ADDR + 0x150;
pub const syscon_iopad_ctrl_register85_REG_ADDR: u32 = SYSCON_IOPAD_CTRL_BASE_ADDR + 0x154;
pub const syscon_iopad_ctrl_register86_REG_ADDR: u32 = SYSCON_IOPAD_CTRL_BASE_ADDR + 0x158;
pub const syscon_iopad_ctrl_register87_REG_ADDR: u32 = SYSCON_IOPAD_CTRL_BASE_ADDR + 0x15C;
pub const syscon_iopad_ctrl_register88_REG_ADDR: u32 = SYSCON_IOPAD_CTRL_BASE_ADDR + 0x160;
pub const syscon_iopad_ctrl_register89_REG_ADDR: u32 = SYSCON_IOPAD_CTRL_BASE_ADDR + 0x164;
pub const syscon_iopad_ctrl_register90_REG_ADDR: u32 = SYSCON_IOPAD_CTRL_BASE_ADDR + 0x168;
pub const syscon_iopad_ctrl_register91_REG_ADDR: u32 = SYSCON_IOPAD_CTRL_BASE_ADDR + 0x16C;
pub const syscon_iopad_ctrl_register92_REG_ADDR: u32 = SYSCON_IOPAD_CTRL_BASE_ADDR + 0x170;
pub const syscon_iopad_ctrl_register93_REG_ADDR: u32 = SYSCON_IOPAD_CTRL_BASE_ADDR + 0x174;
pub const syscon_iopad_ctrl_register94_REG_ADDR: u32 = SYSCON_IOPAD_CTRL_BASE_ADDR + 0x178;
pub const syscon_iopad_ctrl_register95_REG_ADDR: u32 = SYSCON_IOPAD_CTRL_BASE_ADDR + 0x17C;
pub const syscon_iopad_ctrl_register96_REG_ADDR: u32 = SYSCON_IOPAD_CTRL_BASE_ADDR + 0x180;
pub const syscon_iopad_ctrl_register97_REG_ADDR: u32 = SYSCON_IOPAD_CTRL_BASE_ADDR + 0x184;
pub const syscon_iopad_ctrl_register98_REG_ADDR: u32 = SYSCON_IOPAD_CTRL_BASE_ADDR + 0x188;
pub const syscon_iopad_ctrl_register99_REG_ADDR: u32 = SYSCON_IOPAD_CTRL_BASE_ADDR + 0x18C;
pub const syscon_iopad_ctrl_register100_REG_ADDR: u32 = SYSCON_IOPAD_CTRL_BASE_ADDR + 0x190;
pub const syscon_iopad_ctrl_register101_REG_ADDR: u32 = SYSCON_IOPAD_CTRL_BASE_ADDR + 0x194;
pub const syscon_iopad_ctrl_register102_REG_ADDR: u32 = SYSCON_IOPAD_CTRL_BASE_ADDR + 0x198;
pub const syscon_iopad_ctrl_register103_REG_ADDR: u32 = SYSCON_IOPAD_CTRL_BASE_ADDR + 0x19C;
pub const syscon_iopad_ctrl_register104_REG_ADDR: u32 = SYSCON_IOPAD_CTRL_BASE_ADDR + 0x1A0;

/// Early pad setting (for the illegal instruction exception).
pub open spec fn iopadctl_early_state(s: RegState) -> RegState {
    field_step(s, syscon_iopad_ctrl_register50_REG_ADDR, 0xffffffff, 0x00c000c0u32 & 0xffffffff)
}

/// Pad share selection 6 and the function share pad controls.
pub open spec fn iopadctl_init_state(s: RegState) -> RegState {
    let s1 = field_step(s, syscon_iopad_ctrl_register104_REG_ADDR, 0x7, 6u32 & 0x7);
    let s2 = field_step(s1, syscon_iopad_ctrl_register32_REG_ADDR, 0xffffffff, 0x00c00000u32 & 0xffffffff);
    let s3 = field_step(s2, syscon_iopad_ctrl_register33_REG_ADDR, 0xffffffff, 0x00c000c0u32 & 0xffffffff);
    let s4 = field_step(s3, syscon_iopad_ctrl_register34_REG_ADDR, 0xffffffff, 0x00c000c0u32 & 0xffffffff);
    let s5 = field_step(s4, syscon_iopad_ctrl_register35_REG_ADDR, 0xffffffff, 0x00c000c0u32 & 0xffffffff);
    let s6 = field_step(s5, syscon_iopad_ctrl_register39_REG_ADDR, 0xffffffff, 0x00c300c3u32 & 0xffffffff);
    field_step(s6, syscon_iopad_ctrl_register38_REG_ADDR, 0xffffffff, 0x00c00000u32 & 0xffffffff)
}

/// The I/O pad controller.
pub struct IOpadctl {
    base: usize,
}

impl IOpadctl {
    pub closed spec fn spec_base(&self) -> usize {
        self.base
    }

    pub fn new() -> (r: IOpadctl)
        ensures
            r.spec_base() == 0,
    {
        IOpadctl { base: 0 }
    }

    /// Returns a pointer to the register block
    pub fn ptr(&self) -> (r: usize)
        ensures
            r == self.spec_base(),
    {
        self.base
    }

    /// Nothing to do.
    pub fn init(&mut self) -> (r: Result<(), DriverError>)
        ensures
            r is Ok,
    {
        Ok(())
    }

    pub fn pread(&self, _data: &mut [u8], _offset: usize) -> (r: Result<usize, DriverError>)
        ensures
            r == Err::<usize, DriverError>(DriverError::NotImplemented),
    {
        Err(DriverError::NotImplemented)
    }

    /// `on` sets the pads up, `early` does the early setting, both
    /// answering 1; anything else does nothing and answers 0.
    pub fn pwrite(&mut self, bus: &mut Mmio, data: &[u8], _offset: usize) -> (r: Result<usize, DriverError>)
        ensures
            is_on(data@) ==> r == Ok::<usize, DriverError>(1) && final(bus).state() == iopadctl_init_state(old(bus).state()),
            is_early(data@) ==> r == Ok::<usize, DriverError>(1) && final(bus).state() == iopadctl_early_state(old(bus).state()),
            !is_on(data@) && !is_early(data@) ==> r == Ok::<usize, DriverError>(0) && final(bus).state() == old(bus).state(),
    {
        if cmd_is_on(data) {
            self.iopadctl_init(bus);
            Ok(1)
        } else if cmd_is_early(data) {
            self.iopadctl_early(bus);
            Ok(1)
        } else {
            Ok(0)
        }
    }

    fn iopadctl_early(&mut self, bus: &mut Mmio)
        ensures
            final(bus).state() == iopadctl_early_state(old(bus).state()),
    {
        // for illegal instruction exception
        _SET_SYSCON_REG_register50_SCFG_funcshare_pad_ctrl_18(bus, 0x00c000c0);
    }

    /// IOpadctl initialization should only be done in romstage.
    fn iopadctl_init(&mut self, bus: &mut Mmio)
        ensures
            final(bus).state() == iopadctl_init_state(old(bus).state()),
    {
        _SET_SYSCON_REG_register104_SCFG_io_padshare_sel(bus, 6);
        _SET_SYSCON_REG_register32_SCFG_funcshare_pad_ctrl_0(bus, 0x00c00000);
        _SET_SYSCON_REG_register33_SCFG_funcshare_pad_ctrl_1(bus, 0x00c000c0);
        _SET_SYSCON_REG_register34_SCFG_funcshare_pad_ctrl_2(bus, 0x00c000c0);
        _SET_SYSCON_REG_register35_SCFG_funcshare_pad_ctrl_3(bus, 0x00c000c0);
        _SET_SYSCON_REG_register39_SCFG_funcshare_pad_ctrl_7(bus, 0x00c300c3);
        _SET_SYSCON_REG_register38_SCFG_funcshare_pad_ctrl_6(bus, 0x00c00000);
    }
}

pub fn _SET_SYSCON_REG_register0_SCFG_gpio_pad_ctrl_0(bus: &mut Mmio, v: u32)
    ensures
        final(bus).state() == field_step(old(bus).state(), syscon_iopad_ctrl_register0_REG_ADDR, 0xffffffff, v & 0xffffffff),
{
    set_field(bus, syscon_iopad_ctrl_register0_REG_ADDR, 0xffffffff, v & 0xffffffff);
}

pub fn _GET_SYSCON_REG_register0_SCFG_gpio_pad_ctrl_0(bus: &Mmio) -> (r: u32)
    ensures
        r == bus.value(syscon_iopad_ctrl_register0_REG_ADDR as u64) & 0xffffffff,
{
    bus.read32(syscon_iopad_ctrl_register0_REG_ADDR as u64) & 0xffffffff
}

pub fn _SET_SYSCON_REG_register1_SCFG_gpio_pad_ctrl_1(bus: &mut Mmio, v: u32)
    ensures
        final(bus).state() == field_step(old(bus).state(), syscon_iopad_ctrl_register1_REG_ADDR, 0xffffffff, v & 0xffffffff),
{
    set_field(bus, syscon_iopad_ctrl_register1_REG_ADDR, 0xffffffff, v & 0xffffffff);
}

pub fn _GET_SYSCON_REG_register1_SCFG_gpio_pad_ctrl_1(bus: &Mmio) -> (r: u32)
    ensures
        r == bus.value(syscon_iopad_ctrl_register1_REG_ADDR as u64) & 0xffffffff,
{
    bus.read32(syscon_iopad_ctrl_register1_REG_ADDR as u64) & 0xffffffff
}

pub fn _SET_SYSCON_REG_register2_SCFG_gpio_pad_ctrl_2(bus: &mut Mmio, v: u32)
    ensures
        final(bus).state() == field_step(old(bus).state(), syscon_iopad_ctrl_register2_REG_ADDR, 0xffffffff, v & 0xffffffff),
{
    set_field(bus, syscon_iopad_ctrl_register2_REG_ADDR, 0xffffffff, v & 0xffffffff);
}

pub fn _GET_SYSCON_REG_register2_SCFG_gpio_pad_ctrl_2(bus: &Mmio) -> (r: u32)
    ensures
        r == bus.value(syscon_iopad_ctrl_register2_REG_ADDR as u64) & 0xffffffff,
{
    bus.read32(syscon_iopad_ctrl_register2_REG_ADDR as u64) & 0xffffffff
}

pub fn _SET_SYSCON_REG_register3_SCFG_gpio_pad_ctrl_3(bus: &mut Mmio, v: u32)
    ensures
        final(bus).state() == field_step(old(bus).state(), syscon_iopad_ctrl_register3_REG_ADDR, 0xffffffff, v & 0xffffffff),
{
    set_field(bus, syscon_iopad_ctrl_register3_REG_ADDR, 0xffffffff, v & 0xffffffff);
}

pub fn _GET_SYSCON_REG_register3_SCFG_gpio_pad_ctrl_3(bus: &Mmio) -> (r: u32)
    ensures
        r == bus.value(syscon_iopad_ctrl_register3_REG_ADDR as u64) & 0xffffffff,
{
    bus.read32(syscon_iopad_ctrl_register3_REG_ADDR as u64) & 0xffffffff
}

pub fn _SET_SYSCON_REG_register4_SCFG_gpio_pad_ctrl_4(bus: &mut Mmio, v: u32)
    ensures
        final(bus).state() == field_step(old(bus).state(), syscon_iopad_ctrl_register4_REG_ADDR, 0xffffffff, v & 0xffffffff),
{
    set_field(bus, syscon_iopad_ctrl_register4_REG_ADDR, 0xffffffff, v & 0xffffffff);
}

pub fn _GET_SYSCON_REG_register4_SCFG_gpio_pad_ctrl_4(bus: &Mmio) -> (r: u32)
    ensures
        r == bus.value(syscon_iopad_ctrl_register4_REG_ADDR as u64) & 0xffffffff,
{
    bus.read32(syscon_iopad_ctrl_register4_REG_ADDR as u64) & 0xffffffff
}

pub fn _SET_SYSCON_REG_register5_SCFG_gpio_pad_ctrl_5(bus: &mut Mmio, v: u32)
    ensures
        final(bus).state() == field_step(old(bus).state(), syscon_iopad_ctrl_register5_REG_ADDR, 0xffffffff, v & 0xffffffff),
{
    set_field(bus, syscon_iopad_ctrl_register5_REG_ADDR, 0xffffffff, v & 0xffffffff);
}

pub fn _GET_SYSCON_REG_register5_SCFG_gpio_pad_ctrl_5(bus: &Mmio) -> (r: u32)
    ensures
        r == bus.value(syscon_iopad_ctrl_register5_REG_ADDR as u64) & 0xffffffff,
{
    bus.read32(syscon_iopad_ctrl_register5_REG_ADDR as u64) & 0xffffffff
}

pub fn _SET_SYSCON_REG_register6_SCFG_gpio_pad_ctrl_6(bus: &mut Mmio, v: u32)
    ensures
        final(bus).state() == field_step(old(bus).state(), syscon_iopad_ctrl_register6_REG_ADDR, 0xffffffff, v & 0xffffffff),
{
    set_field(bus, syscon_iopad_ctrl_register6_REG_ADDR, 0xffffffff, v & 0xffffffff);
}

pub fn _GET_SYSCON_REG_register6_SCFG_gpio_pad_ctrl_6(bus: &Mmio) -> (r: u32)
    ensures
        r == bus.value(syscon_iopad_ctrl_register6_REG_ADDR as u64) & 0xffffffff,
{
    bus.read32(syscon_iopad_ctrl_register6_REG_ADDR as u64) & 0xffffffff
}

pub fn _SET_SYSCON_REG_register7_SCFG_gpio_pad_ctrl_7(bus: &mut Mmio, v: u32)
    ensures
        final(bus).state() == field_step(old(bus).state(), syscon_iopad_ctrl_register7_REG_ADDR, 0xffffffff, v & 0xffffffff),
{
    set_field(bus, syscon_iopad_ctrl_register7_REG_ADDR, 0xffffffff, v & 0xffffffff);
}

pub fn _GET_SYSCON_REG_register7_SCFG_gpio_pad_ctrl_7(bus: &Mmio) -> (r: u32)
    ensures
        r == bus.value(syscon_iopad_ctrl_register7_REG_ADDR as u64) & 0xffffffff,
{
    bus.read32(syscon_iopad_ctrl_register7_REG_ADDR as u64) & 0xffffffff
}

pub fn _SET_SYSCON_REG_register8_SCFG_gpio_pad_ctrl_8(bus: &mut Mmio, v: u32)
    ensures
        final(bus).state() == field_step(old(bus).state(), syscon_iopad_ctrl_register8_REG_ADDR, 0xffffffff, v & 0xffffffff),
{
    set_field(bus, syscon_iopad_ctrl_register8_REG_ADDR, 0xffffffff, v & 0xffffffff);
}

pub fn _GET_SYSCON_REG_register8_SCFG_gpio_pad_ctrl_8(bus: &Mmio) -> (r: u32)
    ensures
        r == bus.value(syscon_iopad_ctrl_register8_REG_ADDR as u64) & 0xffffffff,
{
    bus.read32(syscon_iopad_ctrl_register8_REG_ADDR as u64) & 0xffffffff
}

pub fn _SET_SYSCON_REG_register9_SCFG_gpio_pad_ctrl_9(bus: &mut Mmio, v: u32)
    ensures
        final(bus).state() == field_step(old(bus).state(), syscon_iopad_ctrl_register9_REG_ADDR, 0xffffffff, v & 0xffffffff),
{
    set_field(bus, syscon_iopad_ctrl_register9_REG_ADDR, 0xffffffff, v & 0xffffffff);
}

pub fn _GET_SYSCON_REG_register9_SCFG_gpio_pad_ctrl_9(bus: &Mmio) -> (r: u32)
    ensures
        r == bus.value(syscon_iopad_ctrl_register9_REG_ADDR as u64) & 0xffffffff,
{
    bus.read32(syscon_iopad_ctrl_register9_REG_ADDR as u64) & 0xffffffff
}

pub fn _SET_SYSCON_REG_register10_SCFG_gpio_pad_ctrl_10(bus: &mut Mmio, v: u32)
    ensures
        final(bus).state() == field_step(old(bus).state(), syscon_iopad_ctrl_register10_REG_ADDR, 0xffffffff, v & 0xffffffff),
{
    set_field(bus, syscon_iopad_ctrl_register10_REG_ADDR, 0xffffffff, v & 0xffffffff);
}

pub fn _GET_SYSCON_REG_register10_SCFG_gpio_pad_ctrl_10(bus: &Mmio) -> (r: u32)
    ensures
        r == bus.value(syscon_iopad_ctrl_register10_REG_ADDR as u64) & 0xffffffff,
{
    bus.read32(syscon_iopad_ctrl_register10_REG_ADDR as u64) & 0xffffffff
}

pub fn _SET_SYSCON_REG_register11_SCFG_gpio_pad_ctrl_11(bus: &mut Mmio, v: u32)
    ensures
        final(bus).state() == field_step(old(bus).state(), syscon_iopad_ctrl_register11_REG_ADDR, 0xffffffff, v & 0xffffffff),
{
    set_field(bus, syscon_iopad_ctrl_register11_REG_ADDR, 0xffffffff, v & 0xffffffff);
}

pub fn _GET_SYSCON_REG_register11_SCFG_gpio_pad_ctrl_11(bus: &Mmio) -> (r: u32)
    ensures
        r == bus.value(syscon_iopad_ctrl_register11_REG_ADDR as u64) & 0xffffffff,
{
    bus.read32(syscon_iopad_ctrl_register11_REG_ADDR as u64) & 0xffffffff
}

pub fn _SET_SYSCON_REG_register12_SCFG_gpio_pad_ctrl_12(bus: &mut Mmio, v: u32)
    ensures
        final(bus).state() == field_step(old(bus).state(), syscon_iopad_ctrl_register12_REG_ADDR, 0xffffffff, v & 0xffffffff),
{
    set_field(bus, syscon_iopad_ctrl_register12_REG_ADDR, 0xffffffff, v & 0xffffffff);
}

pub fn _GET_SYSCON_REG_register12_SCFG_gpio_pad_ctrl_12(bus: &Mmio) -> (r: u32)
    ensures
        r == bus.value(syscon_iopad_ctrl_register12_REG_ADDR as u64) & 0xffffffff,
{
    bus.read32(syscon_iopad_ctrl_register12_REG_ADDR as u64) & 0xffffffff
}

pub fn _SET_SYSCON_REG_register13_SCFG_gpio_pad_ctrl_13(bus: &mut Mmio, v: u32)
    ensures
        final(bus).state() == field_step(old(bus).state(), syscon_iopad_ctrl_register13_REG_ADDR, 0xffffffff, v & 0xffffffff),
{
    set_field(bus, syscon_iopad_ctrl_register13_REG_ADDR, 0xffffffff, v & 0xffffffff);
}

pub fn _GET_SYSCON_REG_register13_SCFG_gpio_pad_ctrl_13(bus: &Mmio) -> (r: u32)
    ensures
        r == bus.value(syscon_iopad_ctrl_register13_REG_ADDR as u64) & 0xffffffff,
{
    bus.read32(syscon_iopad_ctrl_register13_REG_ADDR as u64) & 0xffffffff
}

pub fn _SET_SYSCON_REG_register14_SCFG_gpio_pad_ctrl_14(bus: &mut Mmio, v: u32)
    ensures
        final(bus).state() == field_step(old(bus).state(), syscon_iopad_ctrl_register14_REG_ADDR, 0xffffffff, v & 0xffffffff),
{
    set_field(bus, syscon_iopad_ctrl_register14_REG_ADDR, 0xffffffff, v & 0xffffffff);
}

pub fn _GET_SYSCON_REG_register14_SCFG_gpio_pad_ctrl_14(bus: &Mmio) -> (r: u32)
    ensures
        r == bus.value(syscon_iopad_ctrl_register14_REG_ADDR as u64) & 0xffffffff,
{
    bus.read32(syscon_iopad_ctrl_register14_REG_ADDR as u64) & 0xffffffff
}

pub fn _SET_SYSCON_REG_register15_SCFG_gpio_pad_ctrl_15(bus: &mut Mmio, v: u32)
    ensures
        final(bus).state() == field_step(old(bus).state(), syscon_iopad_ctrl_register15_REG_ADDR, 0xffffffff, v & 0xffffffff),
{
    set_field(bus, syscon_iopad_ctrl_register15_REG_ADDR, 0xffffffff, v & 0xffffffff);
}

pub fn _GET_SYSCON_REG_register15_SCFG_gpio_pad_ctrl_15(bus: &Mmio) -> (r: u32)
    ensures
        r == bus.value(syscon_iopad_ctrl_register15_REG_ADDR as u64) & 0xffffffff,
{
    bus.read32(syscon_iopad_ctrl_register15_REG_ADDR as u64) & 0xffffffff
}

pub fn _SET_SYSCON_REG_register16_SCFG_gpio_pad_ctrl_16(bus: &mut Mmio, v: u32)
    ensures
        final(bus).state() == field_step(old(bus).state(), syscon_iopad_ctrl_register16_REG_ADDR, 0xffffffff, v & 0xffffffff),
{
    set_field(bus, syscon_iopad_ctrl_register16_REG_ADDR, 0xffffffff, v & 0xffffffff);
}

pub fn _GET_SYSCON_REG_register16_SCFG_gpio_pad_ctrl_16(bus: &Mmio) -> (r: u32)
    ensures
        r == bus.value(syscon_iopad_ctrl_register16_REG_ADDR as u64) & 0xffffffff,
{
    bus.read32(syscon_iopad_ctrl_register16_REG_ADDR as u64) & 0xffffffff
}

pub fn _SET_SYSCON_REG_register17_SCFG_gpio_pad_ctrl_17(bus: &mut Mmio, v: u32)
    ensures
        final(bus).state() == field_step(old(bus).state(), syscon_iopad_ctrl_register17_REG_ADDR, 0xffffffff, v & 0xffffffff),
{
    set_field(bus, syscon_iopad_ctrl_register17_REG_ADDR, 0xffffffff, v & 0xffffffff);
}

pub fn _GET_SYSCON_REG_register17_SCFG_gpio_pad_ctrl_17(bus: &Mmio) -> (r: u32)
    ensures
        r == bus.value(syscon_iopad_ctrl_register17_REG_ADDR as u64) & 0xffffffff,
{
    bus.read32(syscon_iopad_ctrl_register17_REG_ADDR as u64) & 0xffffffff
}

pub fn _SET_SYSCON_REG_register18_SCFG_gpio_pad_ctrl_18(bus: &mut Mmio, v: u32)
    ensures
        final(bus).state() == field_step(old(bus).state(), syscon_iopad_ctrl_register18_REG_ADDR, 0xffffffff, v & 0xffffffff),
{
    set_field(bus, syscon_iopad_ctrl_register18_REG_ADDR, 0xffffffff, v & 0xffffffff);
}

pub fn _GET_SYSCON_REG_register18_SCFG_gpio_pad_ctrl_18(bus: &Mmio) -> (r: u32)
    ensures
        r == bus.value(syscon_iopad_ctrl_register18_REG_ADDR as u64) & 0xffffffff,
{
    bus.read32(syscon_iopad_ctrl_register18_REG_ADDR as u64) & 0xffffffff
}

pub fn _SET_SYSCON_REG_register19_SCFG_gpio_pad_ctrl_19(bus: &mut Mmio, v: u32)
    ensures
        final(bus).state() == field_step(old(bus).state(), syscon_iopad_ctrl_register19_REG_ADDR, 0xffffffff, v & 0xffffffff),
{
    set_field(bus, syscon_iopad_ctrl_register19_REG_ADDR, 0xffffffff, v & 0xffffffff);
}

pub fn _GET_SYSCON_REG_register19_SCFG_gpio_pad_ctrl_19(bus: &Mmio) -> (r: u32)
    ensures
        r == bus.value(syscon_iopad_ctrl_register19_REG_ADDR as u64) & 0xffffffff,
{
    bus.read32(syscon_iopad_ctrl_register19_REG_ADDR as u64) & 0xffffffff
}

pub fn _SET_SYSCON_REG_register20_SCFG_gpio_pad_ctrl_20(bus: &mut Mmio, v: u32)
    ensures
        final(bus).state() == field_step(old(bus).state(), syscon_iopad_ctrl_register20_REG_ADDR, 0xffffffff, v & 0xffffffff),
{
    set_field(bus, syscon_iopad_ctrl_register20_REG_ADDR, 0xffffffff, v & 0xffffffff);
}

pub fn _GET_SYSCON_REG_register20_SCFG_gpio_pad_ctrl_20(bus: &Mmio) -> (r: u32)
    ensures
        r == bus.value(syscon_iopad_ctrl_register20_REG_ADDR as u64) & 0xffffffff,
{
    bus.read32(syscon_iopad_ctrl_register20_REG_ADDR as u64) & 0xffffffff
}

pub fn _SET_SYSCON_REG_register21_SCFG_gpio_pad_ctrl_21(bus: &mut Mmio, v: u32)
    ensures
        final(bus).state() == field_step(old(bus).state(), syscon_iopad_ctrl_register21_REG_ADDR, 0xffffffff, v & 0xffffffff),
{
    set_field(bus, syscon_iopad_ctrl_register21_REG_ADDR, 0xffffffff, v & 0xffffffff);
}

pub fn _GET_SYSCON_REG_register21_SCFG_gpio_pad_ctrl_21(bus: &Mmio) -> (r: u32)
    ensures
        r == bus.value(syscon_iopad_ctrl_register21_REG_ADDR as u64) & 0xffffffff,
{
    bus.read32(syscon_iopad_ctrl_register21_REG_ADDR as u64) & 0xffffffff
}

pub fn _SET_SYSCON_REG_register22_SCFG_gpio_pad_ctrl_22(bus: &mut Mmio, v: u32)
    ensures
        final(bus).state() == field_step(old(bus).state(), syscon_iopad_ctrl_register22_REG_ADDR, 0xffffffff, v & 0xffffffff),
{
    set_field(bus, syscon_iopad_ctrl_register22_REG_ADDR, 0xffffffff, v & 0xffffffff);
}

pub fn _GET_SYSCON_REG_register22_SCFG_gpio_pad_ctrl_22(bus: &Mmio) -> (r: u32)
    ensures
        r == bus.value(syscon_iopad_ctrl_register22_REG_ADDR as u64) & 0xffffffff,
{
    bus.read32(syscon_iopad_ctrl_register22_REG_ADDR as u64) & 0xffffffff
}

pub fn _SET_SYSCON_REG_register23_SCFG_gpio_pad_ctrl_23(bus: &mut Mmio, v: u32)
    ensures
        final(bus).state() == field_step(old(bus).state(), syscon_iopad_ctrl_register23_REG_ADDR, 0xffffffff, v & 0xffffffff),
{
    set_field(bus, syscon_iopad_ctrl_register23_REG_ADDR, 0xffffffff, v & 0xffffffff);
}

pub fn _GET_SYSCON_REG_register23_SCFG_gpio_pad_ctrl_23(bus: &Mmio) -> (r: u32)
    ensures
        r == bus.value(syscon_iopad_ctrl_register23_REG_ADDR as u64) & 0xffffffff,
{
    bus.read32(syscon_iopad_ctrl_register23_REG_ADDR as u64) & 0xffffffff
}

pub fn _SET_SYSCON_REG_register24_SCFG_gpio_pad_ctrl_24(bus: &mut Mmio, v: u32)
    ensures
        final(bus).state() == field_step(old(bus).state(), syscon_iopad_ctrl_register24_REG_ADDR, 0xffffffff, v & 0xffffffff),
{
    set_field(bus, syscon_iopad_ctrl_register24_REG_ADDR, 0xffffffff, v & 0xffffffff);
}

pub fn _GET_SYSCON_REG_register24_SCFG_gpio_pad_ctrl_24(bus: &Mmio) -> (r: u32)
    ensures
        r == bus.value(syscon_iopad_ctrl_register24_REG_ADDR as u64) & 0xffffffff,
{
    bus.read32(syscon_iopad_ctrl_register24_REG_ADDR as u64) & 0xffffffff
}

pub fn _SET_SYSCON_REG_register25_SCFG_gpio_pad_ctrl_25(bus: &mut Mmio, v: u32)
    ensures
        final(bus).state() == field_step(old(bus).state(), syscon_iopad_ctrl_register25_REG_ADDR, 0xffffffff, v & 0xffffffff),
{
    set_field(bus, syscon_iopad_ctrl_register25_REG_ADDR, 0xffffffff, v & 0xffffffff);
}

pub fn _GET_SYSCON_REG_register25_SCFG_gpio_pad_ctrl_25(bus: &Mmio) -> (r: u32)
    ensures
        r == bus.value(syscon_iopad_ctrl_register25_REG_ADDR as u64) & 0xffffffff,
{
    bus.read32(syscon_iopad_ctrl_register25_REG_ADDR as u64) & 0xffffffff
}

pub fn _SET_SYSCON_REG_register26_SCFG_gpio_pad_ctrl_26(bus: &mut Mmio, v: u32)
    ensures
        final(bus).state() == field_step(old(bus).state(), syscon_iopad_ctrl_register26_REG_ADDR, 0xffffffff, v & 0xffffffff),
{
    set_field(bus, syscon_iopad_ctrl_register26_REG_ADDR, 0xffffffff, v & 0xffffffff);
}

pub fn _GET_SYSCON_REG_register26_SCFG_gpio_pad_ctrl_26(bus: &Mmio) -> (r: u32)
    ensures
        r == bus.value(syscon_iopad_ctrl_register26_REG_ADDR as u64) & 0xffffffff,
{
    bus.read32(syscon_iopad_ctrl_register26_REG_ADDR as u64) & 0xffffffff
}

pub fn _SET_SYSCON_REG_register27_SCFG_gpio_pad_ctrl_27(bus: &mut Mmio, v: u32)
    ensures
        final(bus).state() == field_step(old(bus).state(), syscon_iopad_ctrl_register27_REG_ADDR, 0xffffffff, v & 0xffffffff),
{
    set_field(bus, syscon_iopad_ctrl_register27_REG_ADDR, 0xffffffff, v & 0xffffffff);
}

pub fn _GET_SYSCON_REG_register27_SCFG_gpio_pad_ctrl_27(bus: &Mmio) -> (r: u32)
    ensures
        r == bus.value(syscon_iopad_ctrl_register27_REG_ADDR as u64) & 0xffffffff,
{
    bus.read32(syscon_iopad_ctrl_register27_REG_ADDR as u64) & 0xffffffff
}

pub fn _SET_SYSCON_REG_register28_SCFG_gpio_pad_ctrl_28(bus: &mut Mmio, v: u32)
    ensures
        final(bus).state() == field_step(old(bus).state(), syscon_iopad_ctrl_register28_REG_ADDR, 0xffffffff, v & 0xffffffff),
{
    set_field(bus, syscon_iopad_ctrl_register28_REG_ADDR, 0xffffffff, v & 0xffffffff);
}

pub fn _GET_SYSCON_REG_register28_SCFG_gpio_pad_ctrl_28(bus: &Mmio) -> (r: u32)
    ensures
        r == bus.value(syscon_iopad_ctrl_register28_REG_ADDR as u64) & 0xffffffff,
{
    bus.read32(syscon_iopad_ctrl_register28_REG_ADDR as u64) & 0xffffffff
}

pub fn _SET_SYSCON_REG_register29_SCFG_gpio_pad_ctrl_29(bus: &mut Mmio, v: u32)
    ensures
        final(bus).state() == field_step(old(bus).state(), syscon_iopad_ctrl_register29_REG_ADDR, 0xffffffff, v & 0xffffffff),
{
    set_field(bus, syscon_iopad_ctrl_register29_REG_ADDR, 0xffffffff, v & 0xffffffff);
}

pub fn _GET_SYSCON_REG_register29_SCFG_gpio_pad_ctrl_29(bus: &Mmio) -> (r: u32)
    ensures
        r == bus.value(syscon_iopad_ctrl_register29_REG_ADDR as u64) & 0xffffffff,
{
    bus.read32(syscon_iopad_ctrl_register29_REG_ADDR as u64) & 0xffffffff
}

pub fn _SET_SYSCON_REG_register30_SCFG_gpio_pad_ctrl_30(bus: &mut Mmio, v: u32)
    ensures
        final(bus).state() == field_step(old(bus).state(), syscon_iopad_ctrl_register30_REG_ADDR, 0xffffffff, v & 0xffffffff),
{
    set_field(bus, syscon_iopad_ctrl_register30_REG_ADDR, 0xffffffff, v & 0xffffffff);
}

pub fn _GET_SYSCON_REG_register30_SCFG_gpio_pad_ctrl_30(bus: &Mmio) -> (r: u32)
    ensures
        r == bus.value(syscon_iopad_ctrl_register30_REG_ADDR as u64) & 0xffffffff,
{
    bus.read32(syscon_iopad_ctrl_register30_REG_ADDR as u64) & 0xffffffff
}

pub fn _SET_SYSCON_REG_register31_SCFG_gpio_pad_ctrl_31(bus: &mut Mmio, v: u32)
    ensures
        final(bus).state() == field_step(old(bus).state(), syscon_iopad_ctrl_register31_REG_ADDR, 0xffffffff, v & 0xffffffff),
{
    set_field(bus, syscon_iopad_ctrl_register31_REG_ADDR, 0xffffffff, v & 0xffffffff);
}

pub fn _GET_SYSCON_REG_register31_SCFG_gpio_pad_ctrl_31(bus: &Mmio) -> (r: u32)
    ensures
        r == bus.value(syscon_iopad_ctrl_register31_REG_ADDR as u64) & 0xffffffff,
{
    bus.read32(syscon_iopad_ctrl_register31_REG_ADDR as u64) & 0xffffffff
}

pub fn _SET_SYSCON_REG_register32_SCFG_funcshare_pad_ctrl_0(bus: &mut Mmio, v: u32)
    ensures
        final(bus).state() == field_step(old(bus).state(), syscon_iopad_ctrl_register32_REG_ADDR, 0xffffffff, v & 0xffffffff),
{
    set_field(bus, syscon_iopad_ctrl_register32_REG_ADDR, 0xffffffff, v & 0xffffffff);
}

pub fn _GET_SYSCON_REG_register32_SCFG_funcshare_pad_ctrl_0(bus: &Mmio) -> (r: u32)
    ensures
        r == bus.value(syscon_iopad_ctrl_register32_REG_ADDR as u64) & 0xffffffff,
{
    bus.read32(syscon_iopad_ctrl_register32_REG_ADDR as u64) & 0xffffffff
}

pub fn _SET_SYSCON_REG_register33_SCFG_funcshare_pad_ctrl_1(bus: &mut Mmio, v: u32)
    ensures
        final(bus).state() == field_step(old(bus).state(), syscon_iopad_ctrl_register33_REG_ADDR, 0xffffffff, v & 0xffffffff),
{
    set_field(bus, syscon_iopad_ctrl_register33_REG_ADDR, 0xffffffff, v & 0xffffffff);
}

pub fn _GET_SYSCON_REG_register33_SCFG_funcshare_pad_ctrl_1(bus: &Mmio) -> (r: u32)
    ensures
        r == bus.value(syscon_iopad_ctrl_register33_REG_ADDR as u64) & 0xffffffff,
{
    bus.read32(syscon_iopad_ctrl_register33_REG_ADDR as u64) & 0xffffffff
}

pub fn _SET_SYSCON_REG_register34_SCFG_funcshare_pad_ctrl_2(bus: &mut Mmio, v: u32)
    ensures
        final(bus).state() == field_step(old(bus).state(), syscon_iopad_ctrl_register34_REG_ADDR, 0xffffffff, v & 0xffffffff),
{
    set_field(bus, syscon_iopad_ctrl_register34_REG_ADDR, 0xffffffff, v & 0xffffffff);
}

pub fn _GET_SYSCON_REG_register34_SCFG_funcshare_pad_ctrl_2(bus: &Mmio) -> (r: u32)
    ensures
        r == bus.value(syscon_iopad_ctrl_register34_REG_ADDR as u64) & 0xffffffff,
{
    bus.read32(syscon_iopad_ctrl_register34_REG_ADDR as u64) & 0xffffffff
}

pub fn _SET_SYSCON_REG_register35_SCFG_funcshare_pad_ctrl_3(bus: &mut Mmio, v: u32)
    ensures
        final(bus).state() == field_step(old(bus).state(), syscon_iopad_ctrl_register35_REG_ADDR, 0xffffffff, v & 0xffffffff),
{
    set_field(bus, syscon_iopad_ctrl_register35_REG_ADDR, 0xffffffff, v & 0xffffffff);
}

pub fn _GET_SYSCON_REG_register35_SCFG_funcshare_pad_ctrl_3(bus: &Mmio) -> (r: u32)
    ensures
        r == bus.value(syscon_iopad_ctrl_register35_REG_ADDR as u64) & 0xffffffff,
{
    bus.read32(syscon_iopad_ctrl_register35_REG_ADDR as u64) & 0xffffffff
}

pub fn _SET_SYSCON_REG_register36_SCFG_funcshare_pad_ctrl_4(bus: &mut Mmio, v: u32)
    ensures
        final(bus).state() == field_step(old(bus).state(), syscon_iopad_ctrl_register36_REG_ADDR, 0xffffffff, v & 0xffffffff),
{
    set_field(bus, syscon_iopad_ctrl_register36_REG_ADDR, 0xffffffff, v & 0xffffffff);
}

pub fn _GET_SYSCON_REG_register36_SCFG_funcshare_pad_ctrl_4(bus: &Mmio) -> (r: u32)
    ensures
        r == bus.value(syscon_iopad_ctrl_register36_REG_ADDR as u64) & 0xffffffff,
{
    bus.read32(syscon_iopad_ctrl_register36_REG_ADDR as u64) & 0xffffffff
}

pub fn _SET_SYSCON_REG_register37_SCFG_funcshare_pad_ctrl_5(bus: &mut Mmio, v: u32)
    ensures
        final(bus).state() == field_step(old(bus).state(), syscon_iopad_ctrl_register37_REG_ADDR, 0xffffffff, v & 0xffffffff),
{
    set_field(bus, syscon_iopad_ctrl_register37_REG_ADDR, 0xffffffff, v & 0xffffffff);
}

pub fn _GET_SYSCON_REG_register37_SCFG_funcshare_pad_ctrl_5(bus: &Mmio) -> (r: u32)
    ensures
        r == bus.value(syscon_iopad_ctrl_register37_REG_ADDR as u64) & 0xffffffff,
{
    bus.read32(syscon_iopad_ctrl_register37_REG_ADDR as u64) & 0xffffffff
}

pub fn _SET_SYSCON_REG_register38_SCFG_funcshare_pad_ctrl_6(bus: &mut Mmio, v: u32)
    ensures
        final(bus).state() == field_step(old(bus).state(), syscon_iopad_ctrl_register38_REG_ADDR, 0xffffffff, v & 0xffffffff),
{
    set_field(bus, syscon_iopad_ctrl_register38_REG_ADDR, 0xffffffff, v & 0xffffffff);
}

pub fn _GET_SYSCON_REG_register38_SCFG_funcshare_pad_ctrl_6(bus: &Mmio) -> (r: u32)
    ensures
        r == bus.value(syscon_iopad_ctrl_register38_REG_ADDR as u64) & 0xffffffff,
{
    bus.read32(syscon_iopad_ctrl_register38_REG_ADDR as u64) & 0xffffffff
}

pub fn _SET_SYSCON_REG_register39_SCFG_funcshare_pad_ctrl_7(bus: &mut Mmio, v: u32)
    ensures
        final(bus).state() == field_step(old(bus).state(), syscon_iopad_ctrl_register39_REG_ADDR, 0xffffffff, v & 0xffffffff),
{
    set_field(bus, syscon_iopad_ctrl_register39_REG_ADDR, 0xffffffff, v & 0xffffffff);
}

pub fn _GET_SYSCON_REG_register39_SCFG_funcshare_pad_ctrl_7(bus: &Mmio) -> (r: u32)
    ensures
        r == bus.value(syscon_iopad_ctrl_register39_REG_ADDR as u64) & 0xffffffff,
{
    bus.read32(syscon_iopad_ctrl_register39_REG_ADDR as u64) & 0xffffffff
}

pub fn _SET_SYSCON_REG_register40_SCFG_funcshare_pad_ctrl_8(bus: &mut Mmio, v: u32)
    ensures
        final(bus).state() == field_step(old(bus).state(), syscon_iopad_ctrl_register40_REG_ADDR, 0xffffffff, v & 0xffffffff),
{
    set_field(bus, syscon_iopad_ctrl_register40_REG_ADDR, 0xffffffff, v & 0xffffffff);
}

pub fn _GET_SYSCON_REG_register40_SCFG_funcshare_pad_ctrl_8(bus: &Mmio) -> (r: u32)
    ensures
        r == bus.value(syscon_iopad_ctrl_register40_REG_ADDR as u64) & 0xffffffff,
{
    bus.read32(syscon_iopad_ctrl_register40_REG_ADDR as u64) & 0xffffffff
}

pub fn _SET_SYSCON_REG_register41_SCFG_funcshare_pad_ctrl_9(bus: &mut Mmio, v: u32)
    ensures
        final(bus).state() == field_step(old(bus).state(), syscon_iopad_ctrl_register41_REG_ADDR, 0xffffffff, v & 0xffffffff),
{
    set_field(bus, syscon_iopad_ctrl_register41_REG_ADDR, 0xffffffff, v & 0xffffffff);
}

pub fn _GET_SYSCON_REG_register41_SCFG_funcshare_pad_ctrl_9(bus: &Mmio) -> (r: u32)
    ensures
        r == bus.value(syscon_iopad_ctrl_register41_REG_ADDR as u64) & 0xffffffff,
{
    bus.read32(syscon_iopad_ctrl_register41_REG_ADDR as u64) & 0xffffffff
}

pub fn _SET_SYSCON_REG_register42_SCFG_funcshare_pad_ctrl_10(bus: &mut Mmio, v: u32)
    ensures
        final(bus).state() == field_step(old(bus).state(), syscon_iopad_ctrl_register42_REG_ADDR, 0xffffffff, v & 0xffffffff),
{
    set_field(bus, syscon_iopad_ctrl_register42_REG_ADDR, 0xffffffff, v & 0xffffffff);
}

pub fn _GET_SYSCON_REG_register42_SCFG_funcshare_pad_ctrl_10(bus: &Mmio) -> (r: u32)
    ensures
        r == bus.value(syscon_iopad_ctrl_register42_REG_ADDR as u64) & 0xffffffff,
{
    bus.read32(syscon_iopad_ctrl_register42_REG_ADDR as u64) & 0xffffffff
}

pub fn _SET_SYSCON_REG_register43_SCFG_funcshare_pad_ctrl_11(bus: &mut Mmio, v: u32)
    ensures
        final(bus).state() == field_step(old(bus).state(), syscon_iopad_ctrl_register43_REG_ADDR, 0xffffffff, v & 0xffffffff),
{
    set_field(bus, syscon_iopad_ctrl_register43_REG_ADDR, 0xffffffff, v & 0xffffffff);
}

pub fn _GET_SYSCON_REG_register43_SCFG_funcshare_pad_ctrl_11(bus: &Mmio) -> (r: u32)
    ensures
        r == bus.value(syscon_iopad_ctrl_register43_REG_ADDR as u64) & 0xffffffff,
{
    bus.read32(syscon_iopad_ctrl_register43_REG_ADDR as u64) & 0xffffffff
}

pub fn _SET_SYSCON_REG_register44_SCFG_funcshare_pad_ctrl_12(bus: &mut Mmio, v: u32)
    ensures
        final(bus).state() == field_step(old(bus).state(), syscon_iopad_ctrl_register44_REG_ADDR, 0xffffffff, v & 0xffffffff),
{
    set_field(bus, syscon_iopad_ctrl_register44_REG_ADDR, 0xffffffff, v & 0xffffffff);
}

pub fn _GET_SYSCON_REG_register44_SCFG_funcshare_pad_ctrl_12(bus: &Mmio) -> (r: u32)
    ensures
        r == bus.value(syscon_iopad_ctrl_register44_REG_ADDR as u64) & 0xffffffff,
{
    bus.read32(syscon_iopad_ctrl_register44_REG_ADDR as u64) & 0xffffffff
}

pub fn _SET_SYSCON_REG_register45_SCFG_funcshare_pad_ctrl_13(bus: &mut Mmio, v: u32)
    ensures
        final(bus).state() == field_step(old(bus).state(), syscon_iopad_ctrl_register45_REG_ADDR, 0xffffffff, v & 0xffffffff),
{
    set_field(bus, syscon_iopad_ctrl_register45_REG_ADDR, 0xffffffff, v & 0xffffffff);
}

pub fn _GET_SYSCON_REG_register45_SCFG_funcshare_pad_ctrl_13(bus: &Mmio) -> (r: u32)
    ensures
        r == bus.value(syscon_iopad_ctrl_register45_REG_ADDR as u64) & 0xffffffff,
{
    bus.read32(syscon_iopad_ctrl_register45_REG_ADDR as u64) & 0xffffffff
}

pub fn _SET_SYSCON_REG_register46_SCFG_funcshare_pad_ctrl_14(bus: &mut Mmio, v: u32)
    ensures
        final(bus).state() == field_step(old(bus).state(), syscon_iopad_ctrl_register46_REG_ADDR, 0xffffffff, v & 0xffffffff),
{
    set_field(bus, syscon_iopad_ctrl_register46_REG_ADDR, 0xffffffff, v & 0xffffffff);
}

pub fn _GET_SYSCON_REG_register46_SCFG_funcshare_pad_ctrl_14(bus: &Mmio) -> (r: u32)
    ensures
        r == bus.value(syscon_iopad_ctrl_register46_REG_ADDR as u64) & 0xffffffff,
{
    bus.read32(syscon_iopad_ctrl_register46_REG_ADDR as u64) & 0xffffffff
}

pub fn _SET_SYSCON_REG_register47_SCFG_funcshare_pad_ctrl_15(bus: &mut Mmio, v: u32)
    ensures
        final(bus).state() == field_step(old(bus).state(), syscon_iopad_ctrl_register47_REG_ADDR, 0xffffffff, v & 0xffffffff),
{
    set_field(bus, syscon_iopad_ctrl_register47_REG_ADDR, 0xffffffff, v & 0xffffffff);
}

pub fn _GET_SYSCON_REG_register47_SCFG_funcshare_pad_ctrl_15(bus: &Mmio) -> (r: u32)
    ensures
        r == bus.value(syscon_iopad_ctrl_register47_REG_ADDR as u64) & 0xffffffff,
{
    bus.read32(syscon_iopad_ctrl_register47_REG_ADDR as u64) & 0xffffffff
}

pub fn _SET_SYSCON_REG_register48_SCFG_funcshare_pad_ctrl_16(bus: &mut Mmio, v: u32)
    ensures
        final(bus).state() == field_step(old(bus).state(), syscon_iopad_ctrl_register48_REG_ADDR, 0xffffffff, v & 0xffffffff),
{
    set_field(bus, syscon_iopad_ctrl_register48_REG_ADDR, 0xffffffff, v & 0xffffffff);
}

pub fn _GET_SYSCON_REG_register48_SCFG_funcshare_pad_ctrl_16(bus: &Mmio) -> (r: u32)
    ensures
        r == bus.value(syscon_iopad_ctrl_register48_REG_ADDR as u64) & 0xffffffff,
{
    bus.read32(syscon_iopad_ctrl_register48_REG_ADDR as u64) & 0xffffffff
}

pub fn _SET_SYSCON_REG_register49_SCFG_funcshare_pad_ctrl_17(bus: &mut Mmio, v: u32)
    ensures
        final(bus).state() == field_step(old(bus).state(), syscon_iopad_ctrl_register49_REG_ADDR, 0xffffffff, v & 0xffffffff),
{
    set_field(bus, syscon_iopad_ctrl_register49_REG_ADDR, 0xffffffff, v & 0xffffffff);
}

pub fn _GET_SYSCON_REG_register49_SCFG_funcshare_pad_ctrl_17(bus: &Mmio) -> (r: u32)
    ensures
        r == bus.value(syscon_iopad_ctrl_register49_REG_ADDR as u64) & 0xffffffff,
{
    bus.read32(syscon_iopad_ctrl_register49_REG_ADDR as u64) & 0xffffffff
}

pub fn _SET_SYSCON_REG_register50_SCFG_funcshare_pad_ctrl_18(bus: &mut Mmio, v: u32)
    ensures
        final(bus).state() == field_step(old(bus).state(), syscon_iopad_ctrl_register50_REG_ADDR, 0xffffffff, v & 0xffffffff),
{
    set_field(bus, syscon_iopad_ctrl_register50_REG_ADDR, 0xffffffff, v & 0xffffffff);
}

pub fn _GET_SYSCON_REG_register50_SCFG_funcshare_pad_ctrl_18(bus: &Mmio) -> (r: u32)
    ensures
        r == bus.value(syscon_iopad_ctrl_register50_REG_ADDR as u64) & 0xffffffff,
{
    bus.read32(syscon_iopad_ctrl_register50_REG_ADDR as u64) & 0xffffffff
}

pub fn _SET_SYSCON_REG_register51_SCFG_funcshare_pad_ctrl_19(bus: &mut Mmio, v: u32)
    ensures
        final(bus).state() == field_step(old(bus).state(), syscon_iopad_ctrl_register51_REG_ADDR, 0xffffffff, v & 0xffffffff),
{
    set_field(bus, syscon_iopad_ctrl_register51_REG_ADDR, 0xffffffff, v & 0xffffffff);
}

pub fn _GET_SYSCON_REG_register51_SCFG_funcshare_pad_ctrl_19(bus: &Mmio) -> (r: u32)
    ensures
        r == bus.value(syscon_iopad_ctrl_register51_REG_ADDR as u64) & 0xffffffff,
{
    bus.read32(syscon_iopad_ctrl_register51_REG_ADDR as u64) & 0xffffffff
}

pub fn _SET_SYSCON_REG_register52_SCFG_funcshare_pad_ctrl_20(bus: &mut Mmio, v: u32)
    ensures
        final(bus).state() == field_step(old(bus).state(), syscon_iopad_ctrl_register52_REG_ADDR, 0xffffffff, v & 0xffffffff),
{
    set_field(bus, syscon_iopad_ctrl_register52_REG_ADDR, 0xffffffff, v & 0xffffffff);
}

pub fn _GET_SYSCON_REG_register52_SCFG_funcshare_pad_ctrl_20(bus: &Mmio) -> (r: u32)
    ensures
        r == bus.value(syscon_iopad_ctrl_register52_REG_ADDR as u64) & 0xffffffff,
{
    bus.read32(syscon_iopad_ctrl_register52_REG_ADDR as u64) & 0xffffffff
}

pub fn _SET_SYSCON_REG_register53_SCFG_funcshare_pad_ctrl_21(bus: &mut Mmio, v: u32)
    ensures
        final(bus).state() == field_step(old(bus).state(), syscon_iopad_ctrl_register53_REG_ADDR, 0xffffffff, v & 0xffffffff),
{
    set_field(bus, syscon_iopad_ctrl_register53_REG_ADDR, 0xffffffff, v & 0xffffffff);
}

pub fn _GET_SYSCON_REG_register53_SCFG_funcshare_pad_ctrl_21(bus: &Mmio) -> (r: u32)
    ensures
        r == bus.value(syscon_iopad_ctrl_register53_REG_ADDR as u64) & 0xffffffff,
{
    bus.read32(syscon_iopad_ctrl_register53_REG_ADDR as u64) & 0xffffffff
}

pub fn _SET_SYSCON_REG_register54_SCFG_funcshare_pad_ctrl_22(bus: &mut Mmio, v: u32)
    ensures
        final(bus).state() == field_step(old(bus).state(), syscon_iopad_ctrl_register54_REG_ADDR, 0xffffffff, v & 0xffffffff),
{
    set_field(bus, syscon_iopad_ctrl_register54_REG_ADDR, 0xffffffff, v & 0xffffffff);
}

pub fn _GET_SYSCON_REG_register54_SCFG_funcshare_pad_ctrl_22(bus: &Mmio) -> (r: u32)
    ensures
        r == bus.value(syscon_iopad_ctrl_register54_REG_ADDR as u64) & 0xffffffff,
{
    bus.read32(syscon_iopad_ctrl_register54_REG_ADDR as u64) & 0xffffffff
}

pub fn _SET_SYSCON_REG_register55_SCFG_funcshare_pad_ctrl_23(bus: &mut Mmio, v: u32)
    ensures
        final(bus).state() == field_step(old(bus).state(), syscon_iopad_ctrl_register55_REG_ADDR, 0xffffffff, v & 0xffffffff),
{
    set_field(bus, syscon_iopad_ctrl_register55_REG_ADDR, 0xffffffff, v & 0xffffffff);
}

pub fn _GET_SYSCON_REG_register55_SCFG_funcshare_pad_ctrl_23(bus: &Mmio) -> (r: u32)
    ensures
        r == bus.value(syscon_iopad_ctrl_register55_REG_ADDR as u64) & 0xffffffff,
{
    bus.read32(syscon_iopad_ctrl_register55_REG_ADDR as u64) & 0xffffffff
}

pub fn _SET_SYSCON_REG_register56_SCFG_funcshare_pad_ctrl_24(bus: &mut Mmio, v: u32)
    ensures
        final(bus).state() == field_step(old(bus).state(), syscon_iopad_ctrl_register56_REG_ADDR, 0xffffffff, v & 0xffffffff),
{
    set_field(bus, syscon_iopad_ctrl_register56_REG_ADDR, 0xffffffff, v & 0xffffffff);
}

pub fn _GET_SYSCON_REG_register56_SCFG_funcshare_pad_ctrl_24(bus: &Mmio) -> (r: u32)
    ensures
        r == bus.value(syscon_iopad_ctrl_register56_REG_ADDR as u64) & 0xffffffff,
{
    bus.read32(syscon_iopad_ctrl_register56_REG_ADDR as u64) & 0xffffffff
}

pub fn _SET_SYSCON_REG_register57_SCFG_funcshare_pad_ctrl_25(bus: &mut Mmio, v: u32)
    ensures
        final(bus).state() == field_step(old(bus).state(), syscon_iopad_ctrl_register57_REG_ADDR, 0xffffffff, v & 0xffffffff),
{
    set_field(bus, syscon_iopad_ctrl_register57_REG_ADDR, 0xffffffff, v & 0xffffffff);
}

pub fn _GET_SYSCON_REG_register57_SCFG_funcshare_pad_ctrl_25(bus: &Mmio) -> (r: u32)
    ensures
        r == bus.value(syscon_iopad_ctrl_register57_REG_ADDR as u64) & 0xffffffff,
{
    bus.read32(syscon_iopad_ctrl_register57_REG_ADDR as u64) & 0xffffffff
}

pub fn _SET_SYSCON_REG_register58_SCFG_funcshare_pad_ctrl_26(bus: &mut Mmio, v: u32)
    ensures
        final(bus).state() == field_step(old(bus).state(), syscon_iopad_ctrl_register58_REG_ADDR, 0xffffffff, v & 0xffffffff),
{
    set_field(bus, syscon_iopad_ctrl_register58_REG_ADDR, 0xffffffff, v & 0xffffffff);
}

pub fn _GET_SYSCON_REG_register58_SCFG_funcshare_pad_ctrl_26(bus: &Mmio) -> (r: u32)
    ensures
        r == bus.value(syscon_iopad_ctrl_register58_REG_ADDR as u64) & 0xffffffff,
{
    bus.read32(syscon_iopad_ctrl_register58_REG_ADDR as u64) & 0xffffffff
}

pub fn _SET_SYSCON_REG_register59_SCFG_funcshare_pad_ctrl_27(bus: &mut Mmio, v: u32)
    ensures
        final(bus).state() == field_step(old(bus).state(), syscon_iopad_ctrl_register59_REG_ADDR, 0xffffffff, v & 0xffffffff),
{
    set_field(bus, syscon_iopad_ctrl_register59_REG_ADDR, 0xffffffff, v & 0xffffffff);
}

pub fn _GET_SYSCON_REG_register59_SCFG_funcshare_pad_ctrl_27(bus: &Mmio) -> (r: u32)
    ensures
        r == bus.value(syscon_iopad_ctrl_register59_REG_ADDR as u64) & 0xffffffff,
{
    bus.read32(syscon_iopad_ctrl_register59_REG_ADDR as u64) & 0xffffffff
}

pub fn _SET_SYSCON_REG_register60_SCFG_funcshare_pad_ctrl_28(bus: &mut Mmio, v: u32)
    ensures
        final(bus).state() == field_step(old(bus).state(), syscon_iopad_ctrl_register60_REG_ADDR, 0xffffffff, v & 0xffffffff),
{
    set_field(bus, syscon_iopad_ctrl_register60_REG_ADDR, 0xffffffff, v & 0xffffffff);
}

pub fn _GET_SYSCON_REG_register60_SCFG_funcshare_pad_ctrl_28(bus: &Mmio) -> (r: u32)
    ensures
        r == bus.value(syscon_iopad_ctrl_register60_REG_ADDR as u64) & 0xffffffff,
{
    bus.read32(syscon_iopad_ctrl_register60_REG_ADDR as u64) & 0xffffffff
}

pub fn _SET_SYSCON_REG_register61_SCFG_funcshare_pad_ctrl_29(bus: &mut Mmio, v: u32)
    ensures
        final(bus).state() == field_step(old(bus).state(), syscon_iopad_ctrl_register61_REG_ADDR, 0xffffffff, v & 0xffffffff),
{
    set_field(bus, syscon_iopad_ctrl_register61_REG_ADDR, 0xffffffff, v & 0xffffffff);
}

pub fn _GET_SYSCON_REG_register61_SCFG_funcshare_pad_ctrl_29(bus: &Mmio) -> (r: u32)
    ensures
        r == bus.value(syscon_iopad_ctrl_register61_REG_ADDR as u64) & 0xffffffff,
{
    bus.read32(syscon_iopad_ctrl_register61_REG_ADDR as u64) & 0xffffffff
}

pub fn _SET_SYSCON_REG_register62_SCFG_funcshare_pad_ctrl_30(bus: &mut Mmio, v: u32)
    ensures
        final(bus).state() == field_step(old(bus).state(), syscon_iopad_ctrl_register62_REG_ADDR, 0xffffffff, v & 0xffffffff),
{
    set_field(bus, syscon_iopad_ctrl_register62_REG_ADDR, 0xffffffff, v & 0xffffffff);
}

pub fn _GET_SYSCON_REG_register62_SCFG_funcshare_pad_ctrl_30(bus: &Mmio) -> (r: u32)
    ensures
        r == bus.value(syscon_iopad_ctrl_register62_REG_ADDR as u64) & 0xffffffff,
{
    bus.read32(syscon_iopad_ctrl_register62_REG_ADDR as u64) & 0xffffffff
}

pub fn _SET_SYSCON_REG_register63_SCFG_funcshare_pad_ctrl_31(bus: &mut Mmio, v: u32)
    ensures
        final(bus).state() == field_step(old(bus).state(), syscon_iopad_ctrl_register63_REG_ADDR, 0xffffffff, v & 0xffffffff),
{
    set_field(bus, syscon_iopad_ctrl_register63_REG_ADDR, 0xffffffff, v & 0xffffffff);
}

pub fn _GET_SYSCON_REG_register63_SCFG_funcshare_pad_ctrl_31(bus: &Mmio) -> (r: u32)
    ensures
        r == bus.value(syscon_iopad_ctrl_register63_REG_ADDR as u64) & 0xffffffff,
{
    bus.read32(syscon_iopad_ctrl_register63_REG_ADDR as u64) & 0xffffffff
}

pub fn _SET_SYSCON_REG_register64_SCFG_funcshare_pad_ctrl_32(bus: &mut Mmio, v: u32)
    ensures
        final(bus).state() == field_step(old(bus).state(), syscon_iopad_ctrl_register64_REG_ADDR, 0xffffffff, v & 0xffffffff),
{
    set_field(bus, syscon_iopad_ctrl_register64_REG_ADDR, 0xffffffff, v & 0xffffffff);
}

pub fn _GET_SYSCON_REG_register64_SCFG_funcshare_pad_ctrl_32(bus: &Mmio) -> (r: u32)
    ensures
        r == bus.value(syscon_iopad_ctrl_register64_REG_ADDR as u64) & 0xffffffff,
{
    bus.read32(syscon_iopad_ctrl_register64_REG_ADDR as u64) & 0xffffffff
}

pub fn _SET_SYSCON_REG_register65_SCFG_funcshare_pad_ctrl_33(bus: &mut Mmio, v: u32)
    ensures
        final(bus).state() == field_step(old(bus).state(), syscon_iopad_ctrl_register65_REG_ADDR, 0xffffffff, v & 0xffffffff),
{
    set_field(bus, syscon_iopad_ctrl_register65_REG_ADDR, 0xffffffff, v & 0xffffffff);
}

pub fn _GET_SYSCON_REG_register65_SCFG_funcshare_pad_ctrl_33(bus: &Mmio) -> (r: u32)
    ensures
        r == bus.value(syscon_iopad_ctrl_register65_REG_ADDR as u64) & 0xffffffff,
{
    bus.read32(syscon_iopad_ctrl_register65_REG_ADDR as u64) & 0xffffffff
}

pub fn _SET_SYSCON_REG_register66_SCFG_funcshare_pad_ctrl_34(bus: &mut Mmio, v: u32)
    ensures
        final(bus).state() == field_step(old(bus).state(), syscon_iopad_ctrl_register66_REG_ADDR, 0xffffffff, v & 0xffffffff),
{
    set_field(bus, syscon_iopad_ctrl_register66_REG_ADDR, 0xffffffff, v & 0xffffffff);
}

pub fn _GET_SYSCON_REG_register66_SCFG_funcshare_pad_ctrl_34(bus: &Mmio) -> (r: u32)
    ensures
        r == bus.value(syscon_iopad_ctrl_register66_REG_ADDR as u64) & 0xffffffff,
{
    bus.read32(syscon_iopad_ctrl_register66_REG_ADDR as u64) & 0xffffffff
}

pub fn _SET_SYSCON_REG_register67_SCFG_funcshare_pad_ctrl_35(bus: &mut Mmio, v: u32)
    ensures
        final(bus).state() == field_step(old(bus).state(), syscon_iopad_ctrl_register67_REG_ADDR, 0xffffffff, v & 0xffffffff),
{
    set_field(bus, syscon_iopad_ctrl_register67_REG_ADDR, 0xffffffff, v & 0xffffffff);
}

pub fn _GET_SYSCON_REG_register67_SCFG_funcshare_pad_ctrl_35(bus: &Mmio) -> (r: u32)
    ensures
        r == bus.value(syscon_iopad_ctrl_register67_REG_ADDR as u64) & 0xffffffff,
{
    bus.read32(syscon_iopad_ctrl_register67_REG_ADDR as u64) & 0xffffffff
}

pub fn _SET_SYSCON_REG_register68_SCFG_funcshare_pad_ctrl_36(bus: &mut Mmio, v: u32)
    ensures
        final(bus).state() == field_step(old(bus).state(), syscon_iopad_ctrl_register68_REG_ADDR, 0xffffffff, v & 0xffffffff),
{
    set_field(bus, syscon_iopad_ctrl_register68_REG_ADDR, 0xffffffff, v & 0xffffffff);
}

pub fn _GET_SYSCON_REG_register68_SCFG_funcshare_pad_ctrl_36(bus: &Mmio) -> (r: u32)
    ensures
        r == bus.value(syscon_iopad_ctrl_register68_REG_ADDR as u64) & 0xffffffff,
{
    bus.read32(syscon_iopad_ctrl_register68_REG_ADDR as u64) & 0xffffffff
}

pub fn _SET_SYSCON_REG_register69_SCFG_funcshare_pad_ctrl_37(bus: &mut Mmio, v: u32)
    ensures
        final(bus).state() == field_step(old(bus).state(), syscon_iopad_ctrl_register69_REG_ADDR, 0xffffffff, v & 0xffffffff),
{
    set_field(bus, syscon_iopad_ctrl_register69_REG_ADDR, 0xffffffff, v & 0xffffffff);
}

pub fn _GET_SYSCON_REG_register69_SCFG_funcshare_pad_ctrl_37(bus: &Mmio) -> (r: u32)
    ensures
        r == bus.value(syscon_iopad_ctrl_register69_REG_ADDR as u64) & 0xffffffff,
{
    bus.read32(syscon_iopad_ctrl_register69_REG_ADDR as u64) & 0xffffffff
}

pub fn _SET_SYSCON_REG_register70_SCFG_funcshare_pad_ctrl_38(bus: &mut Mmio, v: u32)
    ensures
        final(bus).state() == field_step(old(bus).state(), syscon_iopad_ctrl_register70_REG_ADDR, 0xffffffff, v & 0xffffffff),
{
    set_field(bus, syscon_iopad_ctrl_register70_REG_ADDR, 0xffffffff, v & 0xffffffff);
}

pub fn _GET_SYSCON_REG_register70_SCFG_funcshare_pad_ctrl_38(bus: &Mmio) -> (r: u32)
    ensures
        r == bus.value(syscon_iopad_ctrl_register70_REG_ADDR as u64) & 0xffffffff,
{
    bus.read32(syscon_iopad_ctrl_register70_REG_ADDR as u64) & 0xffffffff
}

pub fn _SET_SYSCON_REG_register71_SCFG_funcshare_pad_ctrl_39(bus: &mut Mmio, v: u32)
    ensures
        final(bus).state() == field_step(old(bus).state(), syscon_iopad_ctrl_register71_REG_ADDR, 0xffffffff, v & 0xffffffff),
{
    set_field(bus, syscon_iopad_ctrl_register71_REG_ADDR, 0xffffffff, v & 0xffffffff);
}

pub fn _GET_SYSCON_REG_register71_SCFG_funcshare_pad_ctrl_39(bus: &Mmio) -> (r: u32)
    ensures
        r == bus.value(syscon_iopad_ctrl_register71_REG_ADDR as u64) & 0xffffffff,
{
    bus.read32(syscon_iopad_ctrl_register71_REG_ADDR as u64) & 0xffffffff
}

pub fn _SET_SYSCON_REG_register72_SCFG_funcshare_pad_ctrl_40(bus: &mut Mmio, v: u32)
    ensures
        final(bus).state() == field_step(old(bus).state(), syscon_iopad_ctrl_register72_REG_ADDR, 0xffffffff, v & 0xffffffff),
{
    set_field(bus, syscon_iopad_ctrl_register72_REG_ADDR, 0xffffffff, v & 0xffffffff);
}

pub fn _GET_SYSCON_REG_register72_SCFG_funcshare_pad_ctrl_40(bus: &Mmio) -> (r: u32)
    ensures
        r == bus.value(syscon_iopad_ctrl_register72_REG_ADDR as u64) & 0xffffffff,
{
    bus.read32(syscon_iopad_ctrl_register72_REG_ADDR as u64) & 0xffffffff
}

pub fn _SET_SYSCON_REG_register73_SCFG_funcshare_pad_ctrl_41(bus: &mut Mmio, v: u32)
    ensures
        final(bus).state() == field_step(old(bus).state(), syscon_iopad_ctrl_register73_REG_ADDR, 0xffffffff, v & 0xffffffff),
{
    set_field(bus, syscon_iopad_ctrl_register73_REG_ADDR, 0xffffffff, v & 0xffffffff);
}

pub fn _GET_SYSCON_REG_register73_SCFG_funcshare_pad_ctrl_41(bus: &Mmio) -> (r: u32)
    ensures
        r == bus.value(syscon_iopad_ctrl_register73_REG_ADDR as u64) & 0xffffffff,
{
    bus.read32(syscon_iopad_ctrl_register73_REG_ADDR as u64) & 0xffffffff
}

pub fn _SET_SYSCON_REG_register74_SCFG_funcshare_pad_ctrl_42(bus: &mut Mmio, v: u32)
    ensures
        final(bus).state() == field_step(old(bus).state(), syscon_iopad_ctrl_register74_REG_ADDR, 0xffffffff, v & 0xffffffff),
{
    set_field(bus, syscon_iopad_ctrl_register74_REG_ADDR, 0xffffffff, v & 0xffffffff);
}

pub fn _GET_SYSCON_REG_register74_SCFG_funcshare_pad_ctrl_42(bus: &Mmio) -> (r: u32)
    ensures
        r == bus.value(syscon_iopad_ctrl_register74_REG_ADDR as u64) & 0xffffffff,
{
    bus.read32(syscon_iopad_ctrl_register74_REG_ADDR as u64) & 0xffffffff
}

pub fn _SET_SYSCON_REG_register75_SCFG_funcshare_pad_ctrl_43(bus: &mut Mmio, v: u32)
    ensures
        final(bus).state() == field_step(old(bus).state(), syscon_iopad_ctrl_register75_REG_ADDR, 0xffffffff, v & 0xffffffff),
{
    set_field(bus, syscon_iopad_ctrl_register75_REG_ADDR, 0xffffffff, v & 0xffffffff);
}

pub fn _GET_SYSCON_REG_register75_SCFG_funcshare_pad_ctrl_43(bus: &Mmio) -> (r: u32)
    ensures
        r == bus.value(syscon_iopad_ctrl_register75_REG_ADDR as u64) & 0xffffffff,
{
    bus.read32(syscon_iopad_ctrl_register75_REG_ADDR as u64) & 0xffffffff
}

pub fn _SET_SYSCON_REG_register76_SCFG_funcshare_pad_ctrl_44(bus: &mut Mmio, v: u32)
    ensures
        final(bus).state() == field_step(old(bus).state(), syscon_iopad_ctrl_register76_REG_ADDR, 0xffffffff, v & 0xffffffff),
{
    set_field(bus, syscon_iopad_ctrl_register76_REG_ADDR, 0xffffffff, v & 0xffffffff);
}

pub fn _GET_SYSCON_REG_register76_SCFG_funcshare_pad_ctrl_44(bus: &Mmio) -> (r: u32)
    ensures
        r == bus.value(syscon_iopad_ctrl_register76_REG_ADDR as u64) & 0xffffffff,
{
    bus.read32(syscon_iopad_ctrl_register76_REG_ADDR as u64) & 0xffffffff
}

pub fn _SET_SYSCON_REG_register77_SCFG_funcshare_pad_ctrl_45(bus: &mut Mmio, v: u32)
    ensures
        final(bus).state() == field_step(old(bus).state(), syscon_iopad_ctrl_register77_REG_ADDR, 0xffffffff, v & 0xffffffff),
{
    set_field(bus, syscon_iopad_ctrl_register77_REG_ADDR, 0xffffffff, v & 0xffffffff);
}

pub fn _GET_SYSCON_REG_register77_SCFG_funcshare_pad_ctrl_45(bus: &Mmio) -> (r: u32)
    ensures
        r == bus.value(syscon_iopad_ctrl_register77_REG_ADDR as u64) & 0xffffffff,
{
    bus.read32(syscon_iopad_ctrl_register77_REG_ADDR as u64) & 0xffffffff
}

pub fn _SET_SYSCON_REG_register78_SCFG_funcshare_pad_ctrl_46(bus: &mut Mmio, v: u32)
    ensures
        final(bus).state() == field_step(old(bus).state(), syscon_iopad_ctrl_register78_REG_ADDR, 0xffffffff, v & 0xffffffff),
{
    set_field(bus, syscon_iopad_ctrl_register78_REG_ADDR, 0xffffffff, v & 0xffffffff);
}

pub fn _GET_SYSCON_REG_register78_SCFG_funcshare_pad_ctrl_46(bus: &Mmio) -> (r: u32)
    ensures
        r == bus.value(syscon_iopad_ctrl_register78_REG_ADDR as u64) & 0xffffffff,
{
    bus.read32(syscon_iopad_ctrl_register78_REG_ADDR as u64) & 0xffffffff
}

pub fn _SET_SYSCON_REG_register79_SCFG_funcshare_pad_ctrl_47(bus: &mut Mmio, v: u32)
    ensures
        final(bus).state() == field_step(old(bus).state(), syscon_iopad_ctrl_register79_REG_ADDR, 0xffffffff, v & 0xffffffff),
{
    set_field(bus, syscon_iopad_ctrl_register79_REG_ADDR, 0xffffffff, v & 0xffffffff);
}

pub fn _GET_SYSCON_REG_register79_SCFG_funcshare_pad_ctrl_47(bus: &Mmio) -> (r: u32)
    ensures
        r == bus.value(syscon_iopad_ctrl_register79_REG_ADDR as u64) & 0xffffffff,
{
    bus.read32(syscon_iopad_ctrl_register79_REG_ADDR as u64) & 0xffffffff
}

pub fn _SET_SYSCON_REG_register80_SCFG_funcshare_pad_ctrl_48(bus: &mut Mmio, v: u32)
    ensures
        final(bus).state() == field_step(old(bus).state(), syscon_iopad_ctrl_register80_REG_ADDR, 0xffffffff, v & 0xffffffff),
{
    set_field(bus, syscon_iopad_ctrl_register80_REG_ADDR, 0xffffffff, v & 0xffffffff);
}

pub fn _GET_SYSCON_REG_register80_SCFG_funcshare_pad_ctrl_48(bus: &Mmio) -> (r: u32)
    ensures
        r == bus.value(syscon_iopad_ctrl_register80_REG_ADDR as u64) & 0xffffffff,
{
    bus.read32(syscon_iopad_ctrl_register80_REG_ADDR as u64) & 0xffffffff
}

pub fn _SET_SYSCON_REG_register81_SCFG_funcshare_pad_ctrl_49(bus: &mut Mmio, v: u32)
    ensures
        final(bus).state() == field_step(old(bus).state(), syscon_iopad_ctrl_register81_REG_ADDR, 0xffffffff, v & 0xffffffff),
{
    set_field(bus, syscon_iopad_ctrl_register81_REG_ADDR, 0xffffffff, v & 0xffffffff);
}

pub fn _GET_SYSCON_REG_register81_SCFG_funcshare_pad_ctrl_49(bus: &Mmio) -> (r: u32)
    ensures
        r == bus.value(syscon_iopad_ctrl_register81_REG_ADDR as u64) & 0xffffffff,
{
    bus.read32(syscon_iopad_ctrl_register81_REG_ADDR as u64) & 0xffffffff
}

pub fn _SET_SYSCON_REG_register82_SCFG_funcshare_pad_ctrl_50(bus: &mut Mmio, v: u32)
    ensures
        final(bus).state() == field_step(old(bus).state(), syscon_iopad_ctrl_register82_REG_ADDR, 0xffffffff, v & 0xffffffff),
{
    set_field(bus, syscon_iopad_ctrl_register82_REG_ADDR, 0xffffffff, v & 0xffffffff);
}

pub fn _GET_SYSCON_REG_register82_SCFG_funcshare_pad_ctrl_50(bus: &Mmio) -> (r: u32)
    ensures
        r == bus.value(syscon_iopad_ctrl_register82_REG_ADDR as u64) & 0xffffffff,
{
    bus.read32(syscon_iopad_ctrl_register82_REG_ADDR as u64) & 0xffffffff
}

pub fn _SET_SYSCON_REG_register83_SCFG_funcshare_pad_ctrl_51(bus: &mut Mmio, v: u32)
    ensures
        final(bus).state() == field_step(old(bus).state(), syscon_iopad_ctrl_register83_REG_ADDR, 0xffffffff, v & 0xffffffff),
{
    set_field(bus, syscon_iopad_ctrl_register83_REG_ADDR, 0xffffffff, v & 0xffffffff);
}

pub fn _GET_SYSCON_REG_register83_SCFG_funcshare_pad_ctrl_51(bus: &Mmio) -> (r: u32)
    ensures
        r == bus.value(syscon_iopad_ctrl_register83_REG_ADDR as u64) & 0xffffffff,
{
    bus.read32(syscon_iopad_ctrl_register83_REG_ADDR as u64) & 0xffffffff
}

pub fn _SET_SYSCON_REG_register84_SCFG_funcshare_pad_ctrl_52(bus: &mut Mmio, v: u32)
    ensures
        final(bus).state() == field_step(old(bus).state(), syscon_iopad_ctrl_register84_REG_ADDR, 0xffffffff, v & 0xffffffff),
{
    set_field(bus, syscon_iopad_ctrl_register84_REG_ADDR, 0xffffffff, v & 0xffffffff);
}

pub fn _GET_SYSCON_REG_register84_SCFG_funcshare_pad_ctrl_52(bus: &Mmio) -> (r: u32)
    ensures
        r == bus.value(syscon_iopad_ctrl_register84_REG_ADDR as u64) & 0xffffffff,
{
    bus.read32(syscon_iopad_ctrl_register84_REG_ADDR as u64) & 0xffffffff
}

pub fn _SET_SYSCON_REG_register85_SCFG_funcshare_pad_ctrl_53(bus: &mut Mmio, v: u32)
    ensures
        final(bus).state() == field_step(old(bus).state(), syscon_iopad_ctrl_register85_REG_ADDR, 0xffffffff, v & 0xffffffff),
{
    set_field(bus, syscon_iopad_ctrl_register85_REG_ADDR, 0xffffffff, v & 0xffffffff);
}

pub fn _GET_SYSCON_REG_register85_SCFG_funcshare_pad_ctrl_53(bus: &Mmio) -> (r: u32)
    ensures
        r == bus.value(syscon_iopad_ctrl_register85_REG_ADDR as u64) & 0xffffffff,
{
    bus.read32(syscon_iopad_ctrl_register85_REG_ADDR as u64) & 0xffffffff
}

pub fn _SET_SYSCON_REG_register86_SCFG_funcshare_pad_ctrl_54(bus: &mut Mmio, v: u32)
    ensures
        final(bus).state() == field_step(old(bus).state(), syscon_iopad_ctrl_register86_REG_ADDR, 0xffffffff, v & 0xffffffff),
{
    set_field(bus, syscon_iopad_ctrl_register86_REG_ADDR, 0xffffffff, v & 0xffffffff);
}

pub fn _GET_SYSCON_REG_register86_SCFG_funcshare_pad_ctrl_54(bus: &Mmio) -> (r: u32)
    ensures
        r == bus.value(syscon_iopad_ctrl_register86_REG_ADDR as u64) & 0xffffffff,
{
    bus.read32(syscon_iopad_ctrl_register86_REG_ADDR as u64) & 0xffffffff
}

pub fn _SET_SYSCON_REG_register87_SCFG_funcshare_pad_ctrl_55(bus: &mut Mmio, v: u32)
    ensures
        final(bus).state() == field_step(old(bus).state(), syscon_iopad_ctrl_register87_REG_ADDR, 0xffffffff, v & 0xffffffff),
{
    set_field(bus, syscon_iopad_ctrl_register87_REG_ADDR, 0xffffffff, v & 0xffffffff);
}

pub fn _GET_SYSCON_REG_register87_SCFG_funcshare_pad_ctrl_55(bus: &Mmio) -> (r: u32)
    ensures
        r == bus.value(syscon_iopad_ctrl_register87_REG_ADDR as u64) & 0xffffffff,
{
    bus.read32(syscon_iopad_ctrl_register87_REG_ADDR as u64) & 0xffffffff
}

pub fn _SET_SYSCON_REG_register88_SCFG_funcshare_pad_ctrl_56(bus: &mut Mmio, v: u32)
    ensures
        final(bus).state() == field_step(old(bus).state(), syscon_iopad_ctrl_register88_REG_ADDR, 0xffffffff, v & 0xffffffff),
{
    set_field(bus, syscon_iopad_ctrl_register88_REG_ADDR, 0xffffffff, v & 0xffffffff);
}

pub fn _GET_SYSCON_REG_register88_SCFG_funcshare_pad_ctrl_56(bus: &Mmio) -> (r: u32)
    ensures
        r == bus.value(syscon_iopad_ctrl_register88_REG_ADDR as u64) & 0xffffffff,
{
    bus.read32(syscon_iopad_ctrl_register88_REG_ADDR as u64) & 0xffffffff
}

pub fn _SET_SYSCON_REG_register89_SCFG_funcshare_pad_ctrl_57(bus: &mut Mmio, v: u32)
    ensures
        final(bus).state() == field_step(old(bus).state(), syscon_iopad_ctrl_register89_REG_ADDR, 0xffffffff, v & 0xffffffff),
{
    set_field(bus, syscon_iopad_ctrl_register89_REG_ADDR, 0xffffffff, v & 0xffffffff);
}

pub fn _GET_SYSCON_REG_register89_SCFG_funcshare_pad_ctrl_57(bus: &Mmio) -> (r: u32)
    ensures
        r == bus.value(syscon_iopad_ctrl_register89_REG_ADDR as u64) & 0xffffffff,
{
    bus.read32(syscon_iopad_ctrl_register89_REG_ADDR as u64) & 0xffffffff
}

pub fn _SET_SYSCON_REG_register90_SCFG_funcshare_pad_ctrl_58(bus: &mut Mmio, v: u32)
    ensures
        final(bus).state() == field_step(old(bus).state(), syscon_iopad_ctrl_register90_REG_ADDR, 0xffffffff, v & 0xffffffff),
{
    set_field(bus, syscon_iopad_ctrl_register90_REG_ADDR, 0xffffffff, v & 0xffffffff);
}

pub fn _GET_SYSCON_REG_register90_SCFG_funcshare_pad_ctrl_58(bus: &Mmio) -> (r: u32)
    ensures
        r == bus.value(syscon_iopad_ctrl_register90_REG_ADDR as u64) & 0xffffffff,
{
    bus.read32(syscon_iopad_ctrl_register90_REG_ADDR as u64) & 0xffffffff
}

pub fn _SET_SYSCON_REG_register91_SCFG_funcshare_pad_ctrl_59(bus: &mut Mmio, v: u32)
    ensures
        final(bus).state() == field_step(old(bus).state(), syscon_iopad_ctrl_register91_REG_ADDR, 0xffffffff, v & 0xffffffff),
{
    set_field(bus, syscon_iopad_ctrl_register91_REG_ADDR, 0xffffffff, v & 0xffffffff);
}

pub fn _GET_SYSCON_REG_register91_SCFG_funcshare_pad_ctrl_59(bus: &Mmio) -> (r: u32)
    ensures
        r == bus.value(syscon_iopad_ctrl_register91_REG_ADDR as u64) & 0xffffffff,
{
    bus.read32(syscon_iopad_ctrl_register91_REG_ADDR as u64) & 0xffffffff
}

pub fn _SET_SYSCON_REG_register92_SCFG_funcshare_pad_ctrl_60(bus: &mut Mmio, v: u32)
    ensures
        final(bus).state() == field_step(old(bus).state(), syscon_iopad_ctrl_register92_REG_ADDR, 0xffffffff, v & 0xffffffff),
{
    set_field(bus, syscon_iopad_ctrl_register92_REG_ADDR, 0xffffffff, v & 0xffffffff);
}

pub fn _GET_SYSCON_REG_register92_SCFG_funcshare_pad_ctrl_60(bus: &Mmio) -> (r: u32)
    ensures
        r == bus.value(syscon_iopad_ctrl_register92_REG_ADDR as u64) & 0xffffffff,
{
    bus.read32(syscon_iopad_ctrl_register92_REG_ADDR as u64) & 0xffffffff
}

pub fn _SET_SYSCON_REG_register93_SCFG_funcshare_pad_ctrl_61(bus: &mut Mmio, v: u32)
    ensures
        final(bus).state() == field_step(old(bus).state(), syscon_iopad_ctrl_register93_REG_ADDR, 0xffffffff, v & 0xffffffff),
{
    set_field(bus, syscon_iopad_ctrl_register93_REG_ADDR, 0xffffffff, v & 0xffffffff);
}

pub fn _GET_SYSCON_REG_register93_SCFG_funcshare_pad_ctrl_61(bus: &Mmio) -> (r: u32)
    ensures
        r == bus.value(syscon_iopad_ctrl_register93_REG_ADDR as u64) & 0xffffffff,
{
    bus.read32(syscon_iopad_ctrl_register93_REG_ADDR as u64) & 0xffffffff
}

pub fn _SET_SYSCON_REG_register94_SCFG_funcshare_pad_ctrl_62(bus: &mut Mmio, v: u32)
    ensures
        final(bus).state() == field_step(old(bus).state(), syscon_iopad_ctrl_register94_REG_ADDR, 0xffffffff, v & 0xffffffff),
{
    set_field(bus, syscon_iopad_ctrl_register94_REG_ADDR, 0xffffffff, v & 0xffffffff);
}

pub fn _GET_SYSCON_REG_register94_SCFG_funcshare_pad_ctrl_62(bus: &Mmio) -> (r: u32)
    ensures
        r == bus.value(syscon_iopad_ctrl_register94_REG_ADDR as u64) & 0xffffffff,
{
    bus.read32(syscon_iopad_ctrl_register94_REG_ADDR as u64) & 0xffffffff
}

pub fn _SET_SYSCON_REG_register95_SCFG_funcshare_pad_ctrl_63(bus: &mut Mmio, v: u32)
    ensures
        final(bus).state() == field_step(old(bus).state(), syscon_iopad_ctrl_register95_REG_ADDR, 0xffffffff, v & 0xffffffff),
{
    set_field(bus, syscon_iopad_ctrl_register95_REG_ADDR, 0xffffffff, v & 0xffffffff);
}

pub fn _GET_SYSCON_REG_register95_SCFG_funcshare_pad_ctrl_63(bus: &Mmio) -> (r: u32)
    ensures
        r == bus.value(syscon_iopad_ctrl_register95_REG_ADDR as u64) & 0xffffffff,
{
    bus.read32(syscon_iopad_ctrl_register95_REG_ADDR as u64) & 0xffffffff
}

pub fn _SET_SYSCON_REG_register96_SCFG_funcshare_pad_ctrl_64(bus: &mut Mmio, v: u32)
    ensures
        final(bus).state() == field_step(old(bus).state(), syscon_iopad_ctrl_register96_REG_ADDR, 0xffffffff, v & 0xffffffff),
{
    set_field(bus, syscon_iopad_ctrl_register96_REG_ADDR, 0xffffffff, v & 0xffffffff);
}

pub fn _GET_SYSCON_REG_register96_SCFG_funcshare_pad_ctrl_64(bus: &Mmio) -> (r: u32)
    ensures
        r == bus.value(syscon_iopad_ctrl_register96_REG_ADDR as u64) & 0xffffffff,
{
    bus.read32(syscon_iopad_ctrl_register96_REG_ADDR as u64) & 0xffffffff
}

pub fn _SET_SYSCON_REG_register97_SCFG_funcshare_pad_ctrl_65(bus: &mut Mmio, v: u32)
    ensures
        final(bus).state() == field_step(old(bus).state(), syscon_iopad_ctrl_register97_REG_ADDR, 0xffffffff, v & 0xffffffff),
{
    set_field(bus, syscon_iopad_ctrl_register97_REG_ADDR, 0xffffffff, v & 0xffffffff);
}

pub fn _GET_SYSCON_REG_register97_SCFG_funcshare_pad_ctrl_65(bus: &Mmio) -> (r: u32)
    ensures
        r == bus.value(syscon_iopad_ctrl_register97_REG_ADDR as u64) & 0xffffffff,
{
    bus.read32(syscon_iopad_ctrl_register97_REG_ADDR as u64) & 0xffffffff
}

pub fn _SET_SYSCON_REG_register98_SCFG_funcshare_pad_ctrl_66(bus: &mut Mmio, v: u32)
    ensures
        final(bus).state() == field_step(old(bus).state(), syscon_iopad_ctrl_register98_REG_ADDR, 0xffffffff, v & 0xffffffff),
{
    set_field(bus, syscon_iopad_ctrl_register98_REG_ADDR, 0xffffffff, v & 0xffffffff);
}

pub fn _GET_SYSCON_REG_register98_SCFG_funcshare_pad_ctrl_66(bus: &Mmio) -> (r: u32)
    ensures
        r == bus.value(syscon_iopad_ctrl_register98_REG_ADDR as u64) & 0xffffffff,
{
    bus.read32(syscon_iopad_ctrl_register98_REG_ADDR as u64) & 0xffffffff
}

pub fn _SET_SYSCON_REG_register99_SCFG_funcshare_pad_ctrl_67(bus: &mut Mmio, v: u32)
    ensures
        final(bus).state() == field_step(old(bus).state(), syscon_iopad_ctrl_register99_REG_ADDR, 0xffffffff, v & 0xffffffff),
{
    set_field(bus, syscon_iopad_ctrl_register99_REG_ADDR, 0xffffffff, v & 0xffffffff);
}

pub fn _GET_SYSCON_REG_register99_SCFG_funcshare_pad_ctrl_67(bus: &Mmio) -> (r: u32)
    ensures
        r == bus.value(syscon_iopad_ctrl_register99_REG_ADDR as u64) & 0xffffffff,
{
    bus.read32(syscon_iopad_ctrl_register99_REG_ADDR as u64) & 0xffffffff
}

pub fn _SET_SYSCON_REG_register100_SCFG_funcshare_pad_ctrl_68(bus: &mut Mmio, v: u32)
    ensures
        final(bus).state() == field_step(old(bus).state(), syscon_iopad_ctrl_register100_REG_ADDR, 0xffffffff, v & 0xffffffff),
{
    set_field(bus, syscon_iopad_ctrl_register100_REG_ADDR, 0xffffffff, v & 0xffffffff);
}

pub fn _GET_SYSCON_REG_register100_SCFG_funcshare_pad_ctrl_68(bus: &Mmio) -> (r: u32)
    ensures
        r == bus.value(syscon_iopad_ctrl_register100_REG_ADDR as u64) & 0xffffffff,
{
    bus.read32(syscon_iopad_ctrl_register100_REG_ADDR as u64) & 0xffffffff
}

pub fn _SET_SYSCON_REG_register101_SCFG_funcshare_pad_ctrl_69(bus: &mut Mmio, v: u32)
    ensures
        final(bus).state() == field_step(old(bus).state(), syscon_iopad_ctrl_register101_REG_ADDR, 0xffffffff, v & 0xffffffff),
{
    set_field(bus, syscon_iopad_ctrl_register101_REG_ADDR, 0xffffffff, v & 0xffffffff);
}

pub fn _GET_SYSCON_REG_register101_SCFG_funcshare_pad_ctrl_69(bus: &Mmio) -> (r: u32)
    ensures
        r == bus.value(syscon_iopad_ctrl_register101_REG_ADDR as u64) & 0xffffffff,
{
    bus.read32(syscon_iopad_ctrl_register101_REG_ADDR as u64) & 0xffffffff
}

pub fn _SET_SYSCON_REG_register102_SCFG_funcshare_pad_ctrl_70(bus: &mut Mmio, v: u32)
    ensures
        final(bus).state() == field_step(old(bus).state(), syscon_iopad_ctrl_register102_REG_ADDR, 0xffffffff, v & 0xffffffff),
{
    set_field(bus, syscon_iopad_ctrl_register102_REG_ADDR, 0xffffffff, v & 0xffffffff);
}

pub fn _GET_SYSCON_REG_register102_SCFG_funcshare_pad_ctrl_70(bus: &Mmio) -> (r: u32)
    ensures
        r == bus.value(syscon_iopad_ctrl_register102_REG_ADDR as u64) & 0xffffffff,
{
    bus.read32(syscon_iopad_ctrl_register102_REG_ADDR as u64) & 0xffffffff
}

pub fn _SET_SYSCON_REG_register103_SCFG_qspi_ioctrl(bus: &mut Mmio, v: u32)
    ensures
        final(bus).state() == field_step(old(bus).state(), syscon_iopad_ctrl_register103_REG_ADDR, 0x7f, v & 0x7f),
{
    set_field(bus, syscon_iopad_ctrl_register103_REG_ADDR, 0x7f, v & 0x7f);
}

pub fn _GET_SYSCON_REG_register103_SCFG_qspi_ioctrl(bus: &Mmio) -> (r: u32)
    ensures
        r == bus.value(syscon_iopad_ctrl_register103_REG_ADDR as u64) & 0x7f,
{
    bus.read32(syscon_iopad_ctrl_register103_REG_ADDR as u64) & 0x7f
}

pub fn _SET_SYSCON_REG_register104_SCFG_io_padshare_sel(bus: &mut Mmio, v: u32)
    ensures
        final(bus).state() == field_step(old(bus).state(), syscon_iopad_ctrl_register104_REG_ADDR, 0x7, v & 0x7),
{
    set_field(bus, syscon_iopad_ctrl_register104_REG_ADDR, 0x7, v & 0x7);
}

pub fn _GET_SYSCON_REG_register104_SCFG_io_padshare_sel(bus: &Mmio) -> (r: u32)
    ensures
        r == bus.value(syscon_iopad_ctrl_register104_REG_ADDR as u64) & 0x7,
{
    bus.read32(syscon_iopad_ctrl_register104_REG_ADDR as u64) & 0x7
}

} // verus!
