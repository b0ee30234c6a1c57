//! Reset generator: the reset assert and status fields and the driver.
#![allow(non_snake_case)]
#![allow(non_upper_case_globals)]
use vstd::prelude::*;
use crate::mmio::{Mmio, RegState};
use crate::starfive::jh7100::{field_step, set_field, cmd_is_on, cmd_is_early, is_on, DriverError};
use crate::starfive::jh7100::clock::{_ENABLE_CLOCK_clk_x2c_axi_, _ENABLE_CLOCK_clk_msi_apb_, clk_x2c_axi_ctrl_REG_ADDR, clk_msi_apb_ctrl_REG_ADDR};

verus! {

pub const RSTGEN_BASE_ADDR: u32 = 0x1184_0000;
pub const rstgen_Software_RESET_assert0_REG_ADDR: u32 = RSTGEN_BASE_ADDR + 0x0;
pub const rstgen_Software_RESET_assert1_REG_ADDR: u32 = RSTGEN_BASE_ADDR + 0x4;
pub const rstgen_Software_RESET_assert2_REG_ADDR: u32 = RSTGEN_BASE_ADDR + 0x8;
pub const rstgen_Software_RESET_assert3_REG_ADDR: u32 = RSTGEN_BASE_ADDR + 0xC;
pub const rstgen_Software_RESET_status0_REG_ADDR: u32 = RSTGEN_BASE_ADDR + 0x10;
pub const rstgen_Software_RESET_status1_REG_ADDR: u32 = RSTGEN_BASE_ADDR + 0x14;
pub const rstgen_Software_RESET_status2_REG_ADDR: u32 = RSTGEN_BASE_ADDR + 0x18;
pub const rstgen_Software_RESET_status3_REG_ADDR: u32 = RSTGEN_BASE_ADDR + 0x1C;

/// Out of reset: USB and HiFi4 NoC AXI, X2C AXI (clock on), DSP X2C AXI,
/// DMA1P AXI, MSI APB (clock on); then X2C AXI is reset once more.
pub open spec fn rstgen_init_state(s: RegState) -> RegState {
    let a1 = rstgen_Software_RESET_assert1_REG_ADDR;
    let s1 = field_step(s, a1, 0x40, 0x0);
    let s2 = field_step(s1, a1, 0x4, 0x0);
    let s3 = field_step(s2, clk_x2c_axi_ctrl_REG_ADDR, 0x80000000, 0x80000000);
    let s4 = field_step(s3, a1, 0x200, 0x0);
    let s5 = field_step(s4, a1, 0x4000, 0x0);
    let s6 = field_step(s5, a1, 0x100, 0x0);
    let s7 = field_step(s6, clk_msi_apb_ctrl_REG_ADDR, 0x80000000, 0x80000000);
    let s8 = field_step(s7, rstgen_Software_RESET_assert3_REG_ADDR, 0x4000, 0x0);
    let s9 = field_step(s8, a1, 0x200, 0x200);
    field_step(s9, a1, 0x200, 0x0)
}

/// The reset generator.
pub struct RSTgen {
    base: usize,
}

impl RSTgen {
    pub closed spec fn spec_base(&self) -> usize {
        self.base
    }

    pub fn new() -> (r: RSTgen)
        ensures
            r.spec_base() == 0,
    {
        RSTgen { base: 0 }
    }

    /// Returns a pointer to the register block
    pub fn ptr(&self) -> (r: usize)
        ensures
            r == self.spec_base(),
    {
        self.base
    }

    /// Nothing to do.
    pub fn init(&mut self) -> (r: Result<(), DriverError>)
        ensures
            r is Ok,
    {
        Ok(())
    }

    pub fn pread(&self, _data: &mut [u8], _offset: usize) -> (r: Result<usize, DriverError>)
        ensures
            r == Err::<usize, DriverError>(DriverError::NotImplemented),
    {
        Err(DriverError::NotImplemented)
    }

    /// `on` takes the blocks out of reset and answers 1; `early` and
    /// anything else do nothing and answer 0.
    pub fn pwrite(&mut self, bus: &mut Mmio, data: &[u8], _offset: usize) -> (r: Result<usize, DriverError>)
        ensures
            is_on(data@) ==> r == Ok::<usize, DriverError>(1) && final(bus).state() == rstgen_init_state(old(bus).state()),
            !is_on(data@) ==> r == Ok::<usize, DriverError>(0) && final(bus).state() == old(bus).state(),
    {
        if cmd_is_on(data) {
            self.rstgen_init(bus);
            Ok(1)
        } else if cmd_is_early(data) {
            Ok(0)
        } else {
            Ok(0)
        }
    }

    /// RSTgen initialization should only be done in romstage.
    fn rstgen_init(&mut self, bus: &mut Mmio)
        ensures
            final(bus).state() == rstgen_init_state(old(bus).state()),
    {
        _CLEAR_RESET_rstgen_rstn_usbnoc_axi_(bus);
        _CLEAR_RESET_rstgen_rstn_hifi4noc_axi_(bus);
        _ENABLE_CLOCK_clk_x2c_axi_(bus);
        _CLEAR_RESET_rstgen_rstn_x2c_axi_(bus);
        _CLEAR_RESET_rstgen_rstn_dspx2c_axi_(bus);
        _CLEAR_RESET_rstgen_rstn_dma1p_axi_(bus);
        _ENABLE_CLOCK_clk_msi_apb_(bus);
        _CLEAR_RESET_rstgen_rstn_msi_apb_(bus);
        _ASSERT_RESET_rstgen_rstn_x2c_axi_(bus);
        _CLEAR_RESET_rstgen_rstn_x2c_axi_(bus);
    }
}

pub fn _READ_RESET_STATUS_rstgen_rstn_dom3ahb_bus_(bus: &Mmio) -> (r: u32)
    ensures
        r == bus.value(rstgen_Software_RESET_status0_REG_ADDR as u64) & 0x1,
{
    bus.read32(rstgen_Software_RESET_status0_REG_ADDR as u64) & 0x1
}

pub fn _ASSERT_RESET_rstgen_rstn_dom3ahb_bus_(bus: &mut Mmio)
    ensures
        final(bus).state() == field_step(old(bus).state(), rstgen_Software_RESET_assert0_REG_ADDR, 0x1, 0x1),
{
    set_field(bus, rstgen_Software_RESET_assert0_REG_ADDR, 0x1, 0x1);
    let _ = bus.read32(rstgen_Software_RESET_status0_REG_ADDR as u64);
}

pub fn _CLEAR_RESET_rstgen_rstn_dom3ahb_bus_(bus: &mut Mmio)
    ensures
        final(bus).state() == field_step(old(bus).state(), rstgen_Software_RESET_assert0_REG_ADDR, 0x1, 0x0),
{
    set_field(bus, rstgen_Software_RESET_assert0_REG_ADDR, 0x1, 0x0);
    let _ = bus.read32(rstgen_Software_RESET_status0_REG_ADDR as u64);
}

pub fn _READ_RESET_STATUS_rstgen_rstn_dom7ahb_bus_(bus: &Mmio) -> (r: u32)
    ensures
        r == (bus.value(rstgen_Software_RESET_status0_REG_ADDR as u64) >> 1u32) & 0x1,
{
    (bus.read32(rstgen_Software_RESET_status0_REG_ADDR as u64) >> 1u32) & 0x1
}

pub fn _ASSERT_RESET_rstgen_rstn_dom7ahb_bus_(bus: &mut Mmio)
    ensures
        final(bus).state() == field_step(old(bus).state(), rstgen_Software_RESET_assert0_REG_ADDR, 0x2, 0x2),
{
    set_field(bus, rstgen_Software_RESET_assert0_REG_ADDR, 0x2, 0x2);
    let _ = bus.read32(rstgen_Software_RESET_status0_REG_ADDR as u64);
}

pub fn _CLEAR_RESET_rstgen_rstn_dom7ahb_bus_(bus: &mut Mmio)
    ensures
        final(bus).state() == field_step(old(bus).state(), rstgen_Software_RESET_assert0_REG_ADDR, 0x2, 0x0),
{
    set_field(bus, rstgen_Software_RESET_assert0_REG_ADDR, 0x2, 0x0);
    let _ = bus.read32(rstgen_Software_RESET_status0_REG_ADDR as u64);
}

pub fn _READ_RESET_STATUS_rstgen_rst_u74_(bus: &Mmio) -> (r: u32)
    ensures
        r == (bus.value(rstgen_Software_RESET_status0_REG_ADDR as u64) >> 2u32) & 0x1,
{
    (bus.read32(rstgen_Software_RESET_status0_REG_ADDR as u64) >> 2u32) & 0x1
}

pub fn _ASSERT_RESET_rstgen_rst_u74_(bus: &mut Mmio)
    ensures
        final(bus).state() == field_step(old(bus).state(), rstgen_Software_RESET_assert0_REG_ADDR, 0x4, 0x4),
{
    set_field(bus, rstgen_Software_RESET_assert0_REG_ADDR, 0x4, 0x4);
    let _ = bus.read32(rstgen_Software_RESET_status0_REG_ADDR as u64);
}

pub fn _CLEAR_RESET_rstgen_rst_u74_(bus: &mut Mmio)
    ensures
        final(bus).state() == field_step(old(bus).state(), rstgen_Software_RESET_assert0_REG_ADDR, 0x4, 0x0),
{
    set_field(bus, rstgen_Software_RESET_assert0_REG_ADDR, 0x4, 0x0);
    let _ = bus.read32(rstgen_Software_RESET_status0_REG_ADDR as u64);
}

pub fn _READ_RESET_STATUS_rstgen_rstn_u74_axi_(bus: &Mmio) -> (r: u32)
    ensures
        r == (bus.value(rstgen_Software_RESET_status0_REG_ADDR as u64) >> 3u32) & 0x1,
{
    (bus.read32(rstgen_Software_RESET_status0_REG_ADDR as u64) >> 3u32) & 0x1
}

pub fn _ASSERT_RESET_rstgen_rstn_u74_axi_(bus: &mut Mmio)
    ensures
        final(bus).state() == field_step(old(bus).state(), rstgen_Software_RESET_assert0_REG_ADDR, 0x8, 0x8),
{
    set_field(bus, rstgen_Software_RESET_assert0_REG_ADDR, 0x8, 0x8);
    let _ = bus.read32(rstgen_Software_RESET_status0_REG_ADDR as u64);
}

pub fn _CLEAR_RESET_rstgen_rstn_u74_axi_(bus: &mut Mmio)
    ensures
        final(bus).state() == field_step(old(bus).state(), rstgen_Software_RESET_assert0_REG_ADDR, 0x8, 0x0),
{
    set_field(bus, rstgen_Software_RESET_assert0_REG_ADDR, 0x8, 0x0);
    let _ = bus.read32(rstgen_Software_RESET_status0_REG_ADDR as u64);
}

pub fn _READ_RESET_STATUS_rstgen_rstn_sgdma2p_ahb_(bus: &Mmio) -> (r: u32)
    ensures
        r == (bus.value(rstgen_Software_RESET_status0_REG_ADDR as u64) >> 4u32) & 0x1,
{
    (bus.read32(rstgen_Software_RESET_status0_REG_ADDR as u64) >> 4u32) & 0x1
}

pub fn _ASSERT_RESET_rstgen_rstn_sgdma2p_ahb_(bus: &mut Mmio)
    ensures
        final(bus).state() == field_step(old(bus).state(), rstgen_Software_RESET_assert0_REG_ADDR, 0x10, 0x10),
{
    set_field(bus, rstgen_Software_RESET_assert0_REG_ADDR, 0x10, 0x10);
    let _ = bus.read32(rstgen_Software_RESET_status0_REG_ADDR as u64);
}

pub fn _CLEAR_RESET_rstgen_rstn_sgdma2p_ahb_(bus: &mut Mmio)
    ensures
        final(bus).state() == field_step(old(bus).state(), rstgen_Software_RESET_assert0_REG_ADDR, 0x10, 0x0),
{
    set_field(bus, rstgen_Software_RESET_assert0_REG_ADDR, 0x10, 0x0);
    let _ = bus.read32(rstgen_Software_RESET_status0_REG_ADDR as u64);
}

pub fn _READ_RESET_STATUS_rstgen_rstn_sgdma2p_axi_(bus: &Mmio) -> (r: u32)
    ensures
        r == (bus.value(rstgen_Software_RESET_status0_REG_ADDR as u64) >> 5u32) & 0x1,
{
    (bus.read32(rstgen_Software_RESET_status0_REG_ADDR as u64) >> 5u32) & 0x1
}

pub fn _ASSERT_RESET_rstgen_rstn_sgdma2p_axi_(bus: &mut Mmio)
    ensures
        final(bus).state() == field_step(old(bus).state(), rstgen_Software_RESET_assert0_REG_ADDR, 0x20, 0x20),
{
    set_field(bus, rstgen_Software_RESET_assert0_REG_ADDR, 0x20, 0x20);
    let _ = bus.read32(rstgen_Software_RESET_status0_REG_ADDR as u64);
}

pub fn _CLEAR_RESET_rstgen_rstn_sgdma2p_axi_(bus: &mut Mmio)
    ensures
        final(bus).state() == field_step(old(bus).state(), rstgen_Software_RESET_assert0_REG_ADDR, 0x20, 0x0),
{
    set_field(bus, rstgen_Software_RESET_assert0_REG_ADDR, 0x20, 0x0);
    let _ = bus.read32(rstgen_Software_RESET_status0_REG_ADDR as u64);
}

pub fn _READ_RESET_STATUS_rstgen_rstn_dma2pnoc_aix_(bus: &Mmio) -> (r: u32)
    ensures
        r == (bus.value(rstgen_Software_RESET_status0_REG_ADDR as u64) >> 6u32) & 0x1,
{
    (bus.read32(rstgen_Software_RESET_status0_REG_ADDR as u64) >> 6u32) & 0x1
}

pub fn _ASSERT_RESET_rstgen_rstn_dma2pnoc_aix_(bus: &mut Mmio)
    ensures
        final(bus).state() == field_step(old(bus).state(), rstgen_Software_RESET_assert0_REG_ADDR, 0x40, 0x40),
{
    set_field(bus, rstgen_Software_RESET_assert0_REG_ADDR, 0x40, 0x40);
    let _ = bus.read32(rstgen_Software_RESET_status0_REG_ADDR as u64);
}

pub fn _CLEAR_RESET_rstgen_rstn_dma2pnoc_aix_(bus: &mut Mmio)
    ensures
        final(bus).state() == field_step(old(bus).state(), rstgen_Software_RESET_assert0_REG_ADDR, 0x40, 0x0),
{
    set_field(bus, rstgen_Software_RESET_assert0_REG_ADDR, 0x40, 0x0);
    let _ = bus.read32(rstgen_Software_RESET_status0_REG_ADDR as u64);
}

pub fn _READ_RESET_STATUS_rstgen_rstn_dla_axi_(bus: &Mmio) -> (r: u32)
    ensures
        r == (bus.value(rstgen_Software_RESET_status0_REG_ADDR as u64) >> 7u32) & 0x1,
{
    (bus.read32(rstgen_Software_RESET_status0_REG_ADDR as u64) >> 7u32) & 0x1
}

pub fn _ASSERT_RESET_rstgen_rstn_dla_axi_(bus: &mut Mmio)
    ensures
        final(bus).state() == field_step(old(bus).state(), rstgen_Software_RESET_assert0_REG_ADDR, 0x80, 0x80),
{
    set_field(bus, rstgen_Software_RESET_assert0_REG_ADDR, 0x80, 0x80);
    let _ = bus.read32(rstgen_Software_RESET_status0_REG_ADDR as u64);
}

pub fn _CLEAR_RESET_rstgen_rstn_dla_axi_(bus: &mut Mmio)
    ensures
        final(bus).state() == field_step(old(bus).state(), rstgen_Software_RESET_assert0_REG_ADDR, 0x80, 0x0),
{
    set_field(bus, rstgen_Software_RESET_assert0_REG_ADDR, 0x80, 0x0);
    let _ = bus.read32(rstgen_Software_RESET_status0_REG_ADDR as u64);
}

pub fn _READ_RESET_STATUS_rstgen_rstn_dlanoc_axi_(bus: &Mmio) -> (r: u32)
    ensures
        r == (bus.value(rstgen_Software_RESET_status0_REG_ADDR as u64) >> 8u32) & 0x1,
{
    (bus.read32(rstgen_Software_RESET_status0_REG_ADDR as u64) >> 8u32) & 0x1
}

pub fn _ASSERT_RESET_rstgen_rstn_dlanoc_axi_(bus: &mut Mmio)
    ensures
        final(bus).state() == field_step(old(bus).state(), rstgen_Software_RESET_assert0_REG_ADDR, 0x100, 0x100),
{
    set_field(bus, rstgen_Software_RESET_assert0_REG_ADDR, 0x100, 0x100);
    let _ = bus.read32(rstgen_Software_RESET_status0_REG_ADDR as u64);
}

pub fn _CLEAR_RESET_rstgen_rstn_dlanoc_axi_(bus: &mut Mmio)
    ensures
        final(bus).state() == field_step(old(bus).state(), rstgen_Software_RESET_assert0_REG_ADDR, 0x100, 0x0),
{
    set_field(bus, rstgen_Software_RESET_assert0_REG_ADDR, 0x100, 0x0);
    let _ = bus.read32(rstgen_Software_RESET_status0_REG_ADDR as u64);
}

pub fn _READ_RESET_STATUS_rstgen_rstn_dla_apb_(bus: &Mmio) -> (r: u32)
    ensures
        r == (bus.value(rstgen_Software_RESET_status0_REG_ADDR as u64) >> 9u32) & 0x1,
{
    (bus.read32(rstgen_Software_RESET_status0_REG_ADDR as u64) >> 9u32) & 0x1
}

pub fn _ASSERT_RESET_rstgen_rstn_dla_apb_(bus: &mut Mmio)
    ensures
        final(bus).state() == field_step(old(bus).state(), rstgen_Software_RESET_assert0_REG_ADDR, 0x200, 0x200),
{
    set_field(bus, rstgen_Software_RESET_assert0_REG_ADDR, 0x200, 0x200);
    let _ = bus.read32(rstgen_Software_RESET_status0_REG_ADDR as u64);
}

pub fn _CLEAR_RESET_rstgen_rstn_dla_apb_(bus: &mut Mmio)
    ensures
        final(bus).state() == field_step(old(bus).state(), rstgen_Software_RESET_assert0_REG_ADDR, 0x200, 0x0),
{
    set_field(bus, rstgen_Software_RESET_assert0_REG_ADDR, 0x200, 0x0);
    let _ = bus.read32(rstgen_Software_RESET_status0_REG_ADDR as u64);
}

pub fn _READ_RESET_STATUS_rstgen_rst_vp6_DReset_(bus: &Mmio) -> (r: u32)
    ensures
        r == (bus.value(rstgen_Software_RESET_status0_REG_ADDR as u64) >> 10u32) & 0x1,
{
    (bus.read32(rstgen_Software_RESET_status0_REG_ADDR as u64) >> 10u32) & 0x1
}

pub fn _ASSERT_RESET_rstgen_rst_vp6_DReset_(bus: &mut Mmio)
    ensures
        final(bus).state() == field_step(old(bus).state(), rstgen_Software_RESET_assert0_REG_ADDR, 0x400, 0x400),
{
    set_field(bus, rstgen_Software_RESET_assert0_REG_ADDR, 0x400, 0x400);
    let _ = bus.read32(rstgen_Software_RESET_status0_REG_ADDR as u64);
}

pub fn _CLEAR_RESET_rstgen_rst_vp6_DReset_(bus: &mut Mmio)
    ensures
        final(bus).state() == field_step(old(bus).state(), rstgen_Software_RESET_assert0_REG_ADDR, 0x400, 0x0),
{
    set_field(bus, rstgen_Software_RESET_assert0_REG_ADDR, 0x400, 0x0);
    let _ = bus.read32(rstgen_Software_RESET_status0_REG_ADDR as u64);
}

pub fn _READ_RESET_STATUS_rstgen_rst_vp6_Breset_(bus: &Mmio) -> (r: u32)
    ensures
        r == (bus.value(rstgen_Software_RESET_status0_REG_ADDR as u64) >> 11u32) & 0x1,
{
    (bus.read32(rstgen_Software_RESET_status0_REG_ADDR as u64) >> 11u32) & 0x1
}

pub fn _ASSERT_RESET_rstgen_rst_vp6_Breset_(bus: &mut Mmio)
    ensures
        final(bus).state() == field_step(old(bus).state(), rstgen_Software_RESET_assert0_REG_ADDR, 0x800, 0x800),
{
    set_field(bus, rstgen_Software_RESET_assert0_REG_ADDR, 0x800, 0x800);
    let _ = bus.read32(rstgen_Software_RESET_status0_REG_ADDR as u64);
}

pub fn _CLEAR_RESET_rstgen_rst_vp6_Breset_(bus: &mut Mmio)
    ensures
        final(bus).state() == field_step(old(bus).state(), rstgen_Software_RESET_assert0_REG_ADDR, 0x800, 0x0),
{
    set_field(bus, rstgen_Software_RESET_assert0_REG_ADDR, 0x800, 0x0);
    let _ = bus.read32(rstgen_Software_RESET_status0_REG_ADDR as u64);
}

pub fn _READ_RESET_STATUS_rstgen_rstn_vp6_axi_(bus: &Mmio) -> (r: u32)
    ensures
        r == (bus.value(rstgen_Software_RESET_status0_REG_ADDR as u64) >> 12u32) & 0x1,
{
    (bus.read32(rstgen_Software_RESET_status0_REG_ADDR as u64) >> 12u32) & 0x1
}

pub fn _ASSERT_RESET_rstgen_rstn_vp6_axi_(bus: &mut Mmio)
    ensures
        final(bus).state() == field_step(old(bus).state(), rstgen_Software_RESET_assert0_REG_ADDR, 0x1000, 0x1000),
{
    set_field(bus, rstgen_Software_RESET_assert0_REG_ADDR, 0x1000, 0x1000);
    let _ = bus.read32(rstgen_Software_RESET_status0_REG_ADDR as u64);
}

pub fn _CLEAR_RESET_rstgen_rstn_vp6_axi_(bus: &mut Mmio)
    ensures
        final(bus).state() == field_step(old(bus).state(), rstgen_Software_RESET_assert0_REG_ADDR, 0x1000, 0x0),
{
    set_field(bus, rstgen_Software_RESET_assert0_REG_ADDR, 0x1000, 0x0);
    let _ = bus.read32(rstgen_Software_RESET_status0_REG_ADDR as u64);
}

pub fn _READ_RESET_STATUS_rstgen_rstn_vdecbrg_main_(bus: &Mmio) -> (r: u32)
    ensures
        r == (bus.value(rstgen_Software_RESET_status0_REG_ADDR as u64) >> 13u32) & 0x1,
{
    (bus.read32(rstgen_Software_RESET_status0_REG_ADDR as u64) >> 13u32) & 0x1
}

pub fn _ASSERT_RESET_rstgen_rstn_vdecbrg_main_(bus: &mut Mmio)
    ensures
        final(bus).state() == field_step(old(bus).state(), rstgen_Software_RESET_assert0_REG_ADDR, 0x2000, 0x2000),
{
    set_field(bus, rstgen_Software_RESET_assert0_REG_ADDR, 0x2000, 0x2000);
    let _ = bus.read32(rstgen_Software_RESET_status0_REG_ADDR as u64);
}

pub fn _CLEAR_RESET_rstgen_rstn_vdecbrg_main_(bus: &mut Mmio)
    ensures
        final(bus).state() == field_step(old(bus).state(), rstgen_Software_RESET_assert0_REG_ADDR, 0x2000, 0x0),
{
    set_field(bus, rstgen_Software_RESET_assert0_REG_ADDR, 0x2000, 0x0);
    let _ = bus.read32(rstgen_Software_RESET_status0_REG_ADDR as u64);
}

pub fn _READ_RESET_STATUS_rstgen_rstn_vdec_axi_(bus: &Mmio) -> (r: u32)
    ensures
        r == (bus.value(rstgen_Software_RESET_status0_REG_ADDR as u64) >> 14u32) & 0x1,
{
    (bus.read32(rstgen_Software_RESET_status0_REG_ADDR as u64) >> 14u32) & 0x1
}

pub fn _ASSERT_RESET_rstgen_rstn_vdec_axi_(bus: &mut Mmio)
    ensures
        final(bus).state() == field_step(old(bus).state(), rstgen_Software_RESET_assert0_REG_ADDR, 0x4000, 0x4000),
{
    set_field(bus, rstgen_Software_RESET_assert0_REG_ADDR, 0x4000, 0x4000);
    let _ = bus.read32(rstgen_Software_RESET_status0_REG_ADDR as u64);
}

pub fn _CLEAR_RESET_rstgen_rstn_vdec_axi_(bus: &mut Mmio)
    ensures
        final(bus).state() == field_step(old(bus).state(), rstgen_Software_RESET_assert0_REG_ADDR, 0x4000, 0x0),
{
    set_field(bus, rstgen_Software_RESET_assert0_REG_ADDR, 0x4000, 0x0);
    let _ = bus.read32(rstgen_Software_RESET_status0_REG_ADDR as u64);
}

pub fn _READ_RESET_STATUS_rstgen_rstn_vdec_bclk_(bus: &Mmio) -> (r: u32)
    ensures
        r == (bus.value(rstgen_Software_RESET_status0_REG_ADDR as u64) >> 15u32) & 0x1,
{
    (bus.read32(rstgen_Software_RESET_status0_REG_ADDR as u64) >> 15u32) & 0x1
}

pub fn _ASSERT_RESET_rstgen_rstn_vdec_bclk_(bus: &mut Mmio)
    ensures
        final(bus).state() == field_step(old(bus).state(), rstgen_Software_RESET_assert0_REG_ADDR, 0x8000, 0x8000),
{
    set_field(bus, rstgen_Software_RESET_assert0_REG_ADDR, 0x8000, 0x8000);
    let _ = bus.read32(rstgen_Software_RESET_status0_REG_ADDR as u64);
}

pub fn _CLEAR_RESET_rstgen_rstn_vdec_bclk_(bus: &mut Mmio)
    ensures
        final(bus).state() == field_step(old(bus).state(), rstgen_Software_RESET_assert0_REG_ADDR, 0x8000, 0x0),
{
    set_field(bus, rstgen_Software_RESET_assert0_REG_ADDR, 0x8000, 0x0);
    let _ = bus.read32(rstgen_Software_RESET_status0_REG_ADDR as u64);
}

pub fn _READ_RESET_STATUS_rstgen_rstn_vdec_cclk_(bus: &Mmio) -> (r: u32)
    ensures
        r == (bus.value(rstgen_Software_RESET_status0_REG_ADDR as u64) >> 16u32) & 0x1,
{
    (bus.read32(rstgen_Software_RESET_status0_REG_ADDR as u64) >> 16u32) & 0x1
}

pub fn _ASSERT_RESET_rstgen_rstn_vdec_cclk_(bus: &mut Mmio)
    ensures
        final(bus).state() == field_step(old(bus).state(), rstgen_Software_RESET_assert0_REG_ADDR, 0x10000, 0x10000),
{
    set_field(bus, rstgen_Software_RESET_assert0_REG_ADDR, 0x10000, 0x10000);
    let _ = bus.read32(rstgen_Software_RESET_status0_REG_ADDR as u64);
}

pub fn _CLEAR_RESET_rstgen_rstn_vdec_cclk_(bus: &mut Mmio)
    ensures
        final(bus).state() == field_step(old(bus).state(), rstgen_Software_RESET_assert0_REG_ADDR, 0x10000, 0x0),
{
    set_field(bus, rstgen_Software_RESET_assert0_REG_ADDR, 0x10000, 0x0);
    let _ = bus.read32(rstgen_Software_RESET_status0_REG_ADDR as u64);
}

pub fn _READ_RESET_STATUS_rstgen_rstn_vdec_apb_(bus: &Mmio) -> (r: u32)
    ensures
        r == (bus.value(rstgen_Software_RESET_status0_REG_ADDR as u64) >> 17u32) & 0x1,
{
    (bus.read32(rstgen_Software_RESET_status0_REG_ADDR as u64) >> 17u32) & 0x1
}

pub fn _ASSERT_RESET_rstgen_rstn_vdec_apb_(bus: &mut Mmio)
    ensures
        final(bus).state() == field_step(old(bus).state(), rstgen_Software_RESET_assert0_REG_ADDR, 0x20000, 0x20000),
{
    set_field(bus, rstgen_Software_RESET_assert0_REG_ADDR, 0x20000, 0x20000);
    let _ = bus.read32(rstgen_Software_RESET_status0_REG_ADDR as u64);
}

pub fn _CLEAR_RESET_rstgen_rstn_vdec_apb_(bus: &mut Mmio)
    ensures
        final(bus).state() == field_step(old(bus).state(), rstgen_Software_RESET_assert0_REG_ADDR, 0x20000, 0x0),
{
    set_field(bus, rstgen_Software_RESET_assert0_REG_ADDR, 0x20000, 0x0);
    let _ = bus.read32(rstgen_Software_RESET_status0_REG_ADDR as u64);
}

pub fn _READ_RESET_STATUS_rstgen_rstn_jpeg_axi_(bus: &Mmio) -> (r: u32)
    ensures
        r == (bus.value(rstgen_Software_RESET_status0_REG_ADDR as u64) >> 18u32) & 0x1,
{
    (bus.read32(rstgen_Software_RESET_status0_REG_ADDR as u64) >> 18u32) & 0x1
}

pub fn _ASSERT_RESET_rstgen_rstn_jpeg_axi_(bus: &mut Mmio)
    ensures
        final(bus).state() == field_step(old(bus).state(), rstgen_Software_RESET_assert0_REG_ADDR, 0x40000, 0x40000),
{
    set_field(bus, rstgen_Software_RESET_assert0_REG_ADDR, 0x40000, 0x40000);
    let _ = bus.read32(rstgen_Software_RESET_status0_REG_ADDR as u64);
}

pub fn _CLEAR_RESET_rstgen_rstn_jpeg_axi_(bus: &mut Mmio)
    ensures
        final(bus).state() == field_step(old(bus).state(), rstgen_Software_RESET_assert0_REG_ADDR, 0x40000, 0x0),
{
    set_field(bus, rstgen_Software_RESET_assert0_REG_ADDR, 0x40000, 0x0);
    let _ = bus.read32(rstgen_Software_RESET_status0_REG_ADDR as u64);
}

pub fn _READ_RESET_STATUS_rstgen_rstn_jpeg_cclk_(bus: &Mmio) -> (r: u32)
    ensures
        r == (bus.value(rstgen_Software_RESET_status0_REG_ADDR as u64) >> 19u32) & 0x1,
{
    (bus.read32(rstgen_Software_RESET_status0_REG_ADDR as u64) >> 19u32) & 0x1
}

pub fn _ASSERT_RESET_rstgen_rstn_jpeg_cclk_(bus: &mut Mmio)
    ensures
        final(bus).state() == field_step(old(bus).state(), rstgen_Software_RESET_assert0_REG_ADDR, 0x80000, 0x80000),
{
    set_field(bus, rstgen_Software_RESET_assert0_REG_ADDR, 0x80000, 0x80000);
    let _ = bus.read32(rstgen_Software_RESET_status0_REG_ADDR as u64);
}

pub fn _CLEAR_RESET_rstgen_rstn_jpeg_cclk_(bus: &mut Mmio)
    ensures
        final(bus).state() == field_step(old(bus).state(), rstgen_Software_RESET_assert0_REG_ADDR, 0x80000, 0x0),
{
    set_field(bus, rstgen_Software_RESET_assert0_REG_ADDR, 0x80000, 0x0);
    let _ = bus.read32(rstgen_Software_RESET_status0_REG_ADDR as u64);
}

pub fn _READ_RESET_STATUS_rstgen_rstn_jpeg_apb_(bus: &Mmio) -> (r: u32)
    ensures
        r == (bus.value(rstgen_Software_RESET_status0_REG_ADDR as u64) >> 20u32) & 0x1,
{
    (bus.read32(rstgen_Software_RESET_status0_REG_ADDR as u64) >> 20u32) & 0x1
}

pub fn _ASSERT_RESET_rstgen_rstn_jpeg_apb_(bus: &mut Mmio)
    ensures
        final(bus).state() == field_step(old(bus).state(), rstgen_Software_RESET_assert0_REG_ADDR, 0x100000, 0x100000),
{
    set_field(bus, rstgen_Software_RESET_assert0_REG_ADDR, 0x100000, 0x100000);
    let _ = bus.read32(rstgen_Software_RESET_status0_REG_ADDR as u64);
}

pub fn _CLEAR_RESET_rstgen_rstn_jpeg_apb_(bus: &mut Mmio)
    ensures
        final(bus).state() == field_step(old(bus).state(), rstgen_Software_RESET_assert0_REG_ADDR, 0x100000, 0x0),
{
    set_field(bus, rstgen_Software_RESET_assert0_REG_ADDR, 0x100000, 0x0);
    let _ = bus.read32(rstgen_Software_RESET_status0_REG_ADDR as u64);
}

pub fn _READ_RESET_STATUS_rstgen_rstn_jpcgc300_main_(bus: &Mmio) -> (r: u32)
    ensures
        r == (bus.value(rstgen_Software_RESET_status0_REG_ADDR as u64) >> 21u32) & 0x1,
{
    (bus.read32(rstgen_Software_RESET_status0_REG_ADDR as u64) >> 21u32) & 0x1
}

pub fn _ASSERT_RESET_rstgen_rstn_jpcgc300_main_(bus: &mut Mmio)
    ensures
        final(bus).state() == field_step(old(bus).state(), rstgen_Software_RESET_assert0_REG_ADDR, 0x200000, 0x200000),
{
    set_field(bus, rstgen_Software_RESET_assert0_REG_ADDR, 0x200000, 0x200000);
    let _ = bus.read32(rstgen_Software_RESET_status0_REG_ADDR as u64);
}

pub fn _CLEAR_RESET_rstgen_rstn_jpcgc300_main_(bus: &mut Mmio)
    ensures
        final(bus).state() == field_step(old(bus).state(), rstgen_Software_RESET_assert0_REG_ADDR, 0x200000, 0x0),
{
    set_field(bus, rstgen_Software_RESET_assert0_REG_ADDR, 0x200000, 0x0);
    let _ = bus.read32(rstgen_Software_RESET_status0_REG_ADDR as u64);
}

pub fn _READ_RESET_STATUS_rstgen_rstn_gc300_2x_(bus: &Mmio) -> (r: u32)
    ensures
        r == (bus.value(rstgen_Software_RESET_status0_REG_ADDR as u64) >> 22u32) & 0x1,
{
    (bus.read32(rstgen_Software_RESET_status0_REG_ADDR as u64) >> 22u32) & 0x1
}

pub fn _ASSERT_RESET_rstgen_rstn_gc300_2x_(bus: &mut Mmio)
    ensures
        final(bus).state() == field_step(old(bus).state(), rstgen_Software_RESET_assert0_REG_ADDR, 0x400000, 0x400000),
{
    set_field(bus, rstgen_Software_RESET_assert0_REG_ADDR, 0x400000, 0x400000);
    let _ = bus.read32(rstgen_Software_RESET_status0_REG_ADDR as u64);
}

pub fn _CLEAR_RESET_rstgen_rstn_gc300_2x_(bus: &mut Mmio)
    ensures
        final(bus).state() == field_step(old(bus).state(), rstgen_Software_RESET_assert0_REG_ADDR, 0x400000, 0x0),
{
    set_field(bus, rstgen_Software_RESET_assert0_REG_ADDR, 0x400000, 0x0);
    let _ = bus.read32(rstgen_Software_RESET_status0_REG_ADDR as u64);
}

pub fn _READ_RESET_STATUS_rstgen_rstn_gc300_axi_(bus: &Mmio) -> (r: u32)
    ensures
        r == (bus.value(rstgen_Software_RESET_status0_REG_ADDR as u64) >> 23u32) & 0x1,
{
    (bus.read32(rstgen_Software_RESET_status0_REG_ADDR as u64) >> 23u32) & 0x1
}

pub fn _ASSERT_RESET_rstgen_rstn_gc300_axi_(bus: &mut Mmio)
    ensures
        final(bus).state() == field_step(old(bus).state(), rstgen_Software_RESET_assert0_REG_ADDR, 0x800000, 0x800000),
{
    set_field(bus, rstgen_Software_RESET_assert0_REG_ADDR, 0x800000, 0x800000);
    let _ = bus.read32(rstgen_Software_RESET_status0_REG_ADDR as u64);
}

pub fn _CLEAR_RESET_rstgen_rstn_gc300_axi_(bus: &mut Mmio)
    ensures
        final(bus).state() == field_step(old(bus).state(), rstgen_Software_RESET_assert0_REG_ADDR, 0x800000, 0x0),
{
    set_field(bus, rstgen_Software_RESET_assert0_REG_ADDR, 0x800000, 0x0);
    let _ = bus.read32(rstgen_Software_RESET_status0_REG_ADDR as u64);
}

pub fn _READ_RESET_STATUS_rstgen_rstn_gc300_ahb_(bus: &Mmio) -> (r: u32)
    ensures
        r == (bus.value(rstgen_Software_RESET_status0_REG_ADDR as u64) >> 24u32) & 0x1,
{
    (bus.read32(rstgen_Software_RESET_status0_REG_ADDR as u64) >> 24u32) & 0x1
}

pub fn _ASSERT_RESET_rstgen_rstn_gc300_ahb_(bus: &mut Mmio)
    ensures
        final(bus).state() == field_step(old(bus).state(), rstgen_Software_RESET_assert0_REG_ADDR, 0x1000000, 0x1000000),
{
    set_field(bus, rstgen_Software_RESET_assert0_REG_ADDR, 0x1000000, 0x1000000);
    let _ = bus.read32(rstgen_Software_RESET_status0_REG_ADDR as u64);
}

pub fn _CLEAR_RESET_rstgen_rstn_gc300_ahb_(bus: &mut Mmio)
    ensures
        final(bus).state() == field_step(old(bus).state(), rstgen_Software_RESET_assert0_REG_ADDR, 0x1000000, 0x0),
{
    set_field(bus, rstgen_Software_RESET_assert0_REG_ADDR, 0x1000000, 0x0);
    let _ = bus.read32(rstgen_Software_RESET_status0_REG_ADDR as u64);
}

pub fn _READ_RESET_STATUS_rstgen_rstn_venc_axi_(bus: &Mmio) -> (r: u32)
    ensures
        r == (bus.value(rstgen_Software_RESET_status0_REG_ADDR as u64) >> 25u32) & 0x1,
{
    (bus.read32(rstgen_Software_RESET_status0_REG_ADDR as u64) >> 25u32) & 0x1
}

pub fn _ASSERT_RESET_rstgen_rstn_venc_axi_(bus: &mut Mmio)
    ensures
        final(bus).state() == field_step(old(bus).state(), rstgen_Software_RESET_assert0_REG_ADDR, 0x2000000, 0x2000000),
{
    set_field(bus, rstgen_Software_RESET_assert0_REG_ADDR, 0x2000000, 0x2000000);
    let _ = bus.read32(rstgen_Software_RESET_status0_REG_ADDR as u64);
}

pub fn _CLEAR_RESET_rstgen_rstn_venc_axi_(bus: &mut Mmio)
    ensures
        final(bus).state() == field_step(old(bus).state(), rstgen_Software_RESET_assert0_REG_ADDR, 0x2000000, 0x0),
{
    set_field(bus, rstgen_Software_RESET_assert0_REG_ADDR, 0x2000000, 0x0);
    let _ = bus.read32(rstgen_Software_RESET_status0_REG_ADDR as u64);
}

pub fn _READ_RESET_STATUS_rstgen_rstn_vencbrg_main_(bus: &Mmio) -> (r: u32)
    ensures
        r == (bus.value(rstgen_Software_RESET_status0_REG_ADDR as u64) >> 26u32) & 0x1,
{
    (bus.read32(rstgen_Software_RESET_status0_REG_ADDR as u64) >> 26u32) & 0x1
}

pub fn _ASSERT_RESET_rstgen_rstn_vencbrg_main_(bus: &mut Mmio)
    ensures
        final(bus).state() == field_step(old(bus).state(), rstgen_Software_RESET_assert0_REG_ADDR, 0x4000000, 0x4000000),
{
    set_field(bus, rstgen_Software_RESET_assert0_REG_ADDR, 0x4000000, 0x4000000);
    let _ = bus.read32(rstgen_Software_RESET_status0_REG_ADDR as u64);
}

pub fn _CLEAR_RESET_rstgen_rstn_vencbrg_main_(bus: &mut Mmio)
    ensures
        final(bus).state() == field_step(old(bus).state(), rstgen_Software_RESET_assert0_REG_ADDR, 0x4000000, 0x0),
{
    set_field(bus, rstgen_Software_RESET_assert0_REG_ADDR, 0x4000000, 0x0);
    let _ = bus.read32(rstgen_Software_RESET_status0_REG_ADDR as u64);
}

pub fn _READ_RESET_STATUS_rstgen_rstn_venc_bclk_(bus: &Mmio) -> (r: u32)
    ensures
        r == (bus.value(rstgen_Software_RESET_status0_REG_ADDR as u64) >> 27u32) & 0x1,
{
    (bus.read32(rstgen_Software_RESET_status0_REG_ADDR as u64) >> 27u32) & 0x1
}

pub fn _ASSERT_RESET_rstgen_rstn_venc_bclk_(bus: &mut Mmio)
    ensures
        final(bus).state() == field_step(old(bus).state(), rstgen_Software_RESET_assert0_REG_ADDR, 0x8000000, 0x8000000),
{
    set_field(bus, rstgen_Software_RESET_assert0_REG_ADDR, 0x8000000, 0x8000000);
    let _ = bus.read32(rstgen_Software_RESET_status0_REG_ADDR as u64);
}

pub fn _CLEAR_RESET_rstgen_rstn_venc_bclk_(bus: &mut Mmio)
    ensures
        final(bus).state() == field_step(old(bus).state(), rstgen_Software_RESET_assert0_REG_ADDR, 0x8000000, 0x0),
{
    set_field(bus, rstgen_Software_RESET_assert0_REG_ADDR, 0x8000000, 0x0);
    let _ = bus.read32(rstgen_Software_RESET_status0_REG_ADDR as u64);
}

pub fn _READ_RESET_STATUS_rstgen_rstn_venc_cclk_(bus: &Mmio) -> (r: u32)
    ensures
        r == (bus.value(rstgen_Software_RESET_status0_REG_ADDR as u64) >> 28u32) & 0x1,
{
    (bus.read32(rstgen_Software_RESET_status0_REG_ADDR as u64) >> 28u32) & 0x1
}

pub fn _ASSERT_RESET_rstgen_rstn_venc_cclk_(bus: &mut Mmio)
    ensures
        final(bus).state() == field_step(old(bus).state(), rstgen_Software_RESET_assert0_REG_ADDR, 0x10000000, 0x10000000),
{
    set_field(bus, rstgen_Software_RESET_assert0_REG_ADDR, 0x10000000, 0x10000000);
    let _ = bus.read32(rstgen_Software_RESET_status0_REG_ADDR as u64);
}

pub fn _CLEAR_RESET_rstgen_rstn_venc_cclk_(bus: &mut Mmio)
    ensures
        final(bus).state() == field_step(old(bus).state(), rstgen_Software_RESET_assert0_REG_ADDR, 0x10000000, 0x0),
{
    set_field(bus, rstgen_Software_RESET_assert0_REG_ADDR, 0x10000000, 0x0);
    let _ = bus.read32(rstgen_Software_RESET_status0_REG_ADDR as u64);
}

pub fn _READ_RESET_STATUS_rstgen_rstn_venc_apb_(bus: &Mmio) -> (r: u32)
    ensures
        r == (bus.value(rstgen_Software_RESET_status0_REG_ADDR as u64) >> 29u32) & 0x1,
{
    (bus.read32(rstgen_Software_RESET_status0_REG_ADDR as u64) >> 29u32) & 0x1
}

pub fn _ASSERT_RESET_rstgen_rstn_venc_apb_(bus: &mut Mmio)
    ensures
        final(bus).state() == field_step(old(bus).state(), rstgen_Software_RESET_assert0_REG_ADDR, 0x20000000, 0x20000000),
{
    set_field(bus, rstgen_Software_RESET_assert0_REG_ADDR, 0x20000000, 0x20000000);
    let _ = bus.read32(rstgen_Software_RESET_status0_REG_ADDR as u64);
}

pub fn _CLEAR_RESET_rstgen_rstn_venc_apb_(bus: &mut Mmio)
    ensures
        final(bus).state() == field_step(old(bus).state(), rstgen_Software_RESET_assert0_REG_ADDR, 0x20000000, 0x0),
{
    set_field(bus, rstgen_Software_RESET_assert0_REG_ADDR, 0x20000000, 0x0);
    let _ = bus.read32(rstgen_Software_RESET_status0_REG_ADDR as u64);
}

pub fn _READ_RESET_STATUS_rstgen_rstn_ddrphy_apb_(bus: &Mmio) -> (r: u32)
    ensures
        r == (bus.value(rstgen_Software_RESET_status0_REG_ADDR as u64) >> 30u32) & 0x1,
{
    (bus.read32(rstgen_Software_RESET_status0_REG_ADDR as u64) >> 30u32) & 0x1
}

pub fn _ASSERT_RESET_rstgen_rstn_ddrphy_apb_(bus: &mut Mmio)
    ensures
        final(bus).state() == field_step(old(bus).state(), rstgen_Software_RESET_assert0_REG_ADDR, 0x40000000, 0x40000000),
{
    set_field(bus, rstgen_Software_RESET_assert0_REG_ADDR, 0x40000000, 0x40000000);
    let _ = bus.read32(rstgen_Software_RESET_status0_REG_ADDR as u64);
}

pub fn _CLEAR_RESET_rstgen_rstn_ddrphy_apb_(bus: &mut Mmio)
    ensures
        final(bus).state() == field_step(old(bus).state(), rstgen_Software_RESET_assert0_REG_ADDR, 0x40000000, 0x0),
{
    set_field(bus, rstgen_Software_RESET_assert0_REG_ADDR, 0x40000000, 0x0);
    let _ = bus.read32(rstgen_Software_RESET_status0_REG_ADDR as u64);
}

pub fn _READ_RESET_STATUS_rstgen_rstn_noc_rob_(bus: &Mmio) -> (r: u32)
    ensures
        r == (bus.value(rstgen_Software_RESET_status0_REG_ADDR as u64) >> 31u32) & 0x1,
{
    (bus.read32(rstgen_Software_RESET_status0_REG_ADDR as u64) >> 31u32) & 0x1
}

pub fn _ASSERT_RESET_rstgen_rstn_noc_rob_(bus: &mut Mmio)
    ensures
        final(bus).state() == field_step(old(bus).state(), rstgen_Software_RESET_assert0_REG_ADDR, 0x80000000, 0x80000000),
{
    set_field(bus, rstgen_Software_RESET_assert0_REG_ADDR, 0x80000000, 0x80000000);
    let _ = bus.read32(rstgen_Software_RESET_status0_REG_ADDR as u64);
}

pub fn _CLEAR_RESET_rstgen_rstn_noc_rob_(bus: &mut Mmio)
    ensures
        final(bus).state() == field_step(old(bus).state(), rstgen_Software_RESET_assert0_REG_ADDR, 0x80000000, 0x0),
{
    set_field(bus, rstgen_Software_RESET_assert0_REG_ADDR, 0x80000000, 0x0);
    let _ = bus.read32(rstgen_Software_RESET_status0_REG_ADDR as u64);
}

pub fn _READ_RESET_STATUS_rstgen_rstn_noc_cog_(bus: &Mmio) -> (r: u32)
    ensures
        r == bus.value(rstgen_Software_RESET_status1_REG_ADDR as u64) & 0x1,
{
    bus.read32(rstgen_Software_RESET_status1_REG_ADDR as u64) & 0x1
}

pub fn _ASSERT_RESET_rstgen_rstn_noc_cog_(bus: &mut Mmio)
    ensures
        final(bus).state() == field_step(old(bus).state(), rstgen_Software_RESET_assert1_REG_ADDR, 0x1, 0x1),
{
    set_field(bus, rstgen_Software_RESET_assert1_REG_ADDR, 0x1, 0x1);
    let _ = bus.read32(rstgen_Software_RESET_status1_REG_ADDR as u64);
}

pub fn _CLEAR_RESET_rstgen_rstn_noc_cog_(bus: &mut Mmio)
    ensures
        final(bus).state() == field_step(old(bus).state(), rstgen_Software_RESET_assert1_REG_ADDR, 0x1, 0x0),
{
    set_field(bus, rstgen_Software_RESET_assert1_REG_ADDR, 0x1, 0x0);
    let _ = bus.read32(rstgen_Software_RESET_status1_REG_ADDR as u64);
}

pub fn _READ_RESET_STATUS_rstgen_rstn_hifi4_axi_(bus: &Mmio) -> (r: u32)
    ensures
        r == (bus.value(rstgen_Software_RESET_status1_REG_ADDR as u64) >> 1u32) & 0x1,
{
    (bus.read32(rstgen_Software_RESET_status1_REG_ADDR as u64) >> 1u32) & 0x1
}

pub fn _ASSERT_RESET_rstgen_rstn_hifi4_axi_(bus: &mut Mmio)
    ensures
        final(bus).state() == field_step(old(bus).state(), rstgen_Software_RESET_assert1_REG_ADDR, 0x2, 0x2),
{
    set_field(bus, rstgen_Software_RESET_assert1_REG_ADDR, 0x2, 0x2);
    let _ = bus.read32(rstgen_Software_RESET_status1_REG_ADDR as u64);
}

pub fn _CLEAR_RESET_rstgen_rstn_hifi4_axi_(bus: &mut Mmio)
    ensures
        final(bus).state() == field_step(old(bus).state(), rstgen_Software_RESET_assert1_REG_ADDR, 0x2, 0x0),
{
    set_field(bus, rstgen_Software_RESET_assert1_REG_ADDR, 0x2, 0x0);
    let _ = bus.read32(rstgen_Software_RESET_status1_REG_ADDR as u64);
}

pub fn _READ_RESET_STATUS_rstgen_rstn_hifi4noc_axi_(bus: &Mmio) -> (r: u32)
    ensures
        r == (bus.value(rstgen_Software_RESET_status1_REG_ADDR as u64) >> 2u32) & 0x1,
{
    (bus.read32(rstgen_Software_RESET_status1_REG_ADDR as u64) >> 2u32) & 0x1
}

pub fn _ASSERT_RESET_rstgen_rstn_hifi4noc_axi_(bus: &mut Mmio)
    ensures
        final(bus).state() == field_step(old(bus).state(), rstgen_Software_RESET_assert1_REG_ADDR, 0x4, 0x4),
{
    set_field(bus, rstgen_Software_RESET_assert1_REG_ADDR, 0x4, 0x4);
    let _ = bus.read32(rstgen_Software_RESET_status1_REG_ADDR as u64);
}

pub fn _CLEAR_RESET_rstgen_rstn_hifi4noc_axi_(bus: &mut Mmio)
    ensures
        final(bus).state() == field_step(old(bus).state(), rstgen_Software_RESET_assert1_REG_ADDR, 0x4, 0x0),
{
    set_field(bus, rstgen_Software_RESET_assert1_REG_ADDR, 0x4, 0x0);
    let _ = bus.read32(rstgen_Software_RESET_status1_REG_ADDR as u64);
}

pub fn _READ_RESET_STATUS_rstgen_rst_hifi4_DReset_(bus: &Mmio) -> (r: u32)
    ensures
        r == (bus.value(rstgen_Software_RESET_status1_REG_ADDR as u64) >> 3u32) & 0x1,
{
    (bus.read32(rstgen_Software_RESET_status1_REG_ADDR as u64) >> 3u32) & 0x1
}

pub fn _ASSERT_RESET_rstgen_rst_hifi4_DReset_(bus: &mut Mmio)
    ensures
        final(bus).state() == field_step(old(bus).state(), rstgen_Software_RESET_assert1_REG_ADDR, 0x8, 0x8),
{
    set_field(bus, rstgen_Software_RESET_assert1_REG_ADDR, 0x8, 0x8);
    let _ = bus.read32(rstgen_Software_RESET_status1_REG_ADDR as u64);
}

pub fn _CLEAR_RESET_rstgen_rst_hifi4_DReset_(bus: &mut Mmio)
    ensures
        final(bus).state() == field_step(old(bus).state(), rstgen_Software_RESET_assert1_REG_ADDR, 0x8, 0x0),
{
    set_field(bus, rstgen_Software_RESET_assert1_REG_ADDR, 0x8, 0x0);
    let _ = bus.read32(rstgen_Software_RESET_status1_REG_ADDR as u64);
}

pub fn _READ_RESET_STATUS_rstgen_rst_hifi4_Breset_(bus: &Mmio) -> (r: u32)
    ensures
        r == (bus.value(rstgen_Software_RESET_status1_REG_ADDR as u64) >> 4u32) & 0x1,
{
    (bus.read32(rstgen_Software_RESET_status1_REG_ADDR as u64) >> 4u32) & 0x1
}

pub fn _ASSERT_RESET_rstgen_rst_hifi4_Breset_(bus: &mut Mmio)
    ensures
        final(bus).state() == field_step(old(bus).state(), rstgen_Software_RESET_assert1_REG_ADDR, 0x10, 0x10),
{
    set_field(bus, rstgen_Software_RESET_assert1_REG_ADDR, 0x10, 0x10);
    let _ = bus.read32(rstgen_Software_RESET_status1_REG_ADDR as u64);
}

pub fn _CLEAR_RESET_rstgen_rst_hifi4_Breset_(bus: &mut Mmio)
    ensures
        final(bus).state() == field_step(old(bus).state(), rstgen_Software_RESET_assert1_REG_ADDR, 0x10, 0x0),
{
    set_field(bus, rstgen_Software_RESET_assert1_REG_ADDR, 0x10, 0x0);
    let _ = bus.read32(rstgen_Software_RESET_status1_REG_ADDR as u64);
}

pub fn _READ_RESET_STATUS_rstgen_rstn_usb_axi_(bus: &Mmio) -> (r: u32)
    ensures
        r == (bus.value(rstgen_Software_RESET_status1_REG_ADDR as u64) >> 5u32) & 0x1,
{
    (bus.read32(rstgen_Software_RESET_status1_REG_ADDR as u64) >> 5u32) & 0x1
}

pub fn _ASSERT_RESET_rstgen_rstn_usb_axi_(bus: &mut Mmio)
    ensures
        final(bus).state() == field_step(old(bus).state(), rstgen_Software_RESET_assert1_REG_ADDR, 0x20, 0x20),
{
    set_field(bus, rstgen_Software_RESET_assert1_REG_ADDR, 0x20, 0x20);
    let _ = bus.read32(rstgen_Software_RESET_status1_REG_ADDR as u64);
}

pub fn _CLEAR_RESET_rstgen_rstn_usb_axi_(bus: &mut Mmio)
    ensures
        final(bus).state() == field_step(old(bus).state(), rstgen_Software_RESET_assert1_REG_ADDR, 0x20, 0x0),
{
    set_field(bus, rstgen_Software_RESET_assert1_REG_ADDR, 0x20, 0x0);
    let _ = bus.read32(rstgen_Software_RESET_status1_REG_ADDR as u64);
}

pub fn _READ_RESET_STATUS_rstgen_rstn_usbnoc_axi_(bus: &Mmio) -> (r: u32)
    ensures
        r == (bus.value(rstgen_Software_RESET_status1_REG_ADDR as u64) >> 6u32) & 0x1,
{
    (bus.read32(rstgen_Software_RESET_status1_REG_ADDR as u64) >> 6u32) & 0x1
}

pub fn _ASSERT_RESET_rstgen_rstn_usbnoc_axi_(bus: &mut Mmio)
    ensures
        final(bus).state() == field_step(old(bus).state(), rstgen_Software_RESET_assert1_REG_ADDR, 0x40, 0x40),
{
    set_field(bus, rstgen_Software_RESET_assert1_REG_ADDR, 0x40, 0x40);
    let _ = bus.read32(rstgen_Software_RESET_status1_REG_ADDR as u64);
}

pub fn _CLEAR_RESET_rstgen_rstn_usbnoc_axi_(bus: &mut Mmio)
    ensures
        final(bus).state() == field_step(old(bus).state(), rstgen_Software_RESET_assert1_REG_ADDR, 0x40, 0x0),
{
    set_field(bus, rstgen_Software_RESET_assert1_REG_ADDR, 0x40, 0x0);
    let _ = bus.read32(rstgen_Software_RESET_status1_REG_ADDR as u64);
}

pub fn _READ_RESET_STATUS_rstgen_rstn_sgdma1p_axi_(bus: &Mmio) -> (r: u32)
    ensures
        r == (bus.value(rstgen_Software_RESET_status1_REG_ADDR as u64) >> 7u32) & 0x1,
{
    (bus.read32(rstgen_Software_RESET_status1_REG_ADDR as u64) >> 7u32) & 0x1
}

pub fn _ASSERT_RESET_rstgen_rstn_sgdma1p_axi_(bus: &mut Mmio)
    ensures
        final(bus).state() == field_step(old(bus).state(), rstgen_Software_RESET_assert1_REG_ADDR, 0x80, 0x80),
{
    set_field(bus, rstgen_Software_RESET_assert1_REG_ADDR, 0x80, 0x80);
    let _ = bus.read32(rstgen_Software_RESET_status1_REG_ADDR as u64);
}

pub fn _CLEAR_RESET_rstgen_rstn_sgdma1p_axi_(bus: &mut Mmio)
    ensures
        final(bus).state() == field_step(old(bus).state(), rstgen_Software_RESET_assert1_REG_ADDR, 0x80, 0x0),
{
    set_field(bus, rstgen_Software_RESET_assert1_REG_ADDR, 0x80, 0x0);
    let _ = bus.read32(rstgen_Software_RESET_status1_REG_ADDR as u64);
}

pub fn _READ_RESET_STATUS_rstgen_rstn_dma1p_axi_(bus: &Mmio) -> (r: u32)
    ensures
        r == (bus.value(rstgen_Software_RESET_status1_REG_ADDR as u64) >> 8u32) & 0x1,
{
    (bus.read32(rstgen_Software_RESET_status1_REG_ADDR as u64) >> 8u32) & 0x1
}

pub fn _ASSERT_RESET_rstgen_rstn_dma1p_axi_(bus: &mut Mmio)
    ensures
        final(bus).state() == field_step(old(bus).state(), rstgen_Software_RESET_assert1_REG_ADDR, 0x100, 0x100),
{
    set_field(bus, rstgen_Software_RESET_assert1_REG_ADDR, 0x100, 0x100);
    let _ = bus.read32(rstgen_Software_RESET_status1_REG_ADDR as u64);
}

pub fn _CLEAR_RESET_rstgen_rstn_dma1p_axi_(bus: &mut Mmio)
    ensures
        final(bus).state() == field_step(old(bus).state(), rstgen_Software_RESET_assert1_REG_ADDR, 0x100, 0x0),
{
    set_field(bus, rstgen_Software_RESET_assert1_REG_ADDR, 0x100, 0x0);
    let _ = bus.read32(rstgen_Software_RESET_status1_REG_ADDR as u64);
}

pub fn _READ_RESET_STATUS_rstgen_rstn_x2c_axi_(bus: &Mmio) -> (r: u32)
    ensures
        r == (bus.value(rstgen_Software_RESET_status1_REG_ADDR as u64) >> 9u32) & 0x1,
{
    (bus.read32(rstgen_Software_RESET_status1_REG_ADDR as u64) >> 9u32) & 0x1
}

pub fn _ASSERT_RESET_rstgen_rstn_x2c_axi_(bus: &mut Mmio)
    ensures
        final(bus).state() == field_step(old(bus).state(), rstgen_Software_RESET_assert1_REG_ADDR, 0x200, 0x200),
{
    set_field(bus, rstgen_Software_RESET_assert1_REG_ADDR, 0x200, 0x200);
    let _ = bus.read32(rstgen_Software_RESET_status1_REG_ADDR as u64);
}

pub fn _CLEAR_RESET_rstgen_rstn_x2c_axi_(bus: &mut Mmio)
    ensures
        final(bus).state() == field_step(old(bus).state(), rstgen_Software_RESET_assert1_REG_ADDR, 0x200, 0x0),
{
    set_field(bus, rstgen_Software_RESET_assert1_REG_ADDR, 0x200, 0x0);
    let _ = bus.read32(rstgen_Software_RESET_status1_REG_ADDR as u64);
}

pub fn _READ_RESET_STATUS_rstgen_rstn_nne_ahb_(bus: &Mmio) -> (r: u32)
    ensures
        r == (bus.value(rstgen_Software_RESET_status1_REG_ADDR as u64) >> 10u32) & 0x1,
{
    (bus.read32(rstgen_Software_RESET_status1_REG_ADDR as u64) >> 10u32) & 0x1
}

pub fn _ASSERT_RESET_rstgen_rstn_nne_ahb_(bus: &mut Mmio)
    ensures
        final(bus).state() == field_step(old(bus).state(), rstgen_Software_RESET_assert1_REG_ADDR, 0x400, 0x400),
{
    set_field(bus, rstgen_Software_RESET_assert1_REG_ADDR, 0x400, 0x400);
    let _ = bus.read32(rstgen_Software_RESET_status1_REG_ADDR as u64);
}

pub fn _CLEAR_RESET_rstgen_rstn_nne_ahb_(bus: &mut Mmio)
    ensures
        final(bus).state() == field_step(old(bus).state(), rstgen_Software_RESET_assert1_REG_ADDR, 0x400, 0x0),
{
    set_field(bus, rstgen_Software_RESET_assert1_REG_ADDR, 0x400, 0x0);
    let _ = bus.read32(rstgen_Software_RESET_status1_REG_ADDR as u64);
}

pub fn _READ_RESET_STATUS_rstgen_rstn_nne_axi_(bus: &Mmio) -> (r: u32)
    ensures
        r == (bus.value(rstgen_Software_RESET_status1_REG_ADDR as u64) >> 11u32) & 0x1,
{
    (bus.read32(rstgen_Software_RESET_status1_REG_ADDR as u64) >> 11u32) & 0x1
}

pub fn _ASSERT_RESET_rstgen_rstn_nne_axi_(bus: &mut Mmio)
    ensures
        final(bus).state() == field_step(old(bus).state(), rstgen_Software_RESET_assert1_REG_ADDR, 0x800, 0x800),
{
    set_field(bus, rstgen_Software_RESET_assert1_REG_ADDR, 0x800, 0x800);
    let _ = bus.read32(rstgen_Software_RESET_status1_REG_ADDR as u64);
}

pub fn _CLEAR_RESET_rstgen_rstn_nne_axi_(bus: &mut Mmio)
    ensures
        final(bus).state() == field_step(old(bus).state(), rstgen_Software_RESET_assert1_REG_ADDR, 0x800, 0x0),
{
    set_field(bus, rstgen_Software_RESET_assert1_REG_ADDR, 0x800, 0x0);
    let _ = bus.read32(rstgen_Software_RESET_status1_REG_ADDR as u64);
}

pub fn _READ_RESET_STATUS_rstgen_rstn_nnenoc_axi_(bus: &Mmio) -> (r: u32)
    ensures
        r == (bus.value(rstgen_Software_RESET_status1_REG_ADDR as u64) >> 12u32) & 0x1,
{
    (bus.read32(rstgen_Software_RESET_status1_REG_ADDR as u64) >> 12u32) & 0x1
}

pub fn _ASSERT_RESET_rstgen_rstn_nnenoc_axi_(bus: &mut Mmio)
    ensures
        final(bus).state() == field_step(old(bus).state(), rstgen_Software_RESET_assert1_REG_ADDR, 0x1000, 0x1000),
{
    set_field(bus, rstgen_Software_RESET_assert1_REG_ADDR, 0x1000, 0x1000);
    let _ = bus.read32(rstgen_Software_RESET_status1_REG_ADDR as u64);
}

pub fn _CLEAR_RESET_rstgen_rstn_nnenoc_axi_(bus: &mut Mmio)
    ensures
        final(bus).state() == field_step(old(bus).state(), rstgen_Software_RESET_assert1_REG_ADDR, 0x1000, 0x0),
{
    set_field(bus, rstgen_Software_RESET_assert1_REG_ADDR, 0x1000, 0x0);
    let _ = bus.read32(rstgen_Software_RESET_status1_REG_ADDR as u64);
}

pub fn _READ_RESET_STATUS_rstgen_rstn_dlaslv_axi_(bus: &Mmio) -> (r: u32)
    ensures
        r == (bus.value(rstgen_Software_RESET_status1_REG_ADDR as u64) >> 13u32) & 0x1,
{
    (bus.read32(rstgen_Software_RESET_status1_REG_ADDR as u64) >> 13u32) & 0x1
}

pub fn _ASSERT_RESET_rstgen_rstn_dlaslv_axi_(bus: &mut Mmio)
    ensures
        final(bus).state() == field_step(old(bus).state(), rstgen_Software_RESET_assert1_REG_ADDR, 0x2000, 0x2000),
{
    set_field(bus, rstgen_Software_RESET_assert1_REG_ADDR, 0x2000, 0x2000);
    let _ = bus.read32(rstgen_Software_RESET_status1_REG_ADDR as u64);
}

pub fn _CLEAR_RESET_rstgen_rstn_dlaslv_axi_(bus: &mut Mmio)
    ensures
        final(bus).state() == field_step(old(bus).state(), rstgen_Software_RESET_assert1_REG_ADDR, 0x2000, 0x0),
{
    set_field(bus, rstgen_Software_RESET_assert1_REG_ADDR, 0x2000, 0x0);
    let _ = bus.read32(rstgen_Software_RESET_status1_REG_ADDR as u64);
}

pub fn _READ_RESET_STATUS_rstgen_rstn_dspx2c_axi_(bus: &Mmio) -> (r: u32)
    ensures
        r == (bus.value(rstgen_Software_RESET_status1_REG_ADDR as u64) >> 14u32) & 0x1,
{
    (bus.read32(rstgen_Software_RESET_status1_REG_ADDR as u64) >> 14u32) & 0x1
}

pub fn _ASSERT_RESET_rstgen_rstn_dspx2c_axi_(bus: &mut Mmio)
    ensures
        final(bus).state() == field_step(old(bus).state(), rstgen_Software_RESET_assert1_REG_ADDR, 0x4000, 0x4000),
{
    set_field(bus, rstgen_Software_RESET_assert1_REG_ADDR, 0x4000, 0x4000);
    let _ = bus.read32(rstgen_Software_RESET_status1_REG_ADDR as u64);
}

pub fn _CLEAR_RESET_rstgen_rstn_dspx2c_axi_(bus: &mut Mmio)
    ensures
        final(bus).state() == field_step(old(bus).state(), rstgen_Software_RESET_assert1_REG_ADDR, 0x4000, 0x0),
{
    set_field(bus, rstgen_Software_RESET_assert1_REG_ADDR, 0x4000, 0x0);
    let _ = bus.read32(rstgen_Software_RESET_status1_REG_ADDR as u64);
}

pub fn _READ_RESET_STATUS_rstgen_rstn_vin_src_(bus: &Mmio) -> (r: u32)
    ensures
        r == (bus.value(rstgen_Software_RESET_status1_REG_ADDR as u64) >> 15u32) & 0x1,
{
    (bus.read32(rstgen_Software_RESET_status1_REG_ADDR as u64) >> 15u32) & 0x1
}

pub fn _ASSERT_RESET_rstgen_rstn_vin_src_(bus: &mut Mmio)
    ensures
        final(bus).state() == field_step(old(bus).state(), rstgen_Software_RESET_assert1_REG_ADDR, 0x8000, 0x8000),
{
    set_field(bus, rstgen_Software_RESET_assert1_REG_ADDR, 0x8000, 0x8000);
    let _ = bus.read32(rstgen_Software_RESET_status1_REG_ADDR as u64);
}

pub fn _CLEAR_RESET_rstgen_rstn_vin_src_(bus: &mut Mmio)
    ensures
        final(bus).state() == field_step(old(bus).state(), rstgen_Software_RESET_assert1_REG_ADDR, 0x8000, 0x0),
{
    set_field(bus, rstgen_Software_RESET_assert1_REG_ADDR, 0x8000, 0x0);
    let _ = bus.read32(rstgen_Software_RESET_status1_REG_ADDR as u64);
}

pub fn _READ_RESET_STATUS_rstgen_rstn_ispslv_axi_(bus: &Mmio) -> (r: u32)
    ensures
        r == (bus.value(rstgen_Software_RESET_status1_REG_ADDR as u64) >> 16u32) & 0x1,
{
    (bus.read32(rstgen_Software_RESET_status1_REG_ADDR as u64) >> 16u32) & 0x1
}

pub fn _ASSERT_RESET_rstgen_rstn_ispslv_axi_(bus: &mut Mmio)
    ensures
        final(bus).state() == field_step(old(bus).state(), rstgen_Software_RESET_assert1_REG_ADDR, 0x10000, 0x10000),
{
    set_field(bus, rstgen_Software_RESET_assert1_REG_ADDR, 0x10000, 0x10000);
    let _ = bus.read32(rstgen_Software_RESET_status1_REG_ADDR as u64);
}

pub fn _CLEAR_RESET_rstgen_rstn_ispslv_axi_(bus: &mut Mmio)
    ensures
        final(bus).state() == field_step(old(bus).state(), rstgen_Software_RESET_assert1_REG_ADDR, 0x10000, 0x0),
{
    set_field(bus, rstgen_Software_RESET_assert1_REG_ADDR, 0x10000, 0x0);
    let _ = bus.read32(rstgen_Software_RESET_status1_REG_ADDR as u64);
}

pub fn _READ_RESET_STATUS_rstgen_rstn_vin_axi_(bus: &Mmio) -> (r: u32)
    ensures
        r == (bus.value(rstgen_Software_RESET_status1_REG_ADDR as u64) >> 17u32) & 0x1,
{
    (bus.read32(rstgen_Software_RESET_status1_REG_ADDR as u64) >> 17u32) & 0x1
}

pub fn _ASSERT_RESET_rstgen_rstn_vin_axi_(bus: &mut Mmio)
    ensures
        final(bus).state() == field_step(old(bus).state(), rstgen_Software_RESET_assert1_REG_ADDR, 0x20000, 0x20000),
{
    set_field(bus, rstgen_Software_RESET_assert1_REG_ADDR, 0x20000, 0x20000);
    let _ = bus.read32(rstgen_Software_RESET_status1_REG_ADDR as u64);
}

pub fn _CLEAR_RESET_rstgen_rstn_vin_axi_(bus: &mut Mmio)
    ensures
        final(bus).state() == field_step(old(bus).state(), rstgen_Software_RESET_assert1_REG_ADDR, 0x20000, 0x0),
{
    set_field(bus, rstgen_Software_RESET_assert1_REG_ADDR, 0x20000, 0x0);
    let _ = bus.read32(rstgen_Software_RESET_status1_REG_ADDR as u64);
}

pub fn _READ_RESET_STATUS_rstgen_rstn_vinnoc_axi_(bus: &Mmio) -> (r: u32)
    ensures
        r == (bus.value(rstgen_Software_RESET_status1_REG_ADDR as u64) >> 18u32) & 0x1,
{
    (bus.read32(rstgen_Software_RESET_status1_REG_ADDR as u64) >> 18u32) & 0x1
}

pub fn _ASSERT_RESET_rstgen_rstn_vinnoc_axi_(bus: &mut Mmio)
    ensures
        final(bus).state() == field_step(old(bus).state(), rstgen_Software_RESET_assert1_REG_ADDR, 0x40000, 0x40000),
{
    set_field(bus, rstgen_Software_RESET_assert1_REG_ADDR, 0x40000, 0x40000);
    let _ = bus.read32(rstgen_Software_RESET_status1_REG_ADDR as u64);
}

pub fn _CLEAR_RESET_rstgen_rstn_vinnoc_axi_(bus: &mut Mmio)
    ensures
        final(bus).state() == field_step(old(bus).state(), rstgen_Software_RESET_assert1_REG_ADDR, 0x40000, 0x0),
{
    set_field(bus, rstgen_Software_RESET_assert1_REG_ADDR, 0x40000, 0x0);
    let _ = bus.read32(rstgen_Software_RESET_status1_REG_ADDR as u64);
}

pub fn _READ_RESET_STATUS_rstgen_rstn_isp0_axi_(bus: &Mmio) -> (r: u32)
    ensures
        r == (bus.value(rstgen_Software_RESET_status1_REG_ADDR as u64) >> 19u32) & 0x1,
{
    (bus.read32(rstgen_Software_RESET_status1_REG_ADDR as u64) >> 19u32) & 0x1
}

pub fn _ASSERT_RESET_rstgen_rstn_isp0_axi_(bus: &mut Mmio)
    ensures
        final(bus).state() == field_step(old(bus).state(), rstgen_Software_RESET_assert1_REG_ADDR, 0x80000, 0x80000),
{
    set_field(bus, rstgen_Software_RESET_assert1_REG_ADDR, 0x80000, 0x80000);
    let _ = bus.read32(rstgen_Software_RESET_status1_REG_ADDR as u64);
}

pub fn _CLEAR_RESET_rstgen_rstn_isp0_axi_(bus: &mut Mmio)
    ensures
        final(bus).state() == field_step(old(bus).state(), rstgen_Software_RESET_assert1_REG_ADDR, 0x80000, 0x0),
{
    set_field(bus, rstgen_Software_RESET_assert1_REG_ADDR, 0x80000, 0x0);
    let _ = bus.read32(rstgen_Software_RESET_status1_REG_ADDR as u64);
}

pub fn _READ_RESET_STATUS_rstgen_rstn_isp0noc_axi_(bus: &Mmio) -> (r: u32)
    ensures
        r == (bus.value(rstgen_Software_RESET_status1_REG_ADDR as u64) >> 20u32) & 0x1,
{
    (bus.read32(rstgen_Software_RESET_status1_REG_ADDR as u64) >> 20u32) & 0x1
}

pub fn _ASSERT_RESET_rstgen_rstn_isp0noc_axi_(bus: &mut Mmio)
    ensures
        final(bus).state() == field_step(old(bus).state(), rstgen_Software_RESET_assert1_REG_ADDR, 0x100000, 0x100000),
{
    set_field(bus, rstgen_Software_RESET_assert1_REG_ADDR, 0x100000, 0x100000);
    let _ = bus.read32(rstgen_Software_RESET_status1_REG_ADDR as u64);
}

pub fn _CLEAR_RESET_rstgen_rstn_isp0noc_axi_(bus: &mut Mmio)
    ensures
        final(bus).state() == field_step(old(bus).state(), rstgen_Software_RESET_assert1_REG_ADDR, 0x100000, 0x0),
{
    set_field(bus, rstgen_Software_RESET_assert1_REG_ADDR, 0x100000, 0x0);
    let _ = bus.read32(rstgen_Software_RESET_status1_REG_ADDR as u64);
}

pub fn _READ_RESET_STATUS_rstgen_rstn_isp1_axi_(bus: &Mmio) -> (r: u32)
    ensures
        r == (bus.value(rstgen_Software_RESET_status1_REG_ADDR as u64) >> 21u32) & 0x1,
{
    (bus.read32(rstgen_Software_RESET_status1_REG_ADDR as u64) >> 21u32) & 0x1
}

pub fn _ASSERT_RESET_rstgen_rstn_isp1_axi_(bus: &mut Mmio)
    ensures
        final(bus).state() == field_step(old(bus).state(), rstgen_Software_RESET_assert1_REG_ADDR, 0x200000, 0x200000),
{
    set_field(bus, rstgen_Software_RESET_assert1_REG_ADDR, 0x200000, 0x200000);
    let _ = bus.read32(rstgen_Software_RESET_status1_REG_ADDR as u64);
}

pub fn _CLEAR_RESET_rstgen_rstn_isp1_axi_(bus: &mut Mmio)
    ensures
        final(bus).state() == field_step(old(bus).state(), rstgen_Software_RESET_assert1_REG_ADDR, 0x200000, 0x0),
{
    set_field(bus, rstgen_Software_RESET_assert1_REG_ADDR, 0x200000, 0x0);
    let _ = bus.read32(rstgen_Software_RESET_status1_REG_ADDR as u64);
}

pub fn _READ_RESET_STATUS_rstgen_rstn_isp1noc_axi_(bus: &Mmio) -> (r: u32)
    ensures
        r == (bus.value(rstgen_Software_RESET_status1_REG_ADDR as u64) >> 22u32) & 0x1,
{
    (bus.read32(rstgen_Software_RESET_status1_REG_ADDR as u64) >> 22u32) & 0x1
}

pub fn _ASSERT_RESET_rstgen_rstn_isp1noc_axi_(bus: &mut Mmio)
    ensures
        final(bus).state() == field_step(old(bus).state(), rstgen_Software_RESET_assert1_REG_ADDR, 0x400000, 0x400000),
{
    set_field(bus, rstgen_Software_RESET_assert1_REG_ADDR, 0x400000, 0x400000);
    let _ = bus.read32(rstgen_Software_RESET_status1_REG_ADDR as u64);
}

pub fn _CLEAR_RESET_rstgen_rstn_isp1noc_axi_(bus: &mut Mmio)
    ensures
        final(bus).state() == field_step(old(bus).state(), rstgen_Software_RESET_assert1_REG_ADDR, 0x400000, 0x0),
{
    set_field(bus, rstgen_Software_RESET_assert1_REG_ADDR, 0x400000, 0x0);
    let _ = bus.read32(rstgen_Software_RESET_status1_REG_ADDR as u64);
}

pub fn _READ_RESET_STATUS_rstgen_rstn_vout_src_(bus: &Mmio) -> (r: u32)
    ensures
        r == (bus.value(rstgen_Software_RESET_status1_REG_ADDR as u64) >> 23u32) & 0x1,
{
    (bus.read32(rstgen_Software_RESET_status1_REG_ADDR as u64) >> 23u32) & 0x1
}

pub fn _ASSERT_RESET_rstgen_rstn_vout_src_(bus: &mut Mmio)
    ensures
        final(bus).state() == field_step(old(bus).state(), rstgen_Software_RESET_assert1_REG_ADDR, 0x800000, 0x800000),
{
    set_field(bus, rstgen_Software_RESET_assert1_REG_ADDR, 0x800000, 0x800000);
    let _ = bus.read32(rstgen_Software_RESET_status1_REG_ADDR as u64);
}

pub fn _CLEAR_RESET_rstgen_rstn_vout_src_(bus: &mut Mmio)
    ensures
        final(bus).state() == field_step(old(bus).state(), rstgen_Software_RESET_assert1_REG_ADDR, 0x800000, 0x0),
{
    set_field(bus, rstgen_Software_RESET_assert1_REG_ADDR, 0x800000, 0x0);
    let _ = bus.read32(rstgen_Software_RESET_status1_REG_ADDR as u64);
}

pub fn _READ_RESET_STATUS_rstgen_rstn_disp_axi_(bus: &Mmio) -> (r: u32)
    ensures
        r == (bus.value(rstgen_Software_RESET_status1_REG_ADDR as u64) >> 24u32) & 0x1,
{
    (bus.read32(rstgen_Software_RESET_status1_REG_ADDR as u64) >> 24u32) & 0x1
}

pub fn _ASSERT_RESET_rstgen_rstn_disp_axi_(bus: &mut Mmio)
    ensures
        final(bus).state() == field_step(old(bus).state(), rstgen_Software_RESET_assert1_REG_ADDR, 0x1000000, 0x1000000),
{
    set_field(bus, rstgen_Software_RESET_assert1_REG_ADDR, 0x1000000, 0x1000000);
    let _ = bus.read32(rstgen_Software_RESET_status1_REG_ADDR as u64);
}

pub fn _CLEAR_RESET_rstgen_rstn_disp_axi_(bus: &mut Mmio)
    ensures
        final(bus).state() == field_step(old(bus).state(), rstgen_Software_RESET_assert1_REG_ADDR, 0x1000000, 0x0),
{
    set_field(bus, rstgen_Software_RESET_assert1_REG_ADDR, 0x1000000, 0x0);
    let _ = bus.read32(rstgen_Software_RESET_status1_REG_ADDR as u64);
}

pub fn _READ_RESET_STATUS_rstgen_rstn_dispnoc_axi_(bus: &Mmio) -> (r: u32)
    ensures
        r == (bus.value(rstgen_Software_RESET_status1_REG_ADDR as u64) >> 25u32) & 0x1,
{
    (bus.read32(rstgen_Software_RESET_status1_REG_ADDR as u64) >> 25u32) & 0x1
}

pub fn _ASSERT_RESET_rstgen_rstn_dispnoc_axi_(bus: &mut Mmio)
    ensures
        final(bus).state() == field_step(old(bus).state(), rstgen_Software_RESET_assert1_REG_ADDR, 0x2000000, 0x2000000),
{
    set_field(bus, rstgen_Software_RESET_assert1_REG_ADDR, 0x2000000, 0x2000000);
    let _ = bus.read32(rstgen_Software_RESET_status1_REG_ADDR as u64);
}

pub fn _CLEAR_RESET_rstgen_rstn_dispnoc_axi_(bus: &mut Mmio)
    ensures
        final(bus).state() == field_step(old(bus).state(), rstgen_Software_RESET_assert1_REG_ADDR, 0x2000000, 0x0),
{
    set_field(bus, rstgen_Software_RESET_assert1_REG_ADDR, 0x2000000, 0x0);
    let _ = bus.read32(rstgen_Software_RESET_status1_REG_ADDR as u64);
}

pub fn _READ_RESET_STATUS_rstgen_rstn_sdio0_ahb_(bus: &Mmio) -> (r: u32)
    ensures
        r == (bus.value(rstgen_Software_RESET_status1_REG_ADDR as u64) >> 26u32) & 0x1,
{
    (bus.read32(rstgen_Software_RESET_status1_REG_ADDR as u64) >> 26u32) & 0x1
}

pub fn _ASSERT_RESET_rstgen_rstn_sdio0_ahb_(bus: &mut Mmio)
    ensures
        final(bus).state() == field_step(old(bus).state(), rstgen_Software_RESET_assert1_REG_ADDR, 0x4000000, 0x4000000),
{
    set_field(bus, rstgen_Software_RESET_assert1_REG_ADDR, 0x4000000, 0x4000000);
    let _ = bus.read32(rstgen_Software_RESET_status1_REG_ADDR as u64);
}

pub fn _CLEAR_RESET_rstgen_rstn_sdio0_ahb_(bus: &mut Mmio)
    ensures
        final(bus).state() == field_step(old(bus).state(), rstgen_Software_RESET_assert1_REG_ADDR, 0x4000000, 0x0),
{
    set_field(bus, rstgen_Software_RESET_assert1_REG_ADDR, 0x4000000, 0x0);
    let _ = bus.read32(rstgen_Software_RESET_status1_REG_ADDR as u64);
}

pub fn _READ_RESET_STATUS_rstgen_rstn_sdio1_ahb_(bus: &Mmio) -> (r: u32)
    ensures
        r == (bus.value(rstgen_Software_RESET_status1_REG_ADDR as u64) >> 27u32) & 0x1,
{
    (bus.read32(rstgen_Software_RESET_status1_REG_ADDR as u64) >> 27u32) & 0x1
}

pub fn _ASSERT_RESET_rstgen_rstn_sdio1_ahb_(bus: &mut Mmio)
    ensures
        final(bus).state() == field_step(old(bus).state(), rstgen_Software_RESET_assert1_REG_ADDR, 0x8000000, 0x8000000),
{
    set_field(bus, rstgen_Software_RESET_assert1_REG_ADDR, 0x8000000, 0x8000000);
    let _ = bus.read32(rstgen_Software_RESET_status1_REG_ADDR as u64);
}

pub fn _CLEAR_RESET_rstgen_rstn_sdio1_ahb_(bus: &mut Mmio)
    ensures
        final(bus).state() == field_step(old(bus).state(), rstgen_Software_RESET_assert1_REG_ADDR, 0x8000000, 0x0),
{
    set_field(bus, rstgen_Software_RESET_assert1_REG_ADDR, 0x8000000, 0x0);
    let _ = bus.read32(rstgen_Software_RESET_status1_REG_ADDR as u64);
}

pub fn _READ_RESET_STATUS_rstgen_rstn_gmac_ahb_(bus: &Mmio) -> (r: u32)
    ensures
        r == (bus.value(rstgen_Software_RESET_status1_REG_ADDR as u64) >> 28u32) & 0x1,
{
    (bus.read32(rstgen_Software_RESET_status1_REG_ADDR as u64) >> 28u32) & 0x1
}

pub fn _ASSERT_RESET_rstgen_rstn_gmac_ahb_(bus: &mut Mmio)
    ensures
        final(bus).state() == field_step(old(bus).state(), rstgen_Software_RESET_assert1_REG_ADDR, 0x10000000, 0x10000000),
{
    set_field(bus, rstgen_Software_RESET_assert1_REG_ADDR, 0x10000000, 0x10000000);
    let _ = bus.read32(rstgen_Software_RESET_status1_REG_ADDR as u64);
}

pub fn _CLEAR_RESET_rstgen_rstn_gmac_ahb_(bus: &mut Mmio)
    ensures
        final(bus).state() == field_step(old(bus).state(), rstgen_Software_RESET_assert1_REG_ADDR, 0x10000000, 0x0),
{
    set_field(bus, rstgen_Software_RESET_assert1_REG_ADDR, 0x10000000, 0x0);
    let _ = bus.read32(rstgen_Software_RESET_status1_REG_ADDR as u64);
}

pub fn _READ_RESET_STATUS_rstgen_rstn_spi2ahb_ahb_(bus: &Mmio) -> (r: u32)
    ensures
        r == (bus.value(rstgen_Software_RESET_status1_REG_ADDR as u64) >> 29u32) & 0x1,
{
    (bus.read32(rstgen_Software_RESET_status1_REG_ADDR as u64) >> 29u32) & 0x1
}

pub fn _ASSERT_RESET_rstgen_rstn_spi2ahb_ahb_(bus: &mut Mmio)
    ensures
        final(bus).state() == field_step(old(bus).state(), rstgen_Software_RESET_assert1_REG_ADDR, 0x20000000, 0x20000000),
{
    set_field(bus, rstgen_Software_RESET_assert1_REG_ADDR, 0x20000000, 0x20000000);
    let _ = bus.read32(rstgen_Software_RESET_status1_REG_ADDR as u64);
}

pub fn _CLEAR_RESET_rstgen_rstn_spi2ahb_ahb_(bus: &mut Mmio)
    ensures
        final(bus).state() == field_step(old(bus).state(), rstgen_Software_RESET_assert1_REG_ADDR, 0x20000000, 0x0),
{
    set_field(bus, rstgen_Software_RESET_assert1_REG_ADDR, 0x20000000, 0x0);
    let _ = bus.read32(rstgen_Software_RESET_status1_REG_ADDR as u64);
}

pub fn _READ_RESET_STATUS_rstgen_rstn_spi2ahb_core_(bus: &Mmio) -> (r: u32)
    ensures
        r == (bus.value(rstgen_Software_RESET_status1_REG_ADDR as u64) >> 30u32) & 0x1,
{
    (bus.read32(rstgen_Software_RESET_status1_REG_ADDR as u64) >> 30u32) & 0x1
}

pub fn _ASSERT_RESET_rstgen_rstn_spi2ahb_core_(bus: &mut Mmio)
    ensures
        final(bus).state() == field_step(old(bus).state(), rstgen_Software_RESET_assert1_REG_ADDR, 0x40000000, 0x40000000),
{
    set_field(bus, rstgen_Software_RESET_assert1_REG_ADDR, 0x40000000, 0x40000000);
    let _ = bus.read32(rstgen_Software_RESET_status1_REG_ADDR as u64);
}

pub fn _CLEAR_RESET_rstgen_rstn_spi2ahb_core_(bus: &mut Mmio)
    ensures
        final(bus).state() == field_step(old(bus).state(), rstgen_Software_RESET_assert1_REG_ADDR, 0x40000000, 0x0),
{
    set_field(bus, rstgen_Software_RESET_assert1_REG_ADDR, 0x40000000, 0x0);
    let _ = bus.read32(rstgen_Software_RESET_status1_REG_ADDR as u64);
}

pub fn _READ_RESET_STATUS_rstgen_rstn_ezmaster_ahb_(bus: &Mmio) -> (r: u32)
    ensures
        r == (bus.value(rstgen_Software_RESET_status1_REG_ADDR as u64) >> 31u32) & 0x1,
{
    (bus.read32(rstgen_Software_RESET_status1_REG_ADDR as u64) >> 31u32) & 0x1
}

pub fn _ASSERT_RESET_rstgen_rstn_ezmaster_ahb_(bus: &mut Mmio)
    ensures
        final(bus).state() == field_step(old(bus).state(), rstgen_Software_RESET_assert1_REG_ADDR, 0x80000000, 0x80000000),
{
    set_field(bus, rstgen_Software_RESET_assert1_REG_ADDR, 0x80000000, 0x80000000);
    let _ = bus.read32(rstgen_Software_RESET_status1_REG_ADDR as u64);
}

pub fn _CLEAR_RESET_rstgen_rstn_ezmaster_ahb_(bus: &mut Mmio)
    ensures
        final(bus).state() == field_step(old(bus).state(), rstgen_Software_RESET_assert1_REG_ADDR, 0x80000000, 0x0),
{
    set_field(bus, rstgen_Software_RESET_assert1_REG_ADDR, 0x80000000, 0x0);
    let _ = bus.read32(rstgen_Software_RESET_status1_REG_ADDR as u64);
}

pub fn _READ_RESET_STATUS_rstgen_rst_e24_(bus: &Mmio) -> (r: u32)
    ensures
        r == bus.value(rstgen_Software_RESET_status2_REG_ADDR as u64) & 0x1,
{
    bus.read32(rstgen_Software_RESET_status2_REG_ADDR as u64) & 0x1
}

pub fn _ASSERT_RESET_rstgen_rst_e24_(bus: &mut Mmio)
    ensures
        final(bus).state() == field_step(old(bus).state(), rstgen_Software_RESET_assert2_REG_ADDR, 0x1, 0x1),
{
    set_field(bus, rstgen_Software_RESET_assert2_REG_ADDR, 0x1, 0x1);
    let _ = bus.read32(rstgen_Software_RESET_status2_REG_ADDR as u64);
}

pub fn _CLEAR_RESET_rstgen_rst_e24_(bus: &mut Mmio)
    ensures
        final(bus).state() == field_step(old(bus).state(), rstgen_Software_RESET_assert2_REG_ADDR, 0x1, 0x0),
{
    set_field(bus, rstgen_Software_RESET_assert2_REG_ADDR, 0x1, 0x0);
    let _ = bus.read32(rstgen_Software_RESET_status2_REG_ADDR as u64);
}

pub fn _READ_RESET_STATUS_rstgen_rstn_qspi_ahb_(bus: &Mmio) -> (r: u32)
    ensures
        r == (bus.value(rstgen_Software_RESET_status2_REG_ADDR as u64) >> 1u32) & 0x1,
{
    (bus.read32(rstgen_Software_RESET_status2_REG_ADDR as u64) >> 1u32) & 0x1
}

pub fn _ASSERT_RESET_rstgen_rstn_qspi_ahb_(bus: &mut Mmio)
    ensures
        final(bus).state() == field_step(old(bus).state(), rstgen_Software_RESET_assert2_REG_ADDR, 0x2, 0x2),
{
    set_field(bus, rstgen_Software_RESET_assert2_REG_ADDR, 0x2, 0x2);
    let _ = bus.read32(rstgen_Software_RESET_status2_REG_ADDR as u64);
}

pub fn _CLEAR_RESET_rstgen_rstn_qspi_ahb_(bus: &mut Mmio)
    ensures
        final(bus).state() == field_step(old(bus).state(), rstgen_Software_RESET_assert2_REG_ADDR, 0x2, 0x0),
{
    set_field(bus, rstgen_Software_RESET_assert2_REG_ADDR, 0x2, 0x0);
    let _ = bus.read32(rstgen_Software_RESET_status2_REG_ADDR as u64);
}

pub fn _READ_RESET_STATUS_rstgen_rstn_qspi_core_(bus: &Mmio) -> (r: u32)
    ensures
        r == (bus.value(rstgen_Software_RESET_status2_REG_ADDR as u64) >> 2u32) & 0x1,
{
    (bus.read32(rstgen_Software_RESET_status2_REG_ADDR as u64) >> 2u32) & 0x1
}

pub fn _ASSERT_RESET_rstgen_rstn_qspi_core_(bus: &mut Mmio)
    ensures
        final(bus).state() == field_step(old(bus).state(), rstgen_Software_RESET_assert2_REG_ADDR, 0x4, 0x4),
{
    set_field(bus, rstgen_Software_RESET_assert2_REG_ADDR, 0x4, 0x4);
    let _ = bus.read32(rstgen_Software_RESET_status2_REG_ADDR as u64);
}

pub fn _CLEAR_RESET_rstgen_rstn_qspi_core_(bus: &mut Mmio)
    ensures
        final(bus).state() == field_step(old(bus).state(), rstgen_Software_RESET_assert2_REG_ADDR, 0x4, 0x0),
{
    set_field(bus, rstgen_Software_RESET_assert2_REG_ADDR, 0x4, 0x0);
    let _ = bus.read32(rstgen_Software_RESET_status2_REG_ADDR as u64);
}

pub fn _READ_RESET_STATUS_rstgen_rstn_qspi_apb_(bus: &Mmio) -> (r: u32)
    ensures
        r == (bus.value(rstgen_Software_RESET_status2_REG_ADDR as u64) >> 3u32) & 0x1,
{
    (bus.read32(rstgen_Software_RESET_status2_REG_ADDR as u64) >> 3u32) & 0x1
}

pub fn _ASSERT_RESET_rstgen_rstn_qspi_apb_(bus: &mut Mmio)
    ensures
        final(bus).state() == field_step(old(bus).state(), rstgen_Software_RESET_assert2_REG_ADDR, 0x8, 0x8),
{
    set_field(bus, rstgen_Software_RESET_assert2_REG_ADDR, 0x8, 0x8);
    let _ = bus.read32(rstgen_Software_RESET_status2_REG_ADDR as u64);
}

pub fn _CLEAR_RESET_rstgen_rstn_qspi_apb_(bus: &mut Mmio)
    ensures
        final(bus).state() == field_step(old(bus).state(), rstgen_Software_RESET_assert2_REG_ADDR, 0x8, 0x0),
{
    set_field(bus, rstgen_Software_RESET_assert2_REG_ADDR, 0x8, 0x0);
    let _ = bus.read32(rstgen_Software_RESET_status2_REG_ADDR as u64);
}

pub fn _READ_RESET_STATUS_rstgen_rstn_sec_ahb_(bus: &Mmio) -> (r: u32)
    ensures
        r == (bus.value(rstgen_Software_RESET_status2_REG_ADDR as u64) >> 4u32) & 0x1,
{
    (bus.read32(rstgen_Software_RESET_status2_REG_ADDR as u64) >> 4u32) & 0x1
}

pub fn _ASSERT_RESET_rstgen_rstn_sec_ahb_(bus: &mut Mmio)
    ensures
        final(bus).state() == field_step(old(bus).state(), rstgen_Software_RESET_assert2_REG_ADDR, 0x10, 0x10),
{
    set_field(bus, rstgen_Software_RESET_assert2_REG_ADDR, 0x10, 0x10);
    let _ = bus.read32(rstgen_Software_RESET_status2_REG_ADDR as u64);
}

pub fn _CLEAR_RESET_rstgen_rstn_sec_ahb_(bus: &mut Mmio)
    ensures
        final(bus).state() == field_step(old(bus).state(), rstgen_Software_RESET_assert2_REG_ADDR, 0x10, 0x0),
{
    set_field(bus, rstgen_Software_RESET_assert2_REG_ADDR, 0x10, 0x0);
    let _ = bus.read32(rstgen_Software_RESET_status2_REG_ADDR as u64);
}

pub fn _READ_RESET_STATUS_rstgen_rstn_aes_(bus: &Mmio) -> (r: u32)
    ensures
        r == (bus.value(rstgen_Software_RESET_status2_REG_ADDR as u64) >> 5u32) & 0x1,
{
    (bus.read32(rstgen_Software_RESET_status2_REG_ADDR as u64) >> 5u32) & 0x1
}

pub fn _ASSERT_RESET_rstgen_rstn_aes_(bus: &mut Mmio)
    ensures
        final(bus).state() == field_step(old(bus).state(), rstgen_Software_RESET_assert2_REG_ADDR, 0x20, 0x20),
{
    set_field(bus, rstgen_Software_RESET_assert2_REG_ADDR, 0x20, 0x20);
    let _ = bus.read32(rstgen_Software_RESET_status2_REG_ADDR as u64);
}

pub fn _CLEAR_RESET_rstgen_rstn_aes_(bus: &mut Mmio)
    ensures
        final(bus).state() == field_step(old(bus).state(), rstgen_Software_RESET_assert2_REG_ADDR, 0x20, 0x0),
{
    set_field(bus, rstgen_Software_RESET_assert2_REG_ADDR, 0x20, 0x0);
    let _ = bus.read32(rstgen_Software_RESET_status2_REG_ADDR as u64);
}

pub fn _READ_RESET_STATUS_rstgen_rstn_pka_(bus: &Mmio) -> (r: u32)
    ensures
        r == (bus.value(rstgen_Software_RESET_status2_REG_ADDR as u64) >> 6u32) & 0x1,
{
    (bus.read32(rstgen_Software_RESET_status2_REG_ADDR as u64) >> 6u32) & 0x1
}

pub fn _ASSERT_RESET_rstgen_rstn_pka_(bus: &mut Mmio)
    ensures
        final(bus).state() == field_step(old(bus).state(), rstgen_Software_RESET_assert2_REG_ADDR, 0x40, 0x40),
{
    set_field(bus, rstgen_Software_RESET_assert2_REG_ADDR, 0x40, 0x40);
    let _ = bus.read32(rstgen_Software_RESET_status2_REG_ADDR as u64);
}

pub fn _CLEAR_RESET_rstgen_rstn_pka_(bus: &mut Mmio)
    ensures
        final(bus).state() == field_step(old(bus).state(), rstgen_Software_RESET_assert2_REG_ADDR, 0x40, 0x0),
{
    set_field(bus, rstgen_Software_RESET_assert2_REG_ADDR, 0x40, 0x0);
    let _ = bus.read32(rstgen_Software_RESET_status2_REG_ADDR as u64);
}

pub fn _READ_RESET_STATUS_rstgen_rstn_sha_(bus: &Mmio) -> (r: u32)
    ensures
        r == (bus.value(rstgen_Software_RESET_status2_REG_ADDR as u64) >> 7u32) & 0x1,
{
    (bus.read32(rstgen_Software_RESET_status2_REG_ADDR as u64) >> 7u32) & 0x1
}

pub fn _ASSERT_RESET_rstgen_rstn_sha_(bus: &mut Mmio)
    ensures
        final(bus).state() == field_step(old(bus).state(), rstgen_Software_RESET_assert2_REG_ADDR, 0x80, 0x80),
{
    set_field(bus, rstgen_Software_RESET_assert2_REG_ADDR, 0x80, 0x80);
    let _ = bus.read32(rstgen_Software_RESET_status2_REG_ADDR as u64);
}

pub fn _CLEAR_RESET_rstgen_rstn_sha_(bus: &mut Mmio)
    ensures
        final(bus).state() == field_step(old(bus).state(), rstgen_Software_RESET_assert2_REG_ADDR, 0x80, 0x0),
{
    set_field(bus, rstgen_Software_RESET_assert2_REG_ADDR, 0x80, 0x0);
    let _ = bus.read32(rstgen_Software_RESET_status2_REG_ADDR as u64);
}

pub fn _READ_RESET_STATUS_rstgen_rstn_trng_apb_(bus: &Mmio) -> (r: u32)
    ensures
        r == (bus.value(rstgen_Software_RESET_status2_REG_ADDR as u64) >> 8u32) & 0x1,
{
    (bus.read32(rstgen_Software_RESET_status2_REG_ADDR as u64) >> 8u32) & 0x1
}

pub fn _ASSERT_RESET_rstgen_rstn_trng_apb_(bus: &mut Mmio)
    ensures
        final(bus).state() == field_step(old(bus).state(), rstgen_Software_RESET_assert2_REG_ADDR, 0x100, 0x100),
{
    set_field(bus, rstgen_Software_RESET_assert2_REG_ADDR, 0x100, 0x100);
    let _ = bus.read32(rstgen_Software_RESET_status2_REG_ADDR as u64);
}

pub fn _CLEAR_RESET_rstgen_rstn_trng_apb_(bus: &mut Mmio)
    ensures
        final(bus).state() == field_step(old(bus).state(), rstgen_Software_RESET_assert2_REG_ADDR, 0x100, 0x0),
{
    set_field(bus, rstgen_Software_RESET_assert2_REG_ADDR, 0x100, 0x0);
    let _ = bus.read32(rstgen_Software_RESET_status2_REG_ADDR as u64);
}

pub fn _READ_RESET_STATUS_rstgen_rstn_otp_apb_(bus: &Mmio) -> (r: u32)
    ensures
        r == (bus.value(rstgen_Software_RESET_status2_REG_ADDR as u64) >> 9u32) & 0x1,
{
    (bus.read32(rstgen_Software_RESET_status2_REG_ADDR as u64) >> 9u32) & 0x1
}

pub fn _ASSERT_RESET_rstgen_rstn_otp_apb_(bus: &mut Mmio)
    ensures
        final(bus).state() == field_step(old(bus).state(), rstgen_Software_RESET_assert2_REG_ADDR, 0x200, 0x200),
{
    set_field(bus, rstgen_Software_RESET_assert2_REG_ADDR, 0x200, 0x200);
    let _ = bus.read32(rstgen_Software_RESET_status2_REG_ADDR as u64);
}

pub fn _CLEAR_RESET_rstgen_rstn_otp_apb_(bus: &mut Mmio)
    ensures
        final(bus).state() == field_step(old(bus).state(), rstgen_Software_RESET_assert2_REG_ADDR, 0x200, 0x0),
{
    set_field(bus, rstgen_Software_RESET_assert2_REG_ADDR, 0x200, 0x0);
    let _ = bus.read32(rstgen_Software_RESET_status2_REG_ADDR as u64);
}

pub fn _READ_RESET_STATUS_rstgen_rstn_uart0_apb_(bus: &Mmio) -> (r: u32)
    ensures
        r == (bus.value(rstgen_Software_RESET_status2_REG_ADDR as u64) >> 10u32) & 0x1,
{
    (bus.read32(rstgen_Software_RESET_status2_REG_ADDR as u64) >> 10u32) & 0x1
}

pub fn _ASSERT_RESET_rstgen_rstn_uart0_apb_(bus: &mut Mmio)
    ensures
        final(bus).state() == field_step(old(bus).state(), rstgen_Software_RESET_assert2_REG_ADDR, 0x400, 0x400),
{
    set_field(bus, rstgen_Software_RESET_assert2_REG_ADDR, 0x400, 0x400);
    let _ = bus.read32(rstgen_Software_RESET_status2_REG_ADDR as u64);
}

pub fn _CLEAR_RESET_rstgen_rstn_uart0_apb_(bus: &mut Mmio)
    ensures
        final(bus).state() == field_step(old(bus).state(), rstgen_Software_RESET_assert2_REG_ADDR, 0x400, 0x0),
{
    set_field(bus, rstgen_Software_RESET_assert2_REG_ADDR, 0x400, 0x0);
    let _ = bus.read32(rstgen_Software_RESET_status2_REG_ADDR as u64);
}

pub fn _READ_RESET_STATUS_rstgen_rstn_uart0_core_(bus: &Mmio) -> (r: u32)
    ensures
        r == (bus.value(rstgen_Software_RESET_status2_REG_ADDR as u64) >> 11u32) & 0x1,
{
    (bus.read32(rstgen_Software_RESET_status2_REG_ADDR as u64) >> 11u32) & 0x1
}

pub fn _ASSERT_RESET_rstgen_rstn_uart0_core_(bus: &mut Mmio)
    ensures
        final(bus).state() == field_step(old(bus).state(), rstgen_Software_RESET_assert2_REG_ADDR, 0x800, 0x800),
{
    set_field(bus, rstgen_Software_RESET_assert2_REG_ADDR, 0x800, 0x800);
    let _ = bus.read32(rstgen_Software_RESET_status2_REG_ADDR as u64);
}

pub fn _CLEAR_RESET_rstgen_rstn_uart0_core_(bus: &mut Mmio)
    ensures
        final(bus).state() == field_step(old(bus).state(), rstgen_Software_RESET_assert2_REG_ADDR, 0x800, 0x0),
{
    set_field(bus, rstgen_Software_RESET_assert2_REG_ADDR, 0x800, 0x0);
    let _ = bus.read32(rstgen_Software_RESET_status2_REG_ADDR as u64);
}

pub fn _READ_RESET_STATUS_rstgen_rstn_uart1_apb_(bus: &Mmio) -> (r: u32)
    ensures
        r == (bus.value(rstgen_Software_RESET_status2_REG_ADDR as u64) >> 12u32) & 0x1,
{
    (bus.read32(rstgen_Software_RESET_status2_REG_ADDR as u64) >> 12u32) & 0x1
}

pub fn _ASSERT_RESET_rstgen_rstn_uart1_apb_(bus: &mut Mmio)
    ensures
        final(bus).state() == field_step(old(bus).state(), rstgen_Software_RESET_assert2_REG_ADDR, 0x1000, 0x1000),
{
    set_field(bus, rstgen_Software_RESET_assert2_REG_ADDR, 0x1000, 0x1000);
    let _ = bus.read32(rstgen_Software_RESET_status2_REG_ADDR as u64);
}

pub fn _CLEAR_RESET_rstgen_rstn_uart1_apb_(bus: &mut Mmio)
    ensures
        final(bus).state() == field_step(old(bus).state(), rstgen_Software_RESET_assert2_REG_ADDR, 0x1000, 0x0),
{
    set_field(bus, rstgen_Software_RESET_assert2_REG_ADDR, 0x1000, 0x0);
    let _ = bus.read32(rstgen_Software_RESET_status2_REG_ADDR as u64);
}

pub fn _READ_RESET_STATUS_rstgen_rstn_uart1_core_(bus: &Mmio) -> (r: u32)
    ensures
        r == (bus.value(rstgen_Software_RESET_status2_REG_ADDR as u64) >> 13u32) & 0x1,
{
    (bus.read32(rstgen_Software_RESET_status2_REG_ADDR as u64) >> 13u32) & 0x1
}

pub fn _ASSERT_RESET_rstgen_rstn_uart1_core_(bus: &mut Mmio)
    ensures
        final(bus).state() == field_step(old(bus).state(), rstgen_Software_RESET_assert2_REG_ADDR, 0x2000, 0x2000),
{
    set_field(bus, rstgen_Software_RESET_assert2_REG_ADDR, 0x2000, 0x2000);
    let _ = bus.read32(rstgen_Software_RESET_status2_REG_ADDR as u64);
}

pub fn _CLEAR_RESET_rstgen_rstn_uart1_core_(bus: &mut Mmio)
    ensures
        final(bus).state() == field_step(old(bus).state(), rstgen_Software_RESET_assert2_REG_ADDR, 0x2000, 0x0),
{
    set_field(bus, rstgen_Software_RESET_assert2_REG_ADDR, 0x2000, 0x0);
    let _ = bus.read32(rstgen_Software_RESET_status2_REG_ADDR as u64);
}

pub fn _READ_RESET_STATUS_rstgen_rstn_spi0_apb_(bus: &Mmio) -> (r: u32)
    ensures
        r == (bus.value(rstgen_Software_RESET_status2_REG_ADDR as u64) >> 14u32) & 0x1,
{
    (bus.read32(rstgen_Software_RESET_status2_REG_ADDR as u64) >> 14u32) & 0x1
}

pub fn _ASSERT_RESET_rstgen_rstn_spi0_apb_(bus: &mut Mmio)
    ensures
        final(bus).state() == field_step(old(bus).state(), rstgen_Software_RESET_assert2_REG_ADDR, 0x4000, 0x4000),
{
    set_field(bus, rstgen_Software_RESET_assert2_REG_ADDR, 0x4000, 0x4000);
    let _ = bus.read32(rstgen_Software_RESET_status2_REG_ADDR as u64);
}

pub fn _CLEAR_RESET_rstgen_rstn_spi0_apb_(bus: &mut Mmio)
    ensures
        final(bus).state() == field_step(old(bus).state(), rstgen_Software_RESET_assert2_REG_ADDR, 0x4000, 0x0),
{
    set_field(bus, rstgen_Software_RESET_assert2_REG_ADDR, 0x4000, 0x0);
    let _ = bus.read32(rstgen_Software_RESET_status2_REG_ADDR as u64);
}

pub fn _READ_RESET_STATUS_rstgen_rstn_spi0_core_(bus: &Mmio) -> (r: u32)
    ensures
        r == (bus.value(rstgen_Software_RESET_status2_REG_ADDR as u64) >> 15u32) & 0x1,
{
    (bus.read32(rstgen_Software_RESET_status2_REG_ADDR as u64) >> 15u32) & 0x1
}

pub fn _ASSERT_RESET_rstgen_rstn_spi0_core_(bus: &mut Mmio)
    ensures
        final(bus).state() == field_step(old(bus).state(), rstgen_Software_RESET_assert2_REG_ADDR, 0x8000, 0x8000),
{
    set_field(bus, rstgen_Software_RESET_assert2_REG_ADDR, 0x8000, 0x8000);
    let _ = bus.read32(rstgen_Software_RESET_status2_REG_ADDR as u64);
}

pub fn _CLEAR_RESET_rstgen_rstn_spi0_core_(bus: &mut Mmio)
    ensures
        final(bus).state() == field_step(old(bus).state(), rstgen_Software_RESET_assert2_REG_ADDR, 0x8000, 0x0),
{
    set_field(bus, rstgen_Software_RESET_assert2_REG_ADDR, 0x8000, 0x0);
    let _ = bus.read32(rstgen_Software_RESET_status2_REG_ADDR as u64);
}

pub fn _READ_RESET_STATUS_rstgen_rstn_spi1_apb_(bus: &Mmio) -> (r: u32)
    ensures
        r == (bus.value(rstgen_Software_RESET_status2_REG_ADDR as u64) >> 16u32) & 0x1,
{
    (bus.read32(rstgen_Software_RESET_status2_REG_ADDR as u64) >> 16u32) & 0x1
}

pub fn _ASSERT_RESET_rstgen_rstn_spi1_apb_(bus: &mut Mmio)
    ensures
        final(bus).state() == field_step(old(bus).state(), rstgen_Software_RESET_assert2_REG_ADDR, 0x10000, 0x10000),
{
    set_field(bus, rstgen_Software_RESET_assert2_REG_ADDR, 0x10000, 0x10000);
    let _ = bus.read32(rstgen_Software_RESET_status2_REG_ADDR as u64);
}

pub fn _CLEAR_RESET_rstgen_rstn_spi1_apb_(bus: &mut Mmio)
    ensures
        final(bus).state() == field_step(old(bus).state(), rstgen_Software_RESET_assert2_REG_ADDR, 0x10000, 0x0),
{
    set_field(bus, rstgen_Software_RESET_assert2_REG_ADDR, 0x10000, 0x0);
    let _ = bus.read32(rstgen_Software_RESET_status2_REG_ADDR as u64);
}

pub fn _READ_RESET_STATUS_rstgen_rstn_spi1_core_(bus: &Mmio) -> (r: u32)
    ensures
        r == (bus.value(rstgen_Software_RESET_status2_REG_ADDR as u64) >> 17u32) & 0x1,
{
    (bus.read32(rstgen_Software_RESET_status2_REG_ADDR as u64) >> 17u32) & 0x1
}

pub fn _ASSERT_RESET_rstgen_rstn_spi1_core_(bus: &mut Mmio)
    ensures
        final(bus).state() == field_step(old(bus).state(), rstgen_Software_RESET_assert2_REG_ADDR, 0x20000, 0x20000),
{
    set_field(bus, rstgen_Software_RESET_assert2_REG_ADDR, 0x20000, 0x20000);
    let _ = bus.read32(rstgen_Software_RESET_status2_REG_ADDR as u64);
}

pub fn _CLEAR_RESET_rstgen_rstn_spi1_core_(bus: &mut Mmio)
    ensures
        final(bus).state() == field_step(old(bus).state(), rstgen_Software_RESET_assert2_REG_ADDR, 0x20000, 0x0),
{
    set_field(bus, rstgen_Software_RESET_assert2_REG_ADDR, 0x20000, 0x0);
    let _ = bus.read32(rstgen_Software_RESET_status2_REG_ADDR as u64);
}

pub fn _READ_RESET_STATUS_rstgen_rstn_i2c0_apb_(bus: &Mmio) -> (r: u32)
    ensures
        r == (bus.value(rstgen_Software_RESET_status2_REG_ADDR as u64) >> 18u32) & 0x1,
{
    (bus.read32(rstgen_Software_RESET_status2_REG_ADDR as u64) >> 18u32) & 0x1
}

pub fn _ASSERT_RESET_rstgen_rstn_i2c0_apb_(bus: &mut Mmio)
    ensures
        final(bus).state() == field_step(old(bus).state(), rstgen_Software_RESET_assert2_REG_ADDR, 0x40000, 0x40000),
{
    set_field(bus, rstgen_Software_RESET_assert2_REG_ADDR, 0x40000, 0x40000);
    let _ = bus.read32(rstgen_Software_RESET_status2_REG_ADDR as u64);
}

pub fn _CLEAR_RESET_rstgen_rstn_i2c0_apb_(bus: &mut Mmio)
    ensures
        final(bus).state() == field_step(old(bus).state(), rstgen_Software_RESET_assert2_REG_ADDR, 0x40000, 0x0),
{
    set_field(bus, rstgen_Software_RESET_assert2_REG_ADDR, 0x40000, 0x0);
    let _ = bus.read32(rstgen_Software_RESET_status2_REG_ADDR as u64);
}

pub fn _READ_RESET_STATUS_rstgen_rstn_i2c0_core_(bus: &Mmio) -> (r: u32)
    ensures
        r == (bus.value(rstgen_Software_RESET_status2_REG_ADDR as u64) >> 19u32) & 0x1,
{
    (bus.read32(rstgen_Software_RESET_status2_REG_ADDR as u64) >> 19u32) & 0x1
}

pub fn _ASSERT_RESET_rstgen_rstn_i2c0_core_(bus: &mut Mmio)
    ensures
        final(bus).state() == field_step(old(bus).state(), rstgen_Software_RESET_assert2_REG_ADDR, 0x80000, 0x80000),
{
    set_field(bus, rstgen_Software_RESET_assert2_REG_ADDR, 0x80000, 0x80000);
    let _ = bus.read32(rstgen_Software_RESET_status2_REG_ADDR as u64);
}

pub fn _CLEAR_RESET_rstgen_rstn_i2c0_core_(bus: &mut Mmio)
    ensures
        final(bus).state() == field_step(old(bus).state(), rstgen_Software_RESET_assert2_REG_ADDR, 0x80000, 0x0),
{
    set_field(bus, rstgen_Software_RESET_assert2_REG_ADDR, 0x80000, 0x0);
    let _ = bus.read32(rstgen_Software_RESET_status2_REG_ADDR as u64);
}

pub fn _READ_RESET_STATUS_rstgen_rstn_i2c1_apb_(bus: &Mmio) -> (r: u32)
    ensures
        r == (bus.value(rstgen_Software_RESET_status2_REG_ADDR as u64) >> 20u32) & 0x1,
{
    (bus.read32(rstgen_Software_RESET_status2_REG_ADDR as u64) >> 20u32) & 0x1
}

pub fn _ASSERT_RESET_rstgen_rstn_i2c1_apb_(bus: &mut Mmio)
    ensures
        final(bus).state() == field_step(old(bus).state(), rstgen_Software_RESET_assert2_REG_ADDR, 0x100000, 0x100000),
{
    set_field(bus, rstgen_Software_RESET_assert2_REG_ADDR, 0x100000, 0x100000);
    let _ = bus.read32(rstgen_Software_RESET_status2_REG_ADDR as u64);
}

pub fn _CLEAR_RESET_rstgen_rstn_i2c1_apb_(bus: &mut Mmio)
    ensures
        final(bus).state() == field_step(old(bus).state(), rstgen_Software_RESET_assert2_REG_ADDR, 0x100000, 0x0),
{
    set_field(bus, rstgen_Software_RESET_assert2_REG_ADDR, 0x100000, 0x0);
    let _ = bus.read32(rstgen_Software_RESET_status2_REG_ADDR as u64);
}

pub fn _READ_RESET_STATUS_rstgen_rstn_i2c1_core_(bus: &Mmio) -> (r: u32)
    ensures
        r == (bus.value(rstgen_Software_RESET_status2_REG_ADDR as u64) >> 21u32) & 0x1,
{
    (bus.read32(rstgen_Software_RESET_status2_REG_ADDR as u64) >> 21u32) & 0x1
}

pub fn _ASSERT_RESET_rstgen_rstn_i2c1_core_(bus: &mut Mmio)
    ensures
        final(bus).state() == field_step(old(bus).state(), rstgen_Software_RESET_assert2_REG_ADDR, 0x200000, 0x200000),
{
    set_field(bus, rstgen_Software_RESET_assert2_REG_ADDR, 0x200000, 0x200000);
    let _ = bus.read32(rstgen_Software_RESET_status2_REG_ADDR as u64);
}

pub fn _CLEAR_RESET_rstgen_rstn_i2c1_core_(bus: &mut Mmio)
    ensures
        final(bus).state() == field_step(old(bus).state(), rstgen_Software_RESET_assert2_REG_ADDR, 0x200000, 0x0),
{
    set_field(bus, rstgen_Software_RESET_assert2_REG_ADDR, 0x200000, 0x0);
    let _ = bus.read32(rstgen_Software_RESET_status2_REG_ADDR as u64);
}

pub fn _READ_RESET_STATUS_rstgen_rstn_gpio_apb_(bus: &Mmio) -> (r: u32)
    ensures
        r == (bus.value(rstgen_Software_RESET_status2_REG_ADDR as u64) >> 22u32) & 0x1,
{
    (bus.read32(rstgen_Software_RESET_status2_REG_ADDR as u64) >> 22u32) & 0x1
}

pub fn _ASSERT_RESET_rstgen_rstn_gpio_apb_(bus: &mut Mmio)
    ensures
        final(bus).state() == field_step(old(bus).state(), rstgen_Software_RESET_assert2_REG_ADDR, 0x400000, 0x400000),
{
    set_field(bus, rstgen_Software_RESET_assert2_REG_ADDR, 0x400000, 0x400000);
    let _ = bus.read32(rstgen_Software_RESET_status2_REG_ADDR as u64);
}

pub fn _CLEAR_RESET_rstgen_rstn_gpio_apb_(bus: &mut Mmio)
    ensures
        final(bus).state() == field_step(old(bus).state(), rstgen_Software_RESET_assert2_REG_ADDR, 0x400000, 0x0),
{
    set_field(bus, rstgen_Software_RESET_assert2_REG_ADDR, 0x400000, 0x0);
    let _ = bus.read32(rstgen_Software_RESET_status2_REG_ADDR as u64);
}

pub fn _READ_RESET_STATUS_rstgen_rstn_uart2_apb_(bus: &Mmio) -> (r: u32)
    ensures
        r == (bus.value(rstgen_Software_RESET_status2_REG_ADDR as u64) >> 23u32) & 0x1,
{
    (bus.read32(rstgen_Software_RESET_status2_REG_ADDR as u64) >> 23u32) & 0x1
}

pub fn _ASSERT_RESET_rstgen_rstn_uart2_apb_(bus: &mut Mmio)
    ensures
        final(bus).state() == field_step(old(bus).state(), rstgen_Software_RESET_assert2_REG_ADDR, 0x800000, 0x800000),
{
    set_field(bus, rstgen_Software_RESET_assert2_REG_ADDR, 0x800000, 0x800000);
    let _ = bus.read32(rstgen_Software_RESET_status2_REG_ADDR as u64);
}

pub fn _CLEAR_RESET_rstgen_rstn_uart2_apb_(bus: &mut Mmio)
    ensures
        final(bus).state() == field_step(old(bus).state(), rstgen_Software_RESET_assert2_REG_ADDR, 0x800000, 0x0),
{
    set_field(bus, rstgen_Software_RESET_assert2_REG_ADDR, 0x800000, 0x0);
    let _ = bus.read32(rstgen_Software_RESET_status2_REG_ADDR as u64);
}

pub fn _READ_RESET_STATUS_rstgen_rstn_uart2_core_(bus: &Mmio) -> (r: u32)
    ensures
        r == (bus.value(rstgen_Software_RESET_status2_REG_ADDR as u64) >> 24u32) & 0x1,
{
    (bus.read32(rstgen_Software_RESET_status2_REG_ADDR as u64) >> 24u32) & 0x1
}

pub fn _ASSERT_RESET_rstgen_rstn_uart2_core_(bus: &mut Mmio)
    ensures
        final(bus).state() == field_step(old(bus).state(), rstgen_Software_RESET_assert2_REG_ADDR, 0x1000000, 0x1000000),
{
    set_field(bus, rstgen_Software_RESET_assert2_REG_ADDR, 0x1000000, 0x1000000);
    let _ = bus.read32(rstgen_Software_RESET_status2_REG_ADDR as u64);
}

pub fn _CLEAR_RESET_rstgen_rstn_uart2_core_(bus: &mut Mmio)
    ensures
        final(bus).state() == field_step(old(bus).state(), rstgen_Software_RESET_assert2_REG_ADDR, 0x1000000, 0x0),
{
    set_field(bus, rstgen_Software_RESET_assert2_REG_ADDR, 0x1000000, 0x0);
    let _ = bus.read32(rstgen_Software_RESET_status2_REG_ADDR as u64);
}

pub fn _READ_RESET_STATUS_rstgen_rstn_uart3_apb_(bus: &Mmio) -> (r: u32)
    ensures
        r == (bus.value(rstgen_Software_RESET_status2_REG_ADDR as u64) >> 25u32) & 0x1,
{
    (bus.read32(rstgen_Software_RESET_status2_REG_ADDR as u64) >> 25u32) & 0x1
}

pub fn _ASSERT_RESET_rstgen_rstn_uart3_apb_(bus: &mut Mmio)
    ensures
        final(bus).state() == field_step(old(bus).state(), rstgen_Software_RESET_assert2_REG_ADDR, 0x2000000, 0x2000000),
{
    set_field(bus, rstgen_Software_RESET_assert2_REG_ADDR, 0x2000000, 0x2000000);
    let _ = bus.read32(rstgen_Software_RESET_status2_REG_ADDR as u64);
}

pub fn _CLEAR_RESET_rstgen_rstn_uart3_apb_(bus: &mut Mmio)
    ensures
        final(bus).state() == field_step(old(bus).state(), rstgen_Software_RESET_assert2_REG_ADDR, 0x2000000, 0x0),
{
    set_field(bus, rstgen_Software_RESET_assert2_REG_ADDR, 0x2000000, 0x0);
    let _ = bus.read32(rstgen_Software_RESET_status2_REG_ADDR as u64);
}

pub fn _READ_RESET_STATUS_rstgen_rstn_uart3_core_(bus: &Mmio) -> (r: u32)
    ensures
        r == (bus.value(rstgen_Software_RESET_status2_REG_ADDR as u64) >> 26u32) & 0x1,
{
    (bus.read32(rstgen_Software_RESET_status2_REG_ADDR as u64) >> 26u32) & 0x1
}

pub fn _ASSERT_RESET_rstgen_rstn_uart3_core_(bus: &mut Mmio)
    ensures
        final(bus).state() == field_step(old(bus).state(), rstgen_Software_RESET_assert2_REG_ADDR, 0x4000000, 0x4000000),
{
    set_field(bus, rstgen_Software_RESET_assert2_REG_ADDR, 0x4000000, 0x4000000);
    let _ = bus.read32(rstgen_Software_RESET_status2_REG_ADDR as u64);
}

pub fn _CLEAR_RESET_rstgen_rstn_uart3_core_(bus: &mut Mmio)
    ensures
        final(bus).state() == field_step(old(bus).state(), rstgen_Software_RESET_assert2_REG_ADDR, 0x4000000, 0x0),
{
    set_field(bus, rstgen_Software_RESET_assert2_REG_ADDR, 0x4000000, 0x0);
    let _ = bus.read32(rstgen_Software_RESET_status2_REG_ADDR as u64);
}

pub fn _READ_RESET_STATUS_rstgen_rstn_spi2_apb_(bus: &Mmio) -> (r: u32)
    ensures
        r == (bus.value(rstgen_Software_RESET_status2_REG_ADDR as u64) >> 27u32) & 0x1,
{
    (bus.read32(rstgen_Software_RESET_status2_REG_ADDR as u64) >> 27u32) & 0x1
}

pub fn _ASSERT_RESET_rstgen_rstn_spi2_apb_(bus: &mut Mmio)
    ensures
        final(bus).state() == field_step(old(bus).state(), rstgen_Software_RESET_assert2_REG_ADDR, 0x8000000, 0x8000000),
{
    set_field(bus, rstgen_Software_RESET_assert2_REG_ADDR, 0x8000000, 0x8000000);
    let _ = bus.read32(rstgen_Software_RESET_status2_REG_ADDR as u64);
}

pub fn _CLEAR_RESET_rstgen_rstn_spi2_apb_(bus: &mut Mmio)
    ensures
        final(bus).state() == field_step(old(bus).state(), rstgen_Software_RESET_assert2_REG_ADDR, 0x8000000, 0x0),
{
    set_field(bus, rstgen_Software_RESET_assert2_REG_ADDR, 0x8000000, 0x0);
    let _ = bus.read32(rstgen_Software_RESET_status2_REG_ADDR as u64);
}

pub fn _READ_RESET_STATUS_rstgen_rstn_spi2_core_(bus: &Mmio) -> (r: u32)
    ensures
        r == (bus.value(rstgen_Software_RESET_status2_REG_ADDR as u64) >> 28u32) & 0x1,
{
    (bus.read32(rstgen_Software_RESET_status2_REG_ADDR as u64) >> 28u32) & 0x1
}

pub fn _ASSERT_RESET_rstgen_rstn_spi2_core_(bus: &mut Mmio)
    ensures
        final(bus).state() == field_step(old(bus).state(), rstgen_Software_RESET_assert2_REG_ADDR, 0x10000000, 0x10000000),
{
    set_field(bus, rstgen_Software_RESET_assert2_REG_ADDR, 0x10000000, 0x10000000);
    let _ = bus.read32(rstgen_Software_RESET_status2_REG_ADDR as u64);
}

pub fn _CLEAR_RESET_rstgen_rstn_spi2_core_(bus: &mut Mmio)
    ensures
        final(bus).state() == field_step(old(bus).state(), rstgen_Software_RESET_assert2_REG_ADDR, 0x10000000, 0x0),
{
    set_field(bus, rstgen_Software_RESET_assert2_REG_ADDR, 0x10000000, 0x0);
    let _ = bus.read32(rstgen_Software_RESET_status2_REG_ADDR as u64);
}

pub fn _READ_RESET_STATUS_rstgen_rstn_spi3_apb_(bus: &Mmio) -> (r: u32)
    ensures
        r == (bus.value(rstgen_Software_RESET_status2_REG_ADDR as u64) >> 29u32) & 0x1,
{
    (bus.read32(rstgen_Software_RESET_status2_REG_ADDR as u64) >> 29u32) & 0x1
}

pub fn _ASSERT_RESET_rstgen_rstn_spi3_apb_(bus: &mut Mmio)
    ensures
        final(bus).state() == field_step(old(bus).state(), rstgen_Software_RESET_assert2_REG_ADDR, 0x20000000, 0x20000000),
{
    set_field(bus, rstgen_Software_RESET_assert2_REG_ADDR, 0x20000000, 0x20000000);
    let _ = bus.read32(rstgen_Software_RESET_status2_REG_ADDR as u64);
}

pub fn _CLEAR_RESET_rstgen_rstn_spi3_apb_(bus: &mut Mmio)
    ensures
        final(bus).state() == field_step(old(bus).state(), rstgen_Software_RESET_assert2_REG_ADDR, 0x20000000, 0x0),
{
    set_field(bus, rstgen_Software_RESET_assert2_REG_ADDR, 0x20000000, 0x0);
    let _ = bus.read32(rstgen_Software_RESET_status2_REG_ADDR as u64);
}

pub fn _READ_RESET_STATUS_rstgen_rstn_spi3_core_(bus: &Mmio) -> (r: u32)
    ensures
        r == (bus.value(rstgen_Software_RESET_status2_REG_ADDR as u64) >> 30u32) & 0x1,
{
    (bus.read32(rstgen_Software_RESET_status2_REG_ADDR as u64) >> 30u32) & 0x1
}

pub fn _ASSERT_RESET_rstgen_rstn_spi3_core_(bus: &mut Mmio)
    ensures
        final(bus).state() == field_step(old(bus).state(), rstgen_Software_RESET_assert2_REG_ADDR, 0x40000000, 0x40000000),
{
    set_field(bus, rstgen_Software_RESET_assert2_REG_ADDR, 0x40000000, 0x40000000);
    let _ = bus.read32(rstgen_Software_RESET_status2_REG_ADDR as u64);
}

pub fn _CLEAR_RESET_rstgen_rstn_spi3_core_(bus: &mut Mmio)
    ensures
        final(bus).state() == field_step(old(bus).state(), rstgen_Software_RESET_assert2_REG_ADDR, 0x40000000, 0x0),
{
    set_field(bus, rstgen_Software_RESET_assert2_REG_ADDR, 0x40000000, 0x0);
    let _ = bus.read32(rstgen_Software_RESET_status2_REG_ADDR as u64);
}

pub fn _READ_RESET_STATUS_rstgen_rstn_i2c2_apb_(bus: &Mmio) -> (r: u32)
    ensures
        r == (bus.value(rstgen_Software_RESET_status2_REG_ADDR as u64) >> 31u32) & 0x1,
{
    (bus.read32(rstgen_Software_RESET_status2_REG_ADDR as u64) >> 31u32) & 0x1
}

pub fn _ASSERT_RESET_rstgen_rstn_i2c2_apb_(bus: &mut Mmio)
    ensures
        final(bus).state() == field_step(old(bus).state(), rstgen_Software_RESET_assert2_REG_ADDR, 0x80000000, 0x80000000),
{
    set_field(bus, rstgen_Software_RESET_assert2_REG_ADDR, 0x80000000, 0x80000000);
    let _ = bus.read32(rstgen_Software_RESET_status2_REG_ADDR as u64);
}

pub fn _CLEAR_RESET_rstgen_rstn_i2c2_apb_(bus: &mut Mmio)
    ensures
        final(bus).state() == field_step(old(bus).state(), rstgen_Software_RESET_assert2_REG_ADDR, 0x80000000, 0x0),
{
    set_field(bus, rstgen_Software_RESET_assert2_REG_ADDR, 0x80000000, 0x0);
    let _ = bus.read32(rstgen_Software_RESET_status2_REG_ADDR as u64);
}

pub fn _READ_RESET_STATUS_rstgen_rstn_i2c2_core_(bus: &Mmio) -> (r: u32)
    ensures
        r == bus.value(rstgen_Software_RESET_status3_REG_ADDR as u64) & 0x1,
{
    bus.read32(rstgen_Software_RESET_status3_REG_ADDR as u64) & 0x1
}

pub fn _ASSERT_RESET_rstgen_rstn_i2c2_core_(bus: &mut Mmio)
    ensures
        final(bus).state() == field_step(old(bus).state(), rstgen_Software_RESET_assert3_REG_ADDR, 0x1, 0x1),
{
    set_field(bus, rstgen_Software_RESET_assert3_REG_ADDR, 0x1, 0x1);
    let _ = bus.read32(rstgen_Software_RESET_status3_REG_ADDR as u64);
}

pub fn _CLEAR_RESET_rstgen_rstn_i2c2_core_(bus: &mut Mmio)
    ensures
        final(bus).state() == field_step(old(bus).state(), rstgen_Software_RESET_assert3_REG_ADDR, 0x1, 0x0),
{
    set_field(bus, rstgen_Software_RESET_assert3_REG_ADDR, 0x1, 0x0);
    let _ = bus.read32(rstgen_Software_RESET_status3_REG_ADDR as u64);
}

pub fn _READ_RESET_STATUS_rstgen_rstn_i2c3_apb_(bus: &Mmio) -> (r: u32)
    ensures
        r == (bus.value(rstgen_Software_RESET_status3_REG_ADDR as u64) >> 1u32) & 0x1,
{
    (bus.read32(rstgen_Software_RESET_status3_REG_ADDR as u64) >> 1u32) & 0x1
}

pub fn _ASSERT_RESET_rstgen_rstn_i2c3_apb_(bus: &mut Mmio)
    ensures
        final(bus).state() == field_step(old(bus).state(), rstgen_Software_RESET_assert3_REG_ADDR, 0x2, 0x2),
{
    set_field(bus, rstgen_Software_RESET_assert3_REG_ADDR, 0x2, 0x2);
    let _ = bus.read32(rstgen_Software_RESET_status3_REG_ADDR as u64);
}

pub fn _CLEAR_RESET_rstgen_rstn_i2c3_apb_(bus: &mut Mmio)
    ensures
        final(bus).state() == field_step(old(bus).state(), rstgen_Software_RESET_assert3_REG_ADDR, 0x2, 0x0),
{
    set_field(bus, rstgen_Software_RESET_assert3_REG_ADDR, 0x2, 0x0);
    let _ = bus.read32(rstgen_Software_RESET_status3_REG_ADDR as u64);
}

pub fn _READ_RESET_STATUS_rstgen_rstn_i2c3_core_(bus: &Mmio) -> (r: u32)
    ensures
        r == (bus.value(rstgen_Software_RESET_status3_REG_ADDR as u64) >> 2u32) & 0x1,
{
    (bus.read32(rstgen_Software_RESET_status3_REG_ADDR as u64) >> 2u32) & 0x1
}

pub fn _ASSERT_RESET_rstgen_rstn_i2c3_core_(bus: &mut Mmio)
    ensures
        final(bus).state() == field_step(old(bus).state(), rstgen_Software_RESET_assert3_REG_ADDR, 0x4, 0x4),
{
    set_field(bus, rstgen_Software_RESET_assert3_REG_ADDR, 0x4, 0x4);
    let _ = bus.read32(rstgen_Software_RESET_status3_REG_ADDR as u64);
}

pub fn _CLEAR_RESET_rstgen_rstn_i2c3_core_(bus: &mut Mmio)
    ensures
        final(bus).state() == field_step(old(bus).state(), rstgen_Software_RESET_assert3_REG_ADDR, 0x4, 0x0),
{
    set_field(bus, rstgen_Software_RESET_assert3_REG_ADDR, 0x4, 0x0);
    let _ = bus.read32(rstgen_Software_RESET_status3_REG_ADDR as u64);
}

pub fn _READ_RESET_STATUS_rstgen_rstn_wdtimer_apb_(bus: &Mmio) -> (r: u32)
    ensures
        r == (bus.value(rstgen_Software_RESET_status3_REG_ADDR as u64) >> 3u32) & 0x1,
{
    (bus.read32(rstgen_Software_RESET_status3_REG_ADDR as u64) >> 3u32) & 0x1
}

pub fn _ASSERT_RESET_rstgen_rstn_wdtimer_apb_(bus: &mut Mmio)
    ensures
        final(bus).state() == field_step(old(bus).state(), rstgen_Software_RESET_assert3_REG_ADDR, 0x8, 0x8),
{
    set_field(bus, rstgen_Software_RESET_assert3_REG_ADDR, 0x8, 0x8);
    let _ = bus.read32(rstgen_Software_RESET_status3_REG_ADDR as u64);
}

pub fn _CLEAR_RESET_rstgen_rstn_wdtimer_apb_(bus: &mut Mmio)
    ensures
        final(bus).state() == field_step(old(bus).state(), rstgen_Software_RESET_assert3_REG_ADDR, 0x8, 0x0),
{
    set_field(bus, rstgen_Software_RESET_assert3_REG_ADDR, 0x8, 0x0);
    let _ = bus.read32(rstgen_Software_RESET_status3_REG_ADDR as u64);
}

pub fn _READ_RESET_STATUS_rstgen_rstn_wdt_(bus: &Mmio) -> (r: u32)
    ensures
        r == (bus.value(rstgen_Software_RESET_status3_REG_ADDR as u64) >> 4u32) & 0x1,
{
    (bus.read32(rstgen_Software_RESET_status3_REG_ADDR as u64) >> 4u32) & 0x1
}

pub fn _ASSERT_RESET_rstgen_rstn_wdt_(bus: &mut Mmio)
    ensures
        final(bus).state() == field_step(old(bus).state(), rstgen_Software_RESET_assert3_REG_ADDR, 0x10, 0x10),
{
    set_field(bus, rstgen_Software_RESET_assert3_REG_ADDR, 0x10, 0x10);
    let _ = bus.read32(rstgen_Software_RESET_status3_REG_ADDR as u64);
}

pub fn _CLEAR_RESET_rstgen_rstn_wdt_(bus: &mut Mmio)
    ensures
        final(bus).state() == field_step(old(bus).state(), rstgen_Software_RESET_assert3_REG_ADDR, 0x10, 0x0),
{
    set_field(bus, rstgen_Software_RESET_assert3_REG_ADDR, 0x10, 0x0);
    let _ = bus.read32(rstgen_Software_RESET_status3_REG_ADDR as u64);
}

pub fn _READ_RESET_STATUS_rstgen_rstn_timer0_(bus: &Mmio) -> (r: u32)
    ensures
        r == (bus.value(rstgen_Software_RESET_status3_REG_ADDR as u64) >> 5u32) & 0x1,
{
    (bus.read32(rstgen_Software_RESET_status3_REG_ADDR as u64) >> 5u32) & 0x1
}

pub fn _ASSERT_RESET_rstgen_rstn_timer0_(bus: &mut Mmio)
    ensures
        final(bus).state() == field_step(old(bus).state(), rstgen_Software_RESET_assert3_REG_ADDR, 0x20, 0x20),
{
    set_field(bus, rstgen_Software_RESET_assert3_REG_ADDR, 0x20, 0x20);
    let _ = bus.read32(rstgen_Software_RESET_status3_REG_ADDR as u64);
}

pub fn _CLEAR_RESET_rstgen_rstn_timer0_(bus: &mut Mmio)
    ensures
        final(bus).state() == field_step(old(bus).state(), rstgen_Software_RESET_assert3_REG_ADDR, 0x20, 0x0),
{
    set_field(bus, rstgen_Software_RESET_assert3_REG_ADDR, 0x20, 0x0);
    let _ = bus.read32(rstgen_Software_RESET_status3_REG_ADDR as u64);
}

pub fn _READ_RESET_STATUS_rstgen_rstn_timer1_(bus: &Mmio) -> (r: u32)
    ensures
        r == (bus.value(rstgen_Software_RESET_status3_REG_ADDR as u64) >> 6u32) & 0x1,
{
    (bus.read32(rstgen_Software_RESET_status3_REG_ADDR as u64) >> 6u32) & 0x1
}

pub fn _ASSERT_RESET_rstgen_rstn_timer1_(bus: &mut Mmio)
    ensures
        final(bus).state() == field_step(old(bus).state(), rstgen_Software_RESET_assert3_REG_ADDR, 0x40, 0x40),
{
    set_field(bus, rstgen_Software_RESET_assert3_REG_ADDR, 0x40, 0x40);
    let _ = bus.read32(rstgen_Software_RESET_status3_REG_ADDR as u64);
}

pub fn _CLEAR_RESET_rstgen_rstn_timer1_(bus: &mut Mmio)
    ensures
        final(bus).state() == field_step(old(bus).state(), rstgen_Software_RESET_assert3_REG_ADDR, 0x40, 0x0),
{
    set_field(bus, rstgen_Software_RESET_assert3_REG_ADDR, 0x40, 0x0);
    let _ = bus.read32(rstgen_Software_RESET_status3_REG_ADDR as u64);
}

pub fn _READ_RESET_STATUS_rstgen_rstn_timer2_(bus: &Mmio) -> (r: u32)
    ensures
        r == (bus.value(rstgen_Software_RESET_status3_REG_ADDR as u64) >> 7u32) & 0x1,
{
    (bus.read32(rstgen_Software_RESET_status3_REG_ADDR as u64) >> 7u32) & 0x1
}

pub fn _ASSERT_RESET_rstgen_rstn_timer2_(bus: &mut Mmio)
    ensures
        final(bus).state() == field_step(old(bus).state(), rstgen_Software_RESET_assert3_REG_ADDR, 0x80, 0x80),
{
    set_field(bus, rstgen_Software_RESET_assert3_REG_ADDR, 0x80, 0x80);
    let _ = bus.read32(rstgen_Software_RESET_status3_REG_ADDR as u64);
}

pub fn _CLEAR_RESET_rstgen_rstn_timer2_(bus: &mut Mmio)
    ensures
        final(bus).state() == field_step(old(bus).state(), rstgen_Software_RESET_assert3_REG_ADDR, 0x80, 0x0),
{
    set_field(bus, rstgen_Software_RESET_assert3_REG_ADDR, 0x80, 0x0);
    let _ = bus.read32(rstgen_Software_RESET_status3_REG_ADDR as u64);
}

pub fn _READ_RESET_STATUS_rstgen_rstn_timer3_(bus: &Mmio) -> (r: u32)
    ensures
        r == (bus.value(rstgen_Software_RESET_status3_REG_ADDR as u64) >> 8u32) & 0x1,
{
    (bus.read32(rstgen_Software_RESET_status3_REG_ADDR as u64) >> 8u32) & 0x1
}

pub fn _ASSERT_RESET_rstgen_rstn_timer3_(bus: &mut Mmio)
    ensures
        final(bus).state() == field_step(old(bus).state(), rstgen_Software_RESET_assert3_REG_ADDR, 0x100, 0x100),
{
    set_field(bus, rstgen_Software_RESET_assert3_REG_ADDR, 0x100, 0x100);
    let _ = bus.read32(rstgen_Software_RESET_status3_REG_ADDR as u64);
}

pub fn _CLEAR_RESET_rstgen_rstn_timer3_(bus: &mut Mmio)
    ensures
        final(bus).state() == field_step(old(bus).state(), rstgen_Software_RESET_assert3_REG_ADDR, 0x100, 0x0),
{
    set_field(bus, rstgen_Software_RESET_assert3_REG_ADDR, 0x100, 0x0);
    let _ = bus.read32(rstgen_Software_RESET_status3_REG_ADDR as u64);
}

pub fn _READ_RESET_STATUS_rstgen_rstn_timer4_(bus: &Mmio) -> (r: u32)
    ensures
        r == (bus.value(rstgen_Software_RESET_status3_REG_ADDR as u64) >> 9u32) & 0x1,
{
    (bus.read32(rstgen_Software_RESET_status3_REG_ADDR as u64) >> 9u32) & 0x1
}

pub fn _ASSERT_RESET_rstgen_rstn_timer4_(bus: &mut Mmio)
    ensures
        final(bus).state() == field_step(old(bus).state(), rstgen_Software_RESET_assert3_REG_ADDR, 0x200, 0x200),
{
    set_field(bus, rstgen_Software_RESET_assert3_REG_ADDR, 0x200, 0x200);
    let _ = bus.read32(rstgen_Software_RESET_status3_REG_ADDR as u64);
}

pub fn _CLEAR_RESET_rstgen_rstn_timer4_(bus: &mut Mmio)
    ensures
        final(bus).state() == field_step(old(bus).state(), rstgen_Software_RESET_assert3_REG_ADDR, 0x200, 0x0),
{
    set_field(bus, rstgen_Software_RESET_assert3_REG_ADDR, 0x200, 0x0);
    let _ = bus.read32(rstgen_Software_RESET_status3_REG_ADDR as u64);
}

pub fn _READ_RESET_STATUS_rstgen_rstn_timer5_(bus: &Mmio) -> (r: u32)
    ensures
        r == (bus.value(rstgen_Software_RESET_status3_REG_ADDR as u64) >> 10u32) & 0x1,
{
    (bus.read32(rstgen_Software_RESET_status3_REG_ADDR as u64) >> 10u32) & 0x1
}

pub fn _ASSERT_RESET_rstgen_rstn_timer5_(bus: &mut Mmio)
    ensures
        final(bus).state() == field_step(old(bus).state(), rstgen_Software_RESET_assert3_REG_ADDR, 0x400, 0x400),
{
    set_field(bus, rstgen_Software_RESET_assert3_REG_ADDR, 0x400, 0x400);
    let _ = bus.read32(rstgen_Software_RESET_status3_REG_ADDR as u64);
}

pub fn _CLEAR_RESET_rstgen_rstn_timer5_(bus: &mut Mmio)
    ensures
        final(bus).state() == field_step(old(bus).state(), rstgen_Software_RESET_assert3_REG_ADDR, 0x400, 0x0),
{
    set_field(bus, rstgen_Software_RESET_assert3_REG_ADDR, 0x400, 0x0);
    let _ = bus.read32(rstgen_Software_RESET_status3_REG_ADDR as u64);
}

pub fn _READ_RESET_STATUS_rstgen_rstn_timer6_(bus: &Mmio) -> (r: u32)
    ensures
        r == (bus.value(rstgen_Software_RESET_status3_REG_ADDR as u64) >> 11u32) & 0x1,
{
    (bus.read32(rstgen_Software_RESET_status3_REG_ADDR as u64) >> 11u32) & 0x1
}

pub fn _ASSERT_RESET_rstgen_rstn_timer6_(bus: &mut Mmio)
    ensures
        final(bus).state() == field_step(old(bus).state(), rstgen_Software_RESET_assert3_REG_ADDR, 0x800, 0x800),
{
    set_field(bus, rstgen_Software_RESET_assert3_REG_ADDR, 0x800, 0x800);
    let _ = bus.read32(rstgen_Software_RESET_status3_REG_ADDR as u64);
}

pub fn _CLEAR_RESET_rstgen_rstn_timer6_(bus: &mut Mmio)
    ensures
        final(bus).state() == field_step(old(bus).state(), rstgen_Software_RESET_assert3_REG_ADDR, 0x800, 0x0),
{
    set_field(bus, rstgen_Software_RESET_assert3_REG_ADDR, 0x800, 0x0);
    let _ = bus.read32(rstgen_Software_RESET_status3_REG_ADDR as u64);
}

pub fn _READ_RESET_STATUS_rstgen_rstn_vp6intc_apb_(bus: &Mmio) -> (r: u32)
    ensures
        r == (bus.value(rstgen_Software_RESET_status3_REG_ADDR as u64) >> 12u32) & 0x1,
{
    (bus.read32(rstgen_Software_RESET_status3_REG_ADDR as u64) >> 12u32) & 0x1
}

pub fn _ASSERT_RESET_rstgen_rstn_vp6intc_apb_(bus: &mut Mmio)
    ensures
        final(bus).state() == field_step(old(bus).state(), rstgen_Software_RESET_assert3_REG_ADDR, 0x1000, 0x1000),
{
    set_field(bus, rstgen_Software_RESET_assert3_REG_ADDR, 0x1000, 0x1000);
    let _ = bus.read32(rstgen_Software_RESET_status3_REG_ADDR as u64);
}

pub fn _CLEAR_RESET_rstgen_rstn_vp6intc_apb_(bus: &mut Mmio)
    ensures
        final(bus).state() == field_step(old(bus).state(), rstgen_Software_RESET_assert3_REG_ADDR, 0x1000, 0x0),
{
    set_field(bus, rstgen_Software_RESET_assert3_REG_ADDR, 0x1000, 0x0);
    let _ = bus.read32(rstgen_Software_RESET_status3_REG_ADDR as u64);
}

pub fn _READ_RESET_STATUS_rstgen_rstn_pwm_apb_(bus: &Mmio) -> (r: u32)
    ensures
        r == (bus.value(rstgen_Software_RESET_status3_REG_ADDR as u64) >> 13u32) & 0x1,
{
    (bus.read32(rstgen_Software_RESET_status3_REG_ADDR as u64) >> 13u32) & 0x1
}

pub fn _ASSERT_RESET_rstgen_rstn_pwm_apb_(bus: &mut Mmio)
    ensures
        final(bus).state() == field_step(old(bus).state(), rstgen_Software_RESET_assert3_REG_ADDR, 0x2000, 0x2000),
{
    set_field(bus, rstgen_Software_RESET_assert3_REG_ADDR, 0x2000, 0x2000);
    let _ = bus.read32(rstgen_Software_RESET_status3_REG_ADDR as u64);
}

pub fn _CLEAR_RESET_rstgen_rstn_pwm_apb_(bus: &mut Mmio)
    ensures
        final(bus).state() == field_step(old(bus).state(), rstgen_Software_RESET_assert3_REG_ADDR, 0x2000, 0x0),
{
    set_field(bus, rstgen_Software_RESET_assert3_REG_ADDR, 0x2000, 0x0);
    let _ = bus.read32(rstgen_Software_RESET_status3_REG_ADDR as u64);
}

pub fn _READ_RESET_STATUS_rstgen_rstn_msi_apb_(bus: &Mmio) -> (r: u32)
    ensures
        r == (bus.value(rstgen_Software_RESET_status3_REG_ADDR as u64) >> 14u32) & 0x1,
{
    (bus.read32(rstgen_Software_RESET_status3_REG_ADDR as u64) >> 14u32) & 0x1
}

pub fn _ASSERT_RESET_rstgen_rstn_msi_apb_(bus: &mut Mmio)
    ensures
        final(bus).state() == field_step(old(bus).state(), rstgen_Software_RESET_assert3_REG_ADDR, 0x4000, 0x4000),
{
    set_field(bus, rstgen_Software_RESET_assert3_REG_ADDR, 0x4000, 0x4000);
    let _ = bus.read32(rstgen_Software_RESET_status3_REG_ADDR as u64);
}

pub fn _CLEAR_RESET_rstgen_rstn_msi_apb_(bus: &mut Mmio)
    ensures
        final(bus).state() == field_step(old(bus).state(), rstgen_Software_RESET_assert3_REG_ADDR, 0x4000, 0x0),
{
    set_field(bus, rstgen_Software_RESET_assert3_REG_ADDR, 0x4000, 0x0);
    let _ = bus.read32(rstgen_Software_RESET_status3_REG_ADDR as u64);
}

pub fn _READ_RESET_STATUS_rstgen_rstn_temp_apb_(bus: &Mmio) -> (r: u32)
    ensures
        r == (bus.value(rstgen_Software_RESET_status3_REG_ADDR as u64) >> 15u32) & 0x1,
{
    (bus.read32(rstgen_Software_RESET_status3_REG_ADDR as u64) >> 15u32) & 0x1
}

pub fn _ASSERT_RESET_rstgen_rstn_temp_apb_(bus: &mut Mmio)
    ensures
        final(bus).state() == field_step(old(bus).state(), rstgen_Software_RESET_assert3_REG_ADDR, 0x8000, 0x8000),
{
    set_field(bus, rstgen_Software_RESET_assert3_REG_ADDR, 0x8000, 0x8000);
    let _ = bus.read32(rstgen_Software_RESET_status3_REG_ADDR as u64);
}

pub fn _CLEAR_RESET_rstgen_rstn_temp_apb_(bus: &mut Mmio)
    ensures
        final(bus).state() == field_step(old(bus).state(), rstgen_Software_RESET_assert3_REG_ADDR, 0x8000, 0x0),
{
    set_field(bus, rstgen_Software_RESET_assert3_REG_ADDR, 0x8000, 0x0);
    let _ = bus.read32(rstgen_Software_RESET_status3_REG_ADDR as u64);
}

pub fn _READ_RESET_STATUS_rstgen_rstn_temp_sense_(bus: &Mmio) -> (r: u32)
    ensures
        r == (bus.value(rstgen_Software_RESET_status3_REG_ADDR as u64) >> 16u32) & 0x1,
{
    (bus.read32(rstgen_Software_RESET_status3_REG_ADDR as u64) >> 16u32) & 0x1
}

pub fn _ASSERT_RESET_rstgen_rstn_temp_sense_(bus: &mut Mmio)
    ensures
        final(bus).state() == field_step(old(bus).state(), rstgen_Software_RESET_assert3_REG_ADDR, 0x10000, 0x10000),
{
    set_field(bus, rstgen_Software_RESET_assert3_REG_ADDR, 0x10000, 0x10000);
    let _ = bus.read32(rstgen_Software_RESET_status3_REG_ADDR as u64);
}

pub fn _CLEAR_RESET_rstgen_rstn_temp_sense_(bus: &mut Mmio)
    ensures
        final(bus).state() == field_step(old(bus).state(), rstgen_Software_RESET_assert3_REG_ADDR, 0x10000, 0x0),
{
    set_field(bus, rstgen_Software_RESET_assert3_REG_ADDR, 0x10000, 0x0);
    let _ = bus.read32(rstgen_Software_RESET_status3_REG_ADDR as u64);
}

pub fn _READ_RESET_STATUS_rstgen_rstn_syserr_apb_(bus: &Mmio) -> (r: u32)
    ensures
        r == (bus.value(rstgen_Software_RESET_status3_REG_ADDR as u64) >> 17u32) & 0x1,
{
    (bus.read32(rstgen_Software_RESET_status3_REG_ADDR as u64) >> 17u32) & 0x1
}

pub fn _ASSERT_RESET_rstgen_rstn_syserr_apb_(bus: &mut Mmio)
    ensures
        final(bus).state() == field_step(old(bus).state(), rstgen_Software_RESET_assert3_REG_ADDR, 0x20000, 0x20000),
{
    set_field(bus, rstgen_Software_RESET_assert3_REG_ADDR, 0x20000, 0x20000);
    let _ = bus.read32(rstgen_Software_RESET_status3_REG_ADDR as u64);
}

pub fn _CLEAR_RESET_rstgen_rstn_syserr_apb_(bus: &mut Mmio)
    ensures
        final(bus).state() == field_step(old(bus).state(), rstgen_Software_RESET_assert3_REG_ADDR, 0x20000, 0x0),
{
    set_field(bus, rstgen_Software_RESET_assert3_REG_ADDR, 0x20000, 0x0);
    let _ = bus.read32(rstgen_Software_RESET_status3_REG_ADDR as u64);
}

} // verus!
