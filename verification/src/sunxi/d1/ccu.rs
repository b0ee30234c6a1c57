//! Clock control unit: bus clock gating and reset of the peripherals.
use vstd::prelude::*;
use crate::mmio::{Mmio, RegState, st_rmw};
use crate::sunxi::d1::time::Hz;

verus! {

/// Base of the clock control unit.
pub const CCU_BASE: u64 = 0x0200_1000;
/// SMHC0 clock register.
pub const SMHC0_CLK: u64 = 0x0200_1830;
/// SMHC bus gating reset register.
pub const SMHC_BGR: u64 = 0x0200_184c;
/// UART bus gating reset register.
pub const UART_BGR: u64 = 0x0200_190c;
/// SPI0 clock register.
pub const SPI0_CLK: u64 = 0x0200_1940;
/// SPI bus gating reset register.
pub const SPI_BGR: u64 = 0x0200_196c;

/// Frequencies of the clocks that the peripherals are fed from.
#[derive(Clone, Copy, Debug)]
pub struct Clocks {
    pub psi: Hz,
    pub apb1: Hz,
}

/// The register state after setting bit `bit` of `reg`.
pub open spec fn st_set_bit(s: RegState, reg: u64, bit: u32) -> RegState {
    st_rmw(s, reg, 0xffff_ffffu32, (1u32 << bit) as u32)
}

/// The register state after clearing bit `bit` of `reg`.
pub open spec fn st_clear_bit(s: RegState, reg: u64, bit: u32) -> RegState {
    st_rmw(s, reg, !((1u32 << bit) as u32), 0)
}

/// A peripheral whose bus clock can be gated.
pub trait Gating {
    /// The bus gating reset register of the peripheral.
    spec fn bgr() -> u64;

    /// The gating bit of the peripheral in that register.
    spec fn gating_bit() -> u32;

    fn bgr_addr() -> (r: u64)
        ensures
            r == Self::bgr(),
    ;

    fn gating_bit_index() -> (r: u32)
        ensures
            r == Self::gating_bit(),
            r < 32,
    ;

    /// Lets the bus clock pass to the peripheral.
    fn gating_pass(ccu: &mut Mmio)
        ensures
            final(ccu).state() == st_set_bit(old(ccu).state(), Self::bgr(), Self::gating_bit()),
    ;

    /// Masks the bus clock of the peripheral.
    fn gating_mask(ccu: &mut Mmio)
        ensures
            final(ccu).state() == st_clear_bit(old(ccu).state(), Self::bgr(), Self::gating_bit()),
    ;
}

/// A peripheral with a reset line.
pub trait Reset {
    /// The bus gating reset register of the peripheral.
    spec fn reset_reg() -> u64;

    /// The reset bit of the peripheral in that register (set: deasserted).
    spec fn reset_bit() -> u32;

    fn reset_reg_addr() -> (r: u64)
        ensures
            r == Self::reset_reg(),
    ;

    fn reset_bit_index() -> (r: u32)
        ensures
            r == Self::reset_bit(),
            r < 32,
    ;

    /// Releases the peripheral from reset.
    fn deassert_reset(ccu: &mut Mmio)
        ensures
            final(ccu).state() == st_set_bit(old(ccu).state(), Self::reset_reg(), Self::reset_bit()),
    ;

    /// Holds the peripheral in reset.
    fn assert_reset(ccu: &mut Mmio)
        ensures
            final(ccu).state() == st_clear_bit(old(ccu).state(), Self::reset_reg(), Self::reset_bit()),
    ;
}

fn set_bit(ccu: &mut Mmio, reg: u64, bit: u32)
    requires
        bit < 32,
    ensures
        final(ccu).state() == st_set_bit(old(ccu).state(), reg, bit),
{
    ccu.rmw32(reg, 0xffff_ffffu32, 1u32 << bit);
}

fn clear_bit(ccu: &mut Mmio, reg: u64, bit: u32)
    requires
        bit < 32,
    ensures
        final(ccu).state() == st_clear_bit(old(ccu).state(), reg, bit),
{
    ccu.rmw32(reg, !(1u32 << bit), 0);
}

/// UART0 (clock and reset in the UART bus gating reset register).
pub struct Uart0;

/// SPI0 (clock and reset in the SPI bus gating reset register).
pub struct Spi0;

/// SMHC0 (clock and reset in the SMHC bus gating reset register).
pub struct Smhc0;

impl Gating for Uart0 {
    open spec fn bgr() -> u64 {
        UART_BGR
    }

    open spec fn gating_bit() -> u32 {
        0
    }

    fn bgr_addr() -> (r: u64) {
        UART_BGR
    }

    fn gating_bit_index() -> (r: u32) {
        0
    }

    fn gating_pass(ccu: &mut Mmio) {
        set_bit(ccu, UART_BGR, 0);
    }

    fn gating_mask(ccu: &mut Mmio) {
        clear_bit(ccu, UART_BGR, 0);
    }
}

impl Reset for Uart0 {
    open spec fn reset_reg() -> u64 {
        UART_BGR
    }

    open spec fn reset_bit() -> u32 {
        16
    }

    fn reset_reg_addr() -> (r: u64) {
        UART_BGR
    }

    fn reset_bit_index() -> (r: u32) {
        16
    }

    fn deassert_reset(ccu: &mut Mmio) {
        set_bit(ccu, UART_BGR, 16);
    }

    fn assert_reset(ccu: &mut Mmio) {
        clear_bit(ccu, UART_BGR, 16);
    }
}

impl Gating for Spi0 {
    open spec fn bgr() -> u64 {
        SPI_BGR
    }

    open spec fn gating_bit() -> u32 {
        0
    }

    fn bgr_addr() -> (r: u64) {
        SPI_BGR
    }

    fn gating_bit_index() -> (r: u32) {
        0
    }

    fn gating_pass(ccu: &mut Mmio) {
        set_bit(ccu, SPI_BGR, 0);
    }

    fn gating_mask(ccu: &mut Mmio) {
        clear_bit(ccu, SPI_BGR, 0);
    }
}

impl Reset for Spi0 {
    open spec fn reset_reg() -> u64 {
        SPI_BGR
    }

    open spec fn reset_bit() -> u32 {
        16
    }

    fn reset_reg_addr() -> (r: u64) {
        SPI_BGR
    }

    fn reset_bit_index() -> (r: u32) {
        16
    }

    fn deassert_reset(ccu: &mut Mmio) {
        set_bit(ccu, SPI_BGR, 16);
    }

    fn assert_reset(ccu: &mut Mmio) {
        clear_bit(ccu, SPI_BGR, 16);
    }
}

impl Gating for Smhc0 {
    open spec fn bgr() -> u64 {
        SMHC_BGR
    }

    open spec fn gating_bit() -> u32 {
        0
    }

    fn bgr_addr() -> (r: u64) {
        SMHC_BGR
    }

    fn gating_bit_index() -> (r: u32) {
        0
    }

    fn gating_pass(ccu: &mut Mmio) {
        set_bit(ccu, SMHC_BGR, 0);
    }

    fn gating_mask(ccu: &mut Mmio) {
        clear_bit(ccu, SMHC_BGR, 0);
    }
}

impl Reset for Smhc0 {
    open spec fn reset_reg() -> u64 {
        SMHC_BGR
    }

    open spec fn reset_bit() -> u32 {
        16
    }

    fn reset_reg_addr() -> (r: u64) {
        SMHC_BGR
    }

    fn reset_bit_index() -> (r: u32) {
        16
    }

    fn deassert_reset(ccu: &mut Mmio) {
        set_bit(ccu, SMHC_BGR, 16);
    }

    fn assert_reset(ccu: &mut Mmio) {
        clear_bit(ccu, SMHC_BGR, 16);
    }
}

} // verus!
