//! Bit fields of the GPIO pad configuration registers (DW0..DW3).
use vstd::prelude::*;
use crate::intel::common::block::gpio::PadConfig;

verus! {

/// Input/output buffer disables in DW0.
#[derive(Debug, Clone, Copy, PartialEq, Eq, Structural)]
pub enum PadCfg0Buf {
    NoDisable,
    TxDisable,
    RxDisable,
    TxRxDisable,
}

impl PadCfg0Buf {
    pub open spec fn spec_bits(self) -> u32 {
        match self {
            PadCfg0Buf::NoDisable => 0x0,
            PadCfg0Buf::TxDisable => 0x100,
            PadCfg0Buf::RxDisable => 0x200,
            PadCfg0Buf::TxRxDisable => 0x300,
        }
    }

    /// The field value, in place within its register.
    pub fn bits(self) -> (b: u32)
        ensures
            b == self.spec_bits(),
    {
        match self {
            PadCfg0Buf::NoDisable => 0x0,
            PadCfg0Buf::TxDisable => 0x100,
            PadCfg0Buf::RxDisable => 0x200,
            PadCfg0Buf::TxRxDisable => 0x300,
        }
    }
}

/// Pad mode field of DW0: GPIO or a native function.
#[derive(Debug, Clone, Copy, PartialEq, Eq, Structural)]
pub enum PadCfg0Mode {
    Shift,
    BitWidth,
    Gpio,
    Nf1,
    Nf2,
    Nf3,
    Nf4,
    Nf5,
    Nf6,
    Nf7,
    Nf8,
    Nf9,
    Nf10,
    Nf11,
    Nf12,
    Nf13,
    Nf14,
    Nf15,
}

impl PadCfg0Mode {
    pub open spec fn spec_bits(self) -> u32 {
        match self {
            PadCfg0Mode::Shift => 0xa,
            PadCfg0Mode::BitWidth => 0x7,
            PadCfg0Mode::Gpio => 0x0,
            PadCfg0Mode::Nf1 => 0x400,
            PadCfg0Mode::Nf2 => 0x800,
            PadCfg0Mode::Nf3 => 0xc00,
            PadCfg0Mode::Nf4 => 0x1000,
            PadCfg0Mode::Nf5 => 0x1400,
            PadCfg0Mode::Nf6 => 0x1800,
            PadCfg0Mode::Nf7 => 0x1c00,
            PadCfg0Mode::Nf8 => 0x2000,
            PadCfg0Mode::Nf9 => 0x2400,
            PadCfg0Mode::Nf10 => 0x2800,
            PadCfg0Mode::Nf11 => 0x2c00,
            PadCfg0Mode::Nf12 => 0x3000,
            PadCfg0Mode::Nf13 => 0x3400,
            PadCfg0Mode::Nf14 => 0x3800,
            PadCfg0Mode::Nf15 => 0x3c00,
        }
    }

    /// The field value, in place within its register.
    pub fn bits(self) -> (b: u32)
        ensures
            b == self.spec_bits(),
    {
        match self {
            PadCfg0Mode::Shift => 0xa,
            PadCfg0Mode::BitWidth => 0x7,
            PadCfg0Mode::Gpio => 0x0,
            PadCfg0Mode::Nf1 => 0x400,
            PadCfg0Mode::Nf2 => 0x800,
            PadCfg0Mode::Nf3 => 0xc00,
            PadCfg0Mode::Nf4 => 0x1000,
            PadCfg0Mode::Nf5 => 0x1400,
            PadCfg0Mode::Nf6 => 0x1800,
            PadCfg0Mode::Nf7 => 0x1c00,
            PadCfg0Mode::Nf8 => 0x2000,
            PadCfg0Mode::Nf9 => 0x2400,
            PadCfg0Mode::Nf10 => 0x2800,
            PadCfg0Mode::Nf11 => 0x2c00,
            PadCfg0Mode::Nf12 => 0x3000,
            PadCfg0Mode::Nf13 => 0x3400,
            PadCfg0Mode::Nf14 => 0x3800,
            PadCfg0Mode::Nf15 => 0x3c00,
        }
    }
}

/// Interrupt routing bits of DW0.
#[derive(Debug, Clone, Copy, PartialEq, Eq, Structural)]
pub enum PadCfg0Route {
    Nmi,
    Smi,
    Sci,
    Ioapic,
}

impl PadCfg0Route {
    pub open spec fn spec_bits(self) -> u32 {
        match self {
            PadCfg0Route::Nmi => 0x20000,
            PadCfg0Route::Smi => 0x40000,
            PadCfg0Route::Sci => 0x80000,
            PadCfg0Route::Ioapic => 0x100000,
        }
    }

    /// The field value, in place within its register.
    pub fn bits(self) -> (b: u32)
        ensures
            b == self.spec_bits(),
    {
        match self {
            PadCfg0Route::Nmi => 0x20000,
            PadCfg0Route::Smi => 0x40000,
            PadCfg0Route::Sci => 0x80000,
            PadCfg0Route::Ioapic => 0x100000,
        }
    }
}

/// Receive buffer disable bit of DW0.
#[derive(Debug, Clone, Copy, PartialEq, Eq, Structural)]
pub enum PadCfg0Rx {
    Disable,
}

impl PadCfg0Rx {
    pub open spec fn spec_bits(self) -> u32 {
        match self {
            PadCfg0Rx::Disable => 0x200,
        }
    }

    /// The field value, in place within its register.
    pub fn bits(self) -> (b: u32)
        ensures
            b == self.spec_bits(),
    {
        match self {
            PadCfg0Rx::Disable => 0x200,
        }
    }
}

/// Receive polarity of DW0.
#[derive(Debug, Clone, Copy, PartialEq, Eq, Structural)]
pub enum PadCfg0RxPol {
    NoInvert,
    Invert,
}

impl PadCfg0RxPol {
    pub open spec fn spec_bits(self) -> u32 {
        match self {
            PadCfg0RxPol::NoInvert => 0x0,
            PadCfg0RxPol::Invert => 0x800000,
        }
    }

    /// The field value, in place within its register.
    pub fn bits(self) -> (b: u32)
        ensures
            b == self.spec_bits(),
    {
        match self {
            PadCfg0RxPol::NoInvert => 0x0,
            PadCfg0RxPol::Invert => 0x800000,
        }
    }
}

/// Transmit buffer disable bit of DW0.
#[derive(Debug, Clone, Copy, PartialEq, Eq, Structural)]
pub enum PadCfg0Tx {
    Disable,
}

impl PadCfg0Tx {
    pub open spec fn spec_bits(self) -> u32 {
        match self {
            PadCfg0Tx::Disable => 0x100,
        }
    }

    /// The field value, in place within its register.
    pub fn bits(self) -> (b: u32)
        ensures
            b == self.spec_bits(),
    {
        match self {
            PadCfg0Tx::Disable => 0x100,
        }
    }
}

/// Receive state bit of DW0.
#[derive(Debug, Clone, Copy, PartialEq, Eq, Structural)]
pub enum PadCfg0RxState {
    StateBit,
    State,
}

impl PadCfg0RxState {
    pub open spec fn spec_bits(self) -> u32 {
        match self {
            PadCfg0RxState::StateBit => 0x0,
            PadCfg0RxState::State => 0x1,
        }
    }

    /// The field value, in place within its register.
    pub fn bits(self) -> (b: u32)
        ensures
            b == self.spec_bits(),
    {
        match self {
            PadCfg0RxState::StateBit => 0x0,
            PadCfg0RxState::State => 0x1,
        }
    }
}

/// Transmit state bit of DW0.
#[derive(Debug, Clone, Copy, PartialEq, Eq, Structural)]
pub enum PadCfg0TxState {
    StateBit,
    State,
}

impl PadCfg0TxState {
    pub open spec fn spec_bits(self) -> u32 {
        match self {
            PadCfg0TxState::StateBit => 0x0,
            PadCfg0TxState::State => 0x1,
        }
    }

    /// The field value, in place within its register.
    pub fn bits(self) -> (b: u32)
        ensures
            b == self.spec_bits(),
    {
        match self {
            PadCfg0TxState::StateBit => 0x0,
            PadCfg0TxState::State => 0x1,
        }
    }
}

/// Interrupt trigger of DW0.
#[derive(Debug, Clone, Copy, PartialEq, Eq, Structural)]
pub enum PadCfg0Trig {
    Level,
    EdgeSingle,
    EdgeBoth,
    Off,
}

impl PadCfg0Trig {
    pub open spec fn spec_bits(self) -> u32 {
        match self {
            PadCfg0Trig::Level => 0x0,
            PadCfg0Trig::EdgeSingle => 0x2000000,
            PadCfg0Trig::EdgeBoth => 0x6000000,
            PadCfg0Trig::Off => 0x4000000,
        }
    }

    /// The field value, in place within its register.
    pub fn bits(self) -> (b: u32)
        ensures
            b == self.spec_bits(),
    {
        match self {
            PadCfg0Trig::Level => 0x0,
            PadCfg0Trig::EdgeSingle => 0x2000000,
            PadCfg0Trig::EdgeBoth => 0x6000000,
            PadCfg0Trig::Off => 0x4000000,
        }
    }
}

/// Field masks of DW0.
#[derive(Debug, Clone, Copy, PartialEq, Eq, Structural)]
pub enum PadCfg0Mask {
    Iosstate,
    Iosterm,
    Mode,
    Pull,
    Reset,
    Route,
    RxTenCfg,
    RxInv,
    RxRaw1,
    RxPadstsel,
    Trig,
}

impl PadCfg0Mask {
    pub open spec fn spec_bits(self) -> u32 {
        match self {
            PadCfg0Mask::Iosstate => 0x0,
            PadCfg0Mask::Iosterm => 0x300,
            PadCfg0Mask::Mode => 0x1c00,
            PadCfg0Mask::Pull => 0x3c00,
            PadCfg0Mask::Reset => 0xc0000000,
            PadCfg0Mask::Route => 0x1e0000,
            PadCfg0Mask::RxTenCfg => 0x600000,
            PadCfg0Mask::RxInv => 0x800000,
            PadCfg0Mask::RxRaw1 => 0x10000000,
            PadCfg0Mask::RxPadstsel => 0x20000000,
            PadCfg0Mask::Trig => 0x6000000,
        }
    }

    /// The field value, in place within its register.
    pub fn bits(self) -> (b: u32)
        ensures
            b == self.spec_bits(),
    {
        match self {
            PadCfg0Mask::Iosstate => 0x0,
            PadCfg0Mask::Iosterm => 0x300,
            PadCfg0Mask::Mode => 0x1c00,
            PadCfg0Mask::Pull => 0x3c00,
            PadCfg0Mask::Reset => 0xc0000000,
            PadCfg0Mask::Route => 0x1e0000,
            PadCfg0Mask::RxTenCfg => 0x600000,
            PadCfg0Mask::RxInv => 0x800000,
            PadCfg0Mask::RxRaw1 => 0x10000000,
            PadCfg0Mask::RxPadstsel => 0x20000000,
            PadCfg0Mask::Trig => 0x6000000,
        }
    }
}

/// Logical pad reset domain of DW0.
#[derive(Debug, Clone, Copy, PartialEq, Eq, Structural)]
pub enum PadCfg0LogicalReset {
    PwrOk,
    Deep,
    PltRst,
    RsmRst,
}

impl PadCfg0LogicalReset {
    pub open spec fn spec_bits(self) -> u32 {
        match self {
            PadCfg0LogicalReset::PwrOk => 0x0,
            PadCfg0LogicalReset::Deep => 0x40000000,
            PadCfg0LogicalReset::PltRst => 0x80000000,
            PadCfg0LogicalReset::RsmRst => 0xc0000000,
        }
    }

    /// The field value, in place within its register.
    pub fn bits(self) -> (b: u32)
        ensures
            b == self.spec_bits(),
    {
        match self {
            PadCfg0LogicalReset::PwrOk => 0x0,
            PadCfg0LogicalReset::Deep => 0x40000000,
            PadCfg0LogicalReset::PltRst => 0x80000000,
            PadCfg0LogicalReset::RsmRst => 0xc0000000,
        }
    }
}

/// I/O standby state of DW1.
#[derive(Debug, Clone, Copy, PartialEq, Eq, Structural)]
pub enum PadCfg1Iosstate {
    TxLastRxE,
    Tx0RxDcRx0,
    Tx0RxDcRx1,
    Tx1RxDcRx0,
    Tx1RxDcRx1,
    Tx0RxE,
    Tx1RxE,
    HiZcRx0,
    HiZcRx1,
    TxDRxE,
    Ignore,
    Shift,
}

impl PadCfg1Iosstate {
    pub open spec fn spec_bits(self) -> u32 {
        match self {
            PadCfg1Iosstate::TxLastRxE => 0x0,
            PadCfg1Iosstate::Tx0RxDcRx0 => 0x4000,
            PadCfg1Iosstate::Tx0RxDcRx1 => 0x8000,
            PadCfg1Iosstate::Tx1RxDcRx0 => 0xc000,
            PadCfg1Iosstate::Tx1RxDcRx1 => 0x10000,
            PadCfg1Iosstate::Tx0RxE => 0x14000,
            PadCfg1Iosstate::Tx1RxE => 0x18000,
            PadCfg1Iosstate::HiZcRx0 => 0x1c000,
            PadCfg1Iosstate::HiZcRx1 => 0x20000,
            PadCfg1Iosstate::TxDRxE => 0x24000,
            PadCfg1Iosstate::Ignore => 0x3c000,
            PadCfg1Iosstate::Shift => 0xe,
        }
    }

    /// The field value, in place within its register.
    pub fn bits(self) -> (b: u32)
        ensures
            b == self.spec_bits(),
    {
        match self {
            PadCfg1Iosstate::TxLastRxE => 0x0,
            PadCfg1Iosstate::Tx0RxDcRx0 => 0x4000,
            PadCfg1Iosstate::Tx0RxDcRx1 => 0x8000,
            PadCfg1Iosstate::Tx1RxDcRx0 => 0xc000,
            PadCfg1Iosstate::Tx1RxDcRx1 => 0x10000,
            PadCfg1Iosstate::Tx0RxE => 0x14000,
            PadCfg1Iosstate::Tx1RxE => 0x18000,
            PadCfg1Iosstate::HiZcRx0 => 0x1c000,
            PadCfg1Iosstate::HiZcRx1 => 0x20000,
            PadCfg1Iosstate::TxDRxE => 0x24000,
            PadCfg1Iosstate::Ignore => 0x3c000,
            PadCfg1Iosstate::Shift => 0xe,
        }
    }
}

/// I/O standby termination of DW1.
#[derive(Debug, Clone, Copy, PartialEq, Eq, Structural)]
pub enum PadCfg1Iosterm {
    Same,
    Dispupd,
    Enpd,
    Enpu,
}

impl PadCfg1Iosterm {
    pub open spec fn spec_bits(self) -> u32 {
        match self {
            PadCfg1Iosterm::Same => 0x0,
            PadCfg1Iosterm::Dispupd => 0x100,
            PadCfg1Iosterm::Enpd => 0x200,
            PadCfg1Iosterm::Enpu => 0x300,
        }
    }

    /// The field value, in place within its register.
    pub fn bits(self) -> (b: u32)
        ensures
            b == self.spec_bits(),
    {
        match self {
            PadCfg1Iosterm::Same => 0x0,
            PadCfg1Iosterm::Dispupd => 0x100,
            PadCfg1Iosterm::Enpd => 0x200,
            PadCfg1Iosterm::Enpu => 0x300,
        }
    }
}

/// Pull resistor selection of DW1.
#[derive(Debug, Clone, Copy, PartialEq, Eq, Structural)]
pub enum PadCfg1Pull {
    NoPull,
    Dn5k,
    Dn20k,
    Up1k,
    Up5k,
    Up2k,
    Up20k,
    Up667,
}

impl PadCfg1Pull {
    pub open spec fn spec_bits(self) -> u32 {
        match self {
            PadCfg1Pull::NoPull => 0x0,
            PadCfg1Pull::Dn5k => 0x800,
            PadCfg1Pull::Dn20k => 0x1000,
            PadCfg1Pull::Up1k => 0x2400,
            PadCfg1Pull::Up5k => 0x2800,
            PadCfg1Pull::Up2k => 0x2c00,
            PadCfg1Pull::Up20k => 0x3000,
            PadCfg1Pull::Up667 => 0x3400,
        }
    }

    /// The field value, in place within its register.
    pub fn bits(self) -> (b: u32)
        ensures
            b == self.spec_bits(),
    {
        match self {
            PadCfg1Pull::NoPull => 0x0,
            PadCfg1Pull::Dn5k => 0x800,
            PadCfg1Pull::Dn20k => 0x1000,
            PadCfg1Pull::Up1k => 0x2400,
            PadCfg1Pull::Up5k => 0x2800,
            PadCfg1Pull::Up2k => 0x2c00,
            PadCfg1Pull::Up20k => 0x3000,
            PadCfg1Pull::Up667 => 0x3400,
        }
    }
}

/// Field masks of DW1.
#[derive(Debug, Clone, Copy, PartialEq, Eq, Structural)]
pub enum PadCfg1Mask {
    Irq,
    Iosterm,
    Pull,
    Iosstate,
}

impl PadCfg1Mask {
    pub open spec fn spec_bits(self) -> u32 {
        match self {
            PadCfg1Mask::Irq => 0xff,
            PadCfg1Mask::Iosterm => 0x300,
            PadCfg1Mask::Pull => 0x3c00,
            PadCfg1Mask::Iosstate => 0x0,
        }
    }

    /// The field value, in place within its register.
    pub fn bits(self) -> (b: u32)
        ensures
            b == self.spec_bits(),
    {
        match self {
            PadCfg1Mask::Irq => 0xff,
            PadCfg1Mask::Iosterm => 0x300,
            PadCfg1Mask::Pull => 0x3c00,
            PadCfg1Mask::Iosstate => 0x0,
        }
    }
}

/// Field masks of DW2.
#[derive(Debug, Clone, Copy, PartialEq, Eq, Structural)]
pub enum PadCfg2Mask {
    Debounce,
}

impl PadCfg2Mask {
    pub open spec fn spec_bits(self) -> u32 {
        match self {
            PadCfg2Mask::Debounce => 0x1f,
        }
    }

    /// The field value, in place within its register.
    pub fn bits(self) -> (b: u32)
        ensures
            b == self.spec_bits(),
    {
        match self {
            PadCfg2Mask::Debounce => 0x1f,
        }
    }
}

/// Debounce duration of DW2: 2^n RTC clocks.
#[derive(Debug, Clone, Copy, PartialEq, Eq, Structural)]
pub enum PadCfg2Debounce {
    Rtc8,
    Rtc16,
    Rtc32,
    Rtc64,
    Rtc128,
    Rtc256,
    Rtc512,
    Rtc1k,
    Rtc2k,
    Rtc4k,
    Rtc8k,
    Rtc16k,
    Rtc32k,
}

impl PadCfg2Debounce {
    pub open spec fn spec_bits(self) -> u32 {
        match self {
            PadCfg2Debounce::Rtc8 => 0x6,
            PadCfg2Debounce::Rtc16 => 0x8,
            PadCfg2Debounce::Rtc32 => 0xa,
            PadCfg2Debounce::Rtc64 => 0xc,
            PadCfg2Debounce::Rtc128 => 0xe,
            PadCfg2Debounce::Rtc256 => 0x10,
            PadCfg2Debounce::Rtc512 => 0x12,
            PadCfg2Debounce::Rtc1k => 0x14,
            PadCfg2Debounce::Rtc2k => 0x16,
            PadCfg2Debounce::Rtc4k => 0x18,
            PadCfg2Debounce::Rtc8k => 0x1a,
            PadCfg2Debounce::Rtc16k => 0x1c,
            PadCfg2Debounce::Rtc32k => 0x1e,
        }
    }

    /// The field value, in place within its register.
    pub fn bits(self) -> (b: u32)
        ensures
            b == self.spec_bits(),
    {
        match self {
            PadCfg2Debounce::Rtc8 => 0x6,
            PadCfg2Debounce::Rtc16 => 0x8,
            PadCfg2Debounce::Rtc32 => 0xa,
            PadCfg2Debounce::Rtc64 => 0xc,
            PadCfg2Debounce::Rtc128 => 0xe,
            PadCfg2Debounce::Rtc256 => 0x10,
            PadCfg2Debounce::Rtc512 => 0x12,
            PadCfg2Debounce::Rtc1k => 0x14,
            PadCfg2Debounce::Rtc2k => 0x16,
            PadCfg2Debounce::Rtc4k => 0x18,
            PadCfg2Debounce::Rtc8k => 0x1a,
            PadCfg2Debounce::Rtc16k => 0x1c,
            PadCfg2Debounce::Rtc32k => 0x1e,
        }
    }
}
/// Mask of the low `x` bits.
pub fn bit_width(x: u32) -> (r: u32)
    requires
        x < 32,
    ensures
        r == (1u32 << x) - 1,
{
    assert(1u32 << x >= 1) by (bit_vector)
        requires
            x < 32,
    ;
    (1u32 << x) - 1
}

/// Native function number `x` placed in the mode field of DW0.
pub fn pad_cfg0_mode_func(x: u32) -> (r: u32)
    ensures
        r == x << 10u32,
{
    x << 10u32
}

/// DW1 bit telling that the pad is owned by the GPIO driver.
pub const PAD_CFG_OWN_GPIO_DRIVER: u32 = 0x10;
pub const PAD_CFG0_PREGFRXSEL: u32 = 0x100_0000;
pub const PAD_CFG0_NAFVWE_ENABLE: u32 = 0x800_0000;

/// DW0 of a general-purpose output driving `val`, reset by the deep
/// domain, with interrupts off and the receive buffer disabled.
pub open spec fn spec_gpo_deep_dw0(val: u32) -> u32 {
    0x4000_0000u32 | 0x0400_0000u32 | 0x200u32 | val
}

/// General-purpose output on `pad`, deep reset, no pull.
pub fn pad_cfg_gpo_deep(pad: u32, val: u32) -> (c: PadConfig)
    ensures
        c.pad == pad,
        c.pad_config@ == seq![spec_gpo_deep_dw0(val), 0u32, 0u32, 0u32],
        c.lock_action == crate::intel::common::block::gpio::GpioLockAction::Unlock,
{
    assert(0u32 | 0x4000_0000u32 | 0x0400_0000u32 | 0x200u32 | val == 0x4000_0000u32
        | 0x0400_0000u32 | 0x200u32 | val && 0u32 | 0u32 == 0u32) by (bit_vector);
    PadConfig::create(
        pad,
        PadCfg0Mode::Gpio.bits() | PadCfg0LogicalReset::Deep.bits() | PadCfg0Trig::Off.bits()
            | PadCfg0Buf::RxDisable.bits() | val,
        PadCfg1Pull::NoPull.bits() | PadCfg1Iosstate::TxLastRxE.bits(),
    )
}

} // verus!
