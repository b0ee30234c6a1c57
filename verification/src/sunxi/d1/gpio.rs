//! D1 general purpose input-output pins.
//!
//! A pin is named by its port letter `P` (as an ASCII byte) and its number
//! `N`; its mode is tracked in the type.  The pin's registers live in the
//! `Mmio` model of the GPIO block.
use vstd::prelude::*;
use core::marker::PhantomData;
use crate::mmio::{Mmio, RegState, st_write, reg_value};

verus! {

/// Base of the GPIO register block.
pub const GPIO_BASE: u64 = 0x0200_0000;

/// Input mode (type state)
pub struct Input;

/// Output mode (type state)
pub struct Output;

/// Alternate function `N` (type state); N should be in 2..=8.
pub struct Function<const N: u8>;

/// External interrupt mode (type state)
pub struct Eint;

/// Disabled mode (type state)
pub struct Disabled;

/// A pin mode and its value in the pin's configuration field.
pub trait PinMode {
    spec fn spec_value() -> u8;

    fn value() -> (v: u8)
        ensures
            v == Self::spec_value(),
            v < 16,
    ;
}

impl PinMode for Input {
    open spec fn spec_value() -> u8 {
        0
    }

    fn value() -> (v: u8) {
        0
    }
}

impl PinMode for Output {
    open spec fn spec_value() -> u8 {
        1
    }

    fn value() -> (v: u8) {
        1
    }
}

impl PinMode for Eint {
    open spec fn spec_value() -> u8 {
        14
    }

    fn value() -> (v: u8) {
        14
    }
}

impl PinMode for Disabled {
    open spec fn spec_value() -> u8 {
        15
    }

    fn value() -> (v: u8) {
        15
    }
}

/// Port offset of port letter `p` within the GPIO block.
pub open spec fn port_offset(p: u8) -> int {
    (p - 65) * 0x30
}

/// Configuration register of pin `n` of port `p` (eight pins per register).
pub open spec fn cfg_reg(p: u8, n: u8) -> u64 {
    (GPIO_BASE + port_offset(p) + (n / 8) * 4) as u64
}

/// Data register of port `p`.
pub open spec fn data_reg(p: u8) -> u64 {
    (GPIO_BASE + port_offset(p) + 0x10) as u64
}

/// Pull register of pin `n` of port `p` (sixteen pins per register).
pub open spec fn pull_reg(p: u8, n: u8) -> u64 {
    (GPIO_BASE + port_offset(p) + 0x24 + (n / 16) * 4) as u64
}

/// Port letters A..G and pin numbers below 32.
pub open spec fn valid_pin(p: u8, n: u8) -> bool {
    65 <= p <= 71 && n < 32
}

/// The configuration word with pin `n`'s 4-bit field replaced by `mode`.
pub open spec fn with_mode(word: u32, n: u8, mode: u8) -> u32 {
    let idx = ((n % 8) * 4) as u32;
    (word & !(0xFu32 << idx)) | ((mode as u32) << idx)
}

/// After a mode change, the pin's 4-bit configuration field holds exactly
/// the new mode, and every other bit of the configuration register keeps
/// its value.
pub proof fn lemma_mode_field(word: u32, n: u8, mode: u8)
    requires
        mode < 16,
    ensures
        (with_mode(word, n, mode) >> (((n % 8) * 4) as u32)) & 0xF == mode as u32,
        forall|i: u32|
            i < 32 && (i < ((n % 8) * 4) as u32 || i >= ((n % 8) * 4 + 4) as u32) ==> (#[trigger] (with_mode(word, n, mode) >> i)) & 1
                == (word >> i) & 1,
{
    let idx = ((n % 8) * 4) as u32;
    let m = mode as u32;
    assert(idx <= 28);
    assert(idx <= 28 && m < 16 ==> (((word & !(0xFu32 << idx)) | (m << idx)) >> idx) & 0xF == m
        && (forall|i: u32|
            i < 32 && (i < idx || i >= idx + 4) ==> #[trigger] ((((word & !(0xFu32 << idx)) | (m << idx)) >> i) & 1) == (word >> i) & 1))
        by (bit_vector);
    assert forall|i: u32|
        i < 32 && (i < idx || i >= (idx + 4) as u32) implies (#[trigger] (with_mode(word, n, mode) >> i)) & 1 == (word >> i) & 1 by {
        assert(((((word & !(0xFu32 << idx)) | (m << idx)) >> i) & 1) == (word >> i) & 1);
    }
}

/// The pull register word with pin `n`'s 2-bit pull field replaced by
/// `bits` (`0b00` none, `0b01` pull-up, `0b10` pull-down).
pub open spec fn with_pull(word: u32, n: u8, bits: u32) -> u32 {
    let idx = ((n % 16) * 2) as u32;
    (word & !(3u32 << idx)) | (bits << idx)
}

/// After a pull setting, the pin's two pull bits hold exactly the new
/// setting, and every other bit of the pull register keeps its value.
pub proof fn lemma_pull_field(word: u32, n: u8, bits: u32)
    requires
        bits < 4,
    ensures
        (with_pull(word, n, bits) >> (((n % 16) * 2) as u32)) & 3 == bits,
        forall|i: u32|
            i < 32 && i != ((n % 16) * 2) as u32 && i != ((n % 16) * 2 + 1) as u32 ==> (#[trigger] (with_pull(word, n, bits) >> i)) & 1 == (word >> i) & 1,
{
    let idx = ((n % 16) * 2) as u32;
    assert(idx <= 30);
    assert(idx <= 30 && bits < 4 ==> {
        &&& (((word & !(3u32 << idx)) | (bits << idx)) >> idx) & 3 == bits
        &&& forall|i: u32|
            i < 32 && i != idx && i != idx + 1 ==> #[trigger] ((((word & !(3u32 << idx)) | (bits << idx)) >> i) & 1) == (word >> i) & 1
    }) by (bit_vector);
    assert forall|i: u32|
        i < 32 && i != idx && i != (idx + 1) as u32 implies (#[trigger] (with_pull(word, n, bits) >> i)) & 1 == (word >> i) & 1 by {
        assert(((((word & !(3u32 << idx)) | (bits << idx)) >> i) & 1) == (word >> i) & 1);
    }
}

/// Individual GPIO pin: port letter `port` (ASCII) and pin number `num`,
/// with its mode in the type.
pub struct Pin<MODE> {
    port: u8,
    num: u8,
    _mode: PhantomData<MODE>,
}

impl<MODE> Pin<MODE> {
    pub closed spec fn port(&self) -> u8 {
        self.port
    }

    pub closed spec fn num(&self) -> u8 {
        self.num
    }

    pub open spec fn valid(&self) -> bool {
        valid_pin(self.port(), self.num())
    }

    fn with_mode<M>(&self) -> (r: Pin<M>)
        ensures
            r.port() == self.port(),
            r.num() == self.num(),
    {
        Pin { port: self.port, num: self.num, _mode: PhantomData }
    }

    fn cfg_addr(&self) -> (a: u64)
        requires
            self.valid(),
        ensures
            a == cfg_reg(self.port(), self.num()),
    {
        GPIO_BASE + ((self.port - 65) as u64) * 0x30 + ((self.num / 8) as u64) * 4
    }

    fn data_addr(&self) -> (a: u64)
        requires
            self.valid(),
        ensures
            a == data_reg(self.port()),
    {
        GPIO_BASE + ((self.port - 65) as u64) * 0x30 + 0x10
    }

    fn pull_addr(&self) -> (a: u64)
        requires
            self.valid(),
        ensures
            a == pull_reg(self.port(), self.num()),
    {
        GPIO_BASE + ((self.port - 65) as u64) * 0x30 + 0x24 + ((self.num / 16) as u64) * 4
    }

    /// Writes mode value `mode` into the pin's configuration field.
    fn set_mode(&mut self, gpio: &mut Mmio, mode: u8)
        requires
            old(self).valid(),
            mode < 16,
        ensures
            final(gpio).state() == st_write(
                old(gpio).state(),
                cfg_reg(old(self).port(), old(self).num()),
                with_mode(old(gpio).value(cfg_reg(old(self).port(), old(self).num())), old(self).num(), mode),
            ),
            *final(self) == *old(self),
    {
        let a = self.cfg_addr();
        let n = self.num;
        let idx: u32 = ((n & 0x7) as u32) << 2u32;
        assert(idx == ((n % 8) * 4) as u32) by (bit_vector)
            requires
                idx == ((n & 0x7) as u32) << 2u32,
        ;
        let mut new_cfg = gpio.read32(a);
        new_cfg = new_cfg & !(0xFu32 << idx);
        new_cfg = new_cfg | ((mode as u32) << idx);
        gpio.write32(a, new_cfg);
    }

    fn into_mode<M: PinMode>(self, gpio: &mut Mmio) -> (r: Pin<M>)
        requires
            self.valid(),
        ensures
            final(gpio).state() == st_write(
                old(gpio).state(),
                cfg_reg(self.port(), self.num()),
                with_mode(old(gpio).value(cfg_reg(self.port(), self.num())), self.num(), M::spec_value()),
            ),
            r.port() == self.port(),
            r.num() == self.num(),
    {
        let mut s = self;
        s.set_mode(gpio, M::value());
        s.with_mode()
    }

    /// Disables the pin
    pub fn into_disabled(self, gpio: &mut Mmio) -> (r: Pin<Disabled>)
        requires
            self.valid(),
        ensures
            final(gpio).state() == st_write(
                old(gpio).state(),
                cfg_reg(self.port(), self.num()),
                with_mode(old(gpio).value(cfg_reg(self.port(), self.num())), self.num(), 15),
            ),
            r.port() == self.port(),
            r.num() == self.num(),
    {
        self.into_mode(gpio)
    }

    /// Configures the pin to operate as an input pin
    pub fn into_input(self, gpio: &mut Mmio) -> (r: Pin<Input>)
        requires
            self.valid(),
        ensures
            final(gpio).state() == st_write(
                old(gpio).state(),
                cfg_reg(self.port(), self.num()),
                with_mode(old(gpio).value(cfg_reg(self.port(), self.num())), self.num(), 0),
            ),
            r.port() == self.port(),
            r.num() == self.num(),
    {
        self.into_mode(gpio)
    }

    /// Configures the pin to operate as an output pin
    pub fn into_output(self, gpio: &mut Mmio) -> (r: Pin<Output>)
        requires
            self.valid(),
        ensures
            final(gpio).state() == st_write(
                old(gpio).state(),
                cfg_reg(self.port(), self.num()),
                with_mode(old(gpio).value(cfg_reg(self.port(), self.num())), self.num(), 1),
            ),
            r.port() == self.port(),
            r.num() == self.num(),
    {
        self.into_mode(gpio)
    }

    /// Configures the pin to operate as an external interrupt
    pub fn into_external_interrupt(self, gpio: &mut Mmio) -> (r: Pin<Eint>)
        requires
            self.valid(),
        ensures
            final(gpio).state() == st_write(
                old(gpio).state(),
                cfg_reg(self.port(), self.num()),
                with_mode(old(gpio).value(cfg_reg(self.port(), self.num())), self.num(), 14),
            ),
            r.port() == self.port(),
            r.num() == self.num(),
    {
        self.into_mode(gpio)
    }

    /// Configures the pin to operate as alternate function `F` (2..=8).
    pub fn into_function<const F: u8>(self, gpio: &mut Mmio) -> (r: Pin<Function<F>>)
        requires
            self.valid(),
            2 <= F <= 8,
        ensures
            final(gpio).state() == st_write(
                old(gpio).state(),
                cfg_reg(self.port(), self.num()),
                with_mode(old(gpio).value(cfg_reg(self.port(), self.num())), self.num(), F),
            ),
            r.port() == self.port(),
            r.num() == self.num(),
    {
        let mut s = self;
        s.set_mode(gpio, F);
        s.with_mode()
    }

    /// Sets the pin's two pull bits to `bits`, keeping the rest of the
    /// pull register.
    fn set_pull(&mut self, gpio: &mut Mmio, bits: u32)
        requires
            old(self).valid(),
            bits < 4,
        ensures
            final(gpio).state() == st_write(
                old(gpio).state(),
                pull_reg(old(self).port(), old(self).num()),
                with_pull(old(gpio).value(pull_reg(old(self).port(), old(self).num())), old(self).num(), bits),
            ),
            *final(self) == *old(self),
    {
        let a = self.pull_addr();
        let n = self.num;
        let idx: u32 = ((n & 0xF) as u32) << 1u32;
        assert(idx == ((n % 16) * 2) as u32) by (bit_vector)
            requires
                idx == ((n & 0xF) as u32) << 1u32,
        ;
        let mut val = gpio.read32(a);
        val = val & !(0b11u32 << idx);
        val = val | (bits << idx);
        gpio.write32(a, val);
    }

    /// Enable internal pull-up
    pub fn set_pull_up(&mut self, gpio: &mut Mmio)
        requires
            old(self).valid(),
        ensures
            final(gpio).state() == st_write(
                old(gpio).state(),
                pull_reg(old(self).port(), old(self).num()),
                with_pull(old(gpio).value(pull_reg(old(self).port(), old(self).num())), old(self).num(), 0b01),
            ),
            *final(self) == *old(self),
    {
        self.set_pull(gpio, 0b01);
    }

    /// Enable internal pull-down
    pub fn set_pull_down(&mut self, gpio: &mut Mmio)
        requires
            old(self).valid(),
        ensures
            final(gpio).state() == st_write(
                old(gpio).state(),
                pull_reg(old(self).port(), old(self).num()),
                with_pull(old(gpio).value(pull_reg(old(self).port(), old(self).num())), old(self).num(), 0b10),
            ),
            *final(self) == *old(self),
    {
        self.set_pull(gpio, 0b10);
    }

    /// Disable internal pulls
    pub fn set_pull_none(&mut self, gpio: &mut Mmio)
        requires
            old(self).valid(),
        ensures
            final(gpio).state() == st_write(
                old(gpio).state(),
                pull_reg(old(self).port(), old(self).num()),
                with_pull(old(gpio).value(pull_reg(old(self).port(), old(self).num())), old(self).num(), 0b00),
            ),
            *final(self) == *old(self),
    {
        self.set_pull(gpio, 0b00);
    }
}

impl Pin<Input> {
    /// Whether the pin reads high.
    pub fn is_high(&self, gpio: &Mmio) -> (r: bool)
        requires
            self.valid(),
        ensures
            r == (gpio.value(data_reg(self.port())) & (1u32 << self.num() as u32) != 0),
    {
        gpio.read32(self.data_addr()) & (1u32 << self.num as u32) != 0
    }

    /// Whether the pin reads low.
    pub fn is_low(&self, gpio: &Mmio) -> (r: bool)
        requires
            self.valid(),
        ensures
            r == (gpio.value(data_reg(self.port())) & (1u32 << self.num() as u32) == 0),
    {
        gpio.read32(self.data_addr()) & (1u32 << self.num as u32) == 0
    }
}

impl Pin<Output> {
    /// Drives the pin low.
    pub fn set_low(&mut self, gpio: &mut Mmio)
        requires
            old(self).valid(),
        ensures
            final(gpio).state() == st_write(
                old(gpio).state(),
                data_reg(old(self).port()),
                old(gpio).value(data_reg(old(self).port())) & !(1u32 << old(self).num() as u32),
            ),
    {
        let a = self.data_addr();
        let mut new_data = gpio.read32(a);
        new_data = new_data & !(1u32 << self.num as u32);
        gpio.write32(a, new_data);
    }

    /// Drives the pin high.
    pub fn set_high(&mut self, gpio: &mut Mmio)
        requires
            old(self).valid(),
        ensures
            final(gpio).state() == st_write(
                old(gpio).state(),
                data_reg(old(self).port()),
                old(gpio).value(data_reg(old(self).port())) | (1u32 << old(self).num() as u32),
            ),
    {
        let a = self.data_addr();
        let mut new_data = gpio.read32(a);
        new_data = new_data | (1u32 << self.num as u32);
        gpio.write32(a, new_data);
    }

    /// Whether the pin is driven high.
    pub fn is_set_high(&self, gpio: &Mmio) -> (r: bool)
        requires
            self.valid(),
        ensures
            r == (gpio.value(data_reg(self.port())) & (1u32 << self.num() as u32) != 0),
    {
        gpio.read32(self.data_addr()) & (1u32 << self.num as u32) != 0
    }

    /// Whether the pin is driven low.
    pub fn is_set_low(&self, gpio: &Mmio) -> (r: bool)
        requires
            self.valid(),
        ensures
            r == (gpio.value(data_reg(self.port())) & (1u32 << self.num() as u32) == 0),
    {
        gpio.read32(self.data_addr()) & (1u32 << self.num as u32) == 0
    }
}

/// A pin of a GPIO block that has not handed it out yet; pins come out of
/// reset disabled.
pub fn take_pin(port: u8, num: u8) -> (r: Pin<Disabled>)
    requires
        valid_pin(port, num),
    ensures
        r.port() == port,
        r.num() == num,
        r.valid(),
{
    Pin { port, num, _mode: PhantomData }
}


/// Driving a pin high makes it read as driven high, driving it low makes it
/// read as driven low, and either leaves the other pins of the port as
/// they were.
pub proof fn lemma_set_then_read(s: RegState, port: u8, num: u8, other: u8)
    requires
        valid_pin(port, num),
        valid_pin(port, other),
        num != other,
    ensures
        ({
            let a = data_reg(port);
            let v = reg_value(s.0, a);
            let hi = st_write(s, a, v | (1u32 << num as u32));
            let lo = st_write(s, a, v & !(1u32 << num as u32));
            &&& reg_value(hi.0, a) & (1u32 << num as u32) != 0
            &&& reg_value(lo.0, a) & (1u32 << num as u32) == 0
            &&& (reg_value(hi.0, a) & (1u32 << other as u32)) == (v & (1u32 << other as u32))
            &&& (reg_value(lo.0, a) & (1u32 << other as u32)) == (v & (1u32 << other as u32))
        }),
{
    let a = data_reg(port);
    let v = reg_value(s.0, a);
    let n = num as u32;
    let o = other as u32;
    assert(n < 32 && o < 32 && n != o ==> {
        &&& (v | (1u32 << n)) & (1u32 << n) != 0
        &&& (v & !(1u32 << n)) & (1u32 << n) == 0
        &&& (v | (1u32 << n)) & (1u32 << o) == v & (1u32 << o)
        &&& (v & !(1u32 << n)) & (1u32 << o) == v & (1u32 << o)
    }) by (bit_vector);
}

} // verus!
