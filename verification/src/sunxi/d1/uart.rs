//! Uart peripheral on BT0 stage
use vstd::prelude::*;
use crate::mmio::{Mmio, RegState, st_write, st_rmw, reg_value};
use crate::sunxi::d1::ccu::{Clocks, Gating, Reset, Uart0, st_set_bit, st_clear_bit};
use crate::sunxi::d1::gpio::{Pin, Function};
use crate::sunxi::d1::time::Bps;

verus! {

/// Base of UART0.
pub const UART0_BASE: u64 = 0x0250_0000;
/// Transmit holding register (receive buffer, divisor latch low).
pub const UART_THR: u64 = 0x00;
/// Interrupt enable register (divisor latch high).
pub const UART_IER: u64 = 0x04;
/// FIFO control register.
pub const UART_FCR: u64 = 0x08;
/// Line control register.
pub const UART_LCR: u64 = 0x0c;
/// Modem control register.
pub const UART_MCR: u64 = 0x10;
/// Status register.
pub const UART_USR: u64 = 0x7c;

/// D1 serial peripheral
pub struct Serial<UART: Instance, PINS> {
    pins: PINS,
    inner: UART,
}

#[derive(Clone, Copy, PartialEq, Eq, Structural, Debug)]
pub struct Config {
    pub baudrate: Bps,
    pub wordlength: WordLength,
    pub parity: Parity,
    pub stopbits: StopBits,
}

#[derive(Clone, Copy, PartialEq, Eq, Structural, Debug)]
pub enum WordLength {
    Five,
    Six,
    Seven,
    Eight,
}

#[derive(Clone, Copy, PartialEq, Eq, Structural, Debug)]
pub enum Parity {
    NoParity,
    Odd,
    Even,
}

/// Stop Bit configuration parameter for serial.
#[derive(Clone, Copy, PartialEq, Eq, Structural, Debug)]
pub enum StopBits {
    /// 1 stop bit
    One,
    /// 2 stop bits, or 1.5 bits when WordLength is Five
    Two,
}

/// A transfer that cannot go on now and should be tried again.
#[derive(Clone, Copy, PartialEq, Eq, Structural, Debug)]
pub enum NbError {
    WouldBlock,
}

/// A UART block and the clock and reset bits that feed it.
pub trait Instance: Gating + Reset {
    /// Base address of the register block.
    spec fn base() -> u64;

    fn base_addr() -> (b: u64)
        ensures
            b == Self::base(),
            b <= 0xffff_ffff,
    ;
}

impl Instance for Uart0 {
    open spec fn base() -> u64 {
        UART0_BASE
    }

    fn base_addr() -> (b: u64) {
        UART0_BASE
    }
}

/// Pin sets that can carry the signals of a UART.
pub trait Pins<UART> {}

// PB8 (tx) and PB9 (rx) in function 6
impl Pins<Uart0> for (Pin<Function<6>>, Pin<Function<6>>) {}

/// The baud rate divisor for a bus clock of `apb1` Hz, rounded to nearest.
pub open spec fn uart_divisor(apb1: u32, bps: u32) -> int {
    (apb1 + 8 * bps) / (16 * bps)
}

/// Whether the divisor can be computed in 32 bits.
pub open spec fn divisor_fits(apb1: u32, bps: u32) -> bool {
    &&& bps > 0
    &&& apb1 + 8 * bps <= u32::MAX
    &&& 16 * bps <= u32::MAX
}

/// Word length field of the line control register.
pub open spec fn dls_bits(w: WordLength) -> u32 {
    match w {
        WordLength::Five => 0,
        WordLength::Six => 1,
        WordLength::Seven => 2,
        WordLength::Eight => 3,
    }
}

/// Stop bit field of the line control register.
pub open spec fn stop_bits(s: StopBits) -> u32 {
    match s {
        StopBits::One => 0,
        StopBits::Two => 1,
    }
}

/// Parity enable and even parity select bits of the line control register.
pub open spec fn parity_bits(p: Parity) -> (u32, u32) {
    match p {
        Parity::NoParity => (0, 0),
        Parity::Odd => (1, 0),
        Parity::Even => (1, 1),
    }
}

/// Word length, stop bits, parity and break control (cleared) of the line
/// control register, in their positions.
pub open spec fn line_bits(c: Config) -> u32 {
    (dls_bits(c.wordlength) + stop_bits(c.stopbits) * 4 + parity_bits(c.parity).0 * 8
        + parity_bits(c.parity).1 * 16) as u32
}

/// FIFO control: FIFOs enabled and reset, DMA mode 0, TX trigger at half
/// full, RX trigger at two less than full.
pub const UART_FCR_INIT: u32 = 0xf7;

/// The register state after `Serial::new` with UART block `base`.
pub open spec fn serial_init_state(
    s: RegState,
    base: u64,
    bgr: u64,
    gate: u32,
    rst: u32,
    config: Config,
    apb1: u32,
) -> RegState {
    let d = uart_divisor(apb1, config.baudrate.0);
    let s1 = st_clear_bit(s, bgr, rst);
    let s2 = st_clear_bit(s1, bgr, gate);
    let s3 = st_set_bit(s2, bgr, rst);
    let s4 = st_set_bit(s3, bgr, gate);
    let s5 = st_write(s4, (base + UART_IER) as u64, 0);
    let s6 = st_rmw(s5, (base + UART_LCR) as u64, !0x80u32, 0x80);
    let s7 = st_write(s6, (base + UART_IER) as u64, ((d / 256) % 256) as u32);
    let s8 = st_write(s7, (base + UART_THR) as u64, (d % 256) as u32);
    let s9 = st_rmw(s8, (base + UART_LCR) as u64, !0x80u32, 0);
    let s10 = st_rmw(s9, (base + UART_LCR) as u64, !0x7fu32, line_bits(config));
    let s11 = st_write(s10, (base + UART_MCR) as u64, 0);
    st_write(s11, (base + UART_FCR) as u64, UART_FCR_INIT)
}

/// The two bytes of the baud rate divisor: (latch high, latch low).
pub fn divisor_latch(apb1: u32, bps: u32) -> (r: (u8, u8))
    requires
        divisor_fits(apb1, bps),
    ensures
        r.0 == (uart_divisor(apb1, bps) / 256) % 256,
        r.1 == uart_divisor(apb1, bps) % 256,
{
    let uart_clk = (apb1 + 8 * bps) / (16 * bps);
    let dlh = ((uart_clk >> 8) & 0xff) as u8;
    let dll = (uart_clk & 0xff) as u8;
    assert((uart_clk >> 8) & 0xff == (uart_clk / 256) % 256 && uart_clk & 0xff == uart_clk % 256)
        by (bit_vector);
    (dlh, dll)
}

/// Line control bits of a configuration.
pub fn line_control(config: Config) -> (r: u32)
    ensures
        r == line_bits(config),
        r < 0x40,
{
    let dls: u32 = match config.wordlength {
        WordLength::Five => 0,
        WordLength::Six => 1,
        WordLength::Seven => 2,
        WordLength::Eight => 3,
    };
    let stop: u32 = match config.stopbits {
        StopBits::One => 0,
        StopBits::Two => 1,
    };
    let (pen, eps): (u32, u32) = match config.parity {
        Parity::NoParity => (0, 0),
        Parity::Odd => (1, 0),
        Parity::Even => (1, 1),
    };
    dls + stop * 4 + pen * 8 + eps * 16
}

impl<UART: Instance, PINS: Pins<UART>> Serial<UART, PINS> {
    /// Create instance of Uart
    pub fn new(uart: UART, pins: PINS, config: Config, clock: &Clocks, bus: &mut Mmio) -> (r: Self)
        requires
            divisor_fits(clock.apb1.0, config.baudrate.0),
            UART::bgr() == UART::reset_reg(),
        ensures
            final(bus).state() == serial_init_state(
                old(bus).state(),
                UART::base(),
                UART::bgr(),
                UART::gating_bit(),
                UART::reset_bit(),
                config,
                clock.apb1.0,
            ),
            r.pins() == pins,
            r.inner() == uart,
    {
        let base = UART::base_addr();
        // 1. init peripheral clocks
        UART::assert_reset(bus);
        UART::gating_mask(bus);
        UART::deassert_reset(bus);
        UART::gating_pass(bus);
        // 2. on BT0 stage we disable all uart interrupts
        bus.write32(base + UART_IER, 0);
        // 3. calculate and set baudrate
        let (dlh, dll) = divisor_latch(clock.apb1.0, config.baudrate.0);
        bus.rmw32(base + UART_LCR, !0x80u32, 0x80);
        bus.write32(base + UART_IER, dlh as u32);
        bus.write32(base + UART_THR, dll as u32);
        bus.rmw32(base + UART_LCR, !0x80u32, 0);
        // 4. word length, stop bits, parity; break control off
        let lcr = line_control(config);
        bus.rmw32(base + UART_LCR, !0x7fu32, lcr);
        // 5. modem control: DTR and RTS deasserted, normal mode, no auto flow
        // control, UART function
        bus.write32(base + UART_MCR, 0);
        bus.write32(base + UART_FCR, UART_FCR_INIT);
        Serial { pins, inner: uart }
    }
}

impl<UART: Instance, PINS> Serial<UART, PINS> {
    pub closed spec fn pins(&self) -> PINS {
        self.pins
    }

    pub closed spec fn inner(&self) -> UART {
        self.inner
    }

    /// Close uart and release peripheral: the UART is held in reset and its
    /// bus clock masked.
    pub fn free(self, bus: &mut Mmio) -> (r: (UART, PINS))
        ensures
            r.0 == self.inner(),
            r.1 == self.pins(),
            final(bus).state() == st_clear_bit(
                st_clear_bit(old(bus).state(), UART::reset_reg(), UART::reset_bit()),
                UART::bgr(),
                UART::gating_bit(),
            ),
    {
        UART::assert_reset(bus);
        UART::gating_mask(bus);
        (self.inner, self.pins)
    }

    /// Sends one byte, unless the transmit FIFO is full.
    pub fn write(&mut self, bus: &mut Mmio, word: u8) -> (r: Result<(), NbError>)
        ensures
            *final(self) == *old(self),
            old(bus).value((UART::base() + UART_USR) as u64) & 2 == 0 ==> {
                &&& r == Err::<(), NbError>(NbError::WouldBlock)
                &&& final(bus).state() == old(bus).state()
            },
            old(bus).value((UART::base() + UART_USR) as u64) & 2 != 0 ==> {
                &&& r == Ok::<(), NbError>(())
                &&& final(bus).state() == st_write(old(bus).state(), (UART::base() + UART_THR) as u64, word as u32)
            },
    {
        let base = UART::base_addr();
        let usr = bus.read32(base + UART_USR);
        if usr & 2 == 0 {
            return Err(NbError::WouldBlock);
        }
        bus.write32(base + UART_THR, word as u32);
        Ok(())
    }

    /// Done once the transmit FIFO is empty.
    pub fn flush(&mut self, bus: &Mmio) -> (r: Result<(), NbError>)
        ensures
            *final(self) == *old(self),
            r is Ok <==> bus.value((UART::base() + UART_USR) as u64) & 4 != 0,
    {
        let base = UART::base_addr();
        let usr = bus.read32(base + UART_USR);
        if usr & 4 != 0 {
            Ok(())
        } else {
            Err(NbError::WouldBlock)
        }
    }
}

/// The divisor rounds to nearest: the baud rate that it gives,
/// `apb1 / (16 * divisor)`, is off by at most half a divisor step, that is
/// `16 * bps * divisor` is within `8 * bps` of `apb1` (ties round up).
pub proof fn lemma_divisor_nearest(apb1: u32, bps: u32)
    requires
        bps > 0,
    ensures
        -8 * bps <= apb1 - 16 * bps * uart_divisor(apb1, bps) < 8 * bps,
{
    let b = 16 * bps as int;
    let x = apb1 + 8 * bps as int;
    let d = x / b;
    assert(b * d <= x < b * d + b) by (nonlinear_arith)
        requires
            b > 0,
            d == x / b,
    ;
    assert(uart_divisor(apb1, bps) == d);
}

} // verus!
