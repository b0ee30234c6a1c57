use soc::mmio::{Mmio, RegOp};
use soc::sunxi::d1::ccu::{Clocks, Spi0, Uart0, UART_BGR};
use soc::sunxi::d1::clint::{msip, mtimecmp};
use soc::sunxi::d1::gpio::{take_pin, GPIO_BASE};
use soc::sunxi::d1::jtag::Jtag;
use soc::sunxi::d1::spi::{
    clock_factors, transfer_control, FactorN, Mode, Phase, Polarity, Spi, SpiTransfer, XferAction,
    SPI0_BASE,
};
use soc::sunxi::d1::time::Hz;
use soc::sunxi::d1::uart::{
    divisor_latch, line_control, Config, NbError, Parity, Serial, StopBits, WordLength,
    UART0_BASE,
};
use soc::sunxi::d1::time::Bps;

/// The 32-bit writes made to `m`, as (address, value).
fn writes(m: &Mmio) -> Vec<(u64, u32)> {
    (0..m.write_count())
        .map(|i| {
            let w = m.write_at(i);
            assert_eq!(w.width, 4);
            (w.addr, w.value as u32)
        })
        .collect()
}

#[test]
fn uart_divisor_rounds_to_nearest() {
    // 24 MHz / (16 * 115200) = 13.02
    assert_eq!(divisor_latch(24_000_000, 115_200), (0, 13));
    // 100 MHz / (16 * 9600) = 651.04 -> 0x28b
    assert_eq!(divisor_latch(100_000_000, 9_600), (2, 0x8b));
    // a tie rounds up: 24 / 16 = 1.5 -> 2
    assert_eq!(divisor_latch(24, 1), (0, 2));
}

#[test]
fn uart_line_control_bits() {
    let c = |w, p, s| Config { baudrate: Bps(115_200), wordlength: w, parity: p, stopbits: s };
    assert_eq!(line_control(c(WordLength::Eight, Parity::NoParity, StopBits::One)), 3);
    assert_eq!(line_control(c(WordLength::Five, Parity::Odd, StopBits::One)), 8);
    assert_eq!(line_control(c(WordLength::Seven, Parity::Even, StopBits::Two)), 2 + 4 + 8 + 16);
}

#[test]
fn uart_new_programs_clock_divisor_and_line() {
    let mut gpio = Mmio::new();
    let tx = take_pin(b'B', 8).into_function::<6>(&mut gpio);
    let rx = take_pin(b'B', 9).into_function::<6>(&mut gpio);
    let mut bus = Mmio::new();
    let clocks = Clocks { psi: Hz(600_000_000), apb1: Hz(24_000_000) };
    let config = Config {
        baudrate: Bps(115_200),
        wordlength: WordLength::Eight,
        parity: Parity::NoParity,
        stopbits: StopBits::One,
    };
    let serial = Serial::new(Uart0, (tx, rx), config, &clocks, &mut bus);
    let w = writes(&bus);
    assert_eq!(
        w,
        vec![
            (UART_BGR, 0),
            (UART_BGR, 0),
            (UART_BGR, 0x1_0000),
            (UART_BGR, 0x1_0001),
            (UART0_BASE + 0x04, 0),
            (UART0_BASE + 0x0c, 0x80),
            (UART0_BASE + 0x04, 0),
            (UART0_BASE + 0x00, 13),
            (UART0_BASE + 0x0c, 0),
            (UART0_BASE + 0x0c, 3),
            (UART0_BASE + 0x10, 0),
            (UART0_BASE + 0x08, 0xf7),
        ]
    );
    let _ = serial.free(&mut bus);
    assert_eq!(bus.read32(UART_BGR), 0);
}

#[test]
fn uart_write_and_flush_follow_the_status_register() {
    let mut gpio = Mmio::new();
    let tx = take_pin(b'B', 8).into_function::<6>(&mut gpio);
    let rx = take_pin(b'B', 9).into_function::<6>(&mut gpio);
    let mut bus = Mmio::new();
    let clocks = Clocks { psi: Hz(600_000_000), apb1: Hz(24_000_000) };
    let config = Config {
        baudrate: Bps(115_200),
        wordlength: WordLength::Eight,
        parity: Parity::NoParity,
        stopbits: StopBits::One,
    };
    let mut serial = Serial::new(Uart0, (tx, rx), config, &clocks, &mut bus);
    // transmit FIFO full
    bus.load32(UART0_BASE + 0x7c, 0);
    let before = bus.write_count();
    assert_eq!(serial.write(&mut bus, b'x'), Err(NbError::WouldBlock));
    assert_eq!(bus.write_count(), before);
    assert_eq!(serial.flush(&bus), Err(NbError::WouldBlock));
    // not full, and empty
    bus.load32(UART0_BASE + 0x7c, 0x6);
    assert_eq!(serial.write(&mut bus, b'x'), Ok(()));
    assert_eq!(writes(&bus).last(), Some(&(UART0_BASE, b'x' as u32)));
    assert_eq!(serial.flush(&bus), Ok(()));
}

#[test]
fn spi_clock_factors_pick_nearest_first() {
    // 600 MHz / (8 * 3) = 25 MHz exactly; N8 with M = 3 comes first
    assert_eq!(clock_factors(Hz(25_000_000), Hz(600_000_000)), (FactorN::N8, 2));
    // the slowest clock is the nearest to a low target
    assert_eq!(clock_factors(Hz(100_000), Hz(24_000_000)), (FactorN::N8, 15));
    // the undivided clock
    assert_eq!(clock_factors(Hz(24_000_000), Hz(24_000_000)), (FactorN::N1, 0));
    // 12 MHz: N2 with M = 1 comes before N1 with M = 2
    assert_eq!(clock_factors(Hz(12_000_000), Hz(24_000_000)), (FactorN::N2, 0));
}

#[test]
fn spi_mode_maps_to_polarity_and_phase_bits() {
    let m = |p, ph| Mode { polarity: p, phase: ph };
    assert_eq!(transfer_control(m(Polarity::IdleLow, Phase::CaptureOnFirstTransition)), 4);
    assert_eq!(transfer_control(m(Polarity::IdleLow, Phase::CaptureOnSecondTransition)), 5);
    assert_eq!(transfer_control(m(Polarity::IdleHigh, Phase::CaptureOnFirstTransition)), 6);
    assert_eq!(transfer_control(m(Polarity::IdleHigh, Phase::CaptureOnSecondTransition)), 7);
}

#[test]
fn spi_new_and_transfer_programs() {
    let mut gpio = Mmio::new();
    let pins = (
        take_pin(b'C', 2).into_function::<2>(&mut gpio),
        take_pin(b'C', 3).into_function::<2>(&mut gpio),
        take_pin(b'C', 4).into_function::<2>(&mut gpio),
        take_pin(b'C', 5).into_function::<2>(&mut gpio),
    );
    let clocks = Clocks { psi: Hz(600_000_000), apb1: Hz(24_000_000) };
    let mode = Mode { polarity: Polarity::IdleHigh, phase: Phase::CaptureOnSecondTransition };
    let mut ops = Vec::new();
    let spi = Spi::new(Spi0, pins, mode, Hz(25_000_000), &clocks, &mut ops);
    assert_eq!(
        ops,
        vec![
            RegOp::Write { addr: 0x0200_1940, value: 0x8100_0302 },
            RegOp::Write { addr: 0x0200_196c, value: 0x0001_0001 },
            RegOp::Write { addr: SPI0_BASE + 0x04, value: 0x8000_0083 },
            RegOp::WaitClear { addr: SPI0_BASE + 0x04, mask: 0x8000_0000 },
            RegOp::Write { addr: SPI0_BASE + 0x18, value: 0x8000_8000 },
            RegOp::WaitClear { addr: SPI0_BASE + 0x18, mask: 0x8000_8000 },
            RegOp::Write { addr: SPI0_BASE + 0x08, value: 7 },
        ]
    );
    let mut ops = Vec::new();
    spi.transfer_setup(4, 17, 2, &mut ops);
    assert_eq!(
        ops,
        vec![
            RegOp::Write { addr: SPI0_BASE + 0x30, value: 23 },
            RegOp::Write { addr: SPI0_BASE + 0x34, value: 4 },
            RegOp::Write { addr: SPI0_BASE + 0x38, value: 4 | (1 << 24) },
            RegOp::Modify { addr: SPI0_BASE + 0x08, and_mask: 0xffff_ffff, or_mask: 0x8000_0000 },
        ]
    );
    let mut ccu = Mmio::new();
    ccu.load32(0x0200_196c, 0x0001_0001);
    let _ = spi.free(&mut ccu);
    assert_eq!(ccu.read32(0x0200_196c), 0);
}

#[test]
fn clint_timer_compare_is_written_low_word_first() {
    let mut bus = Mmio::new();
    mtimecmp::write(&mut bus, 0x1_0000_0002);
    assert_eq!(writes(&bus), vec![(0x0400_4000, 2), (0x0400_4004, 1)]);
}

#[test]
fn clint_software_interrupt_set_and_clear() {
    let mut bus = Mmio::new();
    msip::set_ipi(&mut bus, 0);
    msip::clear_ipi(&mut bus, 0);
    assert_eq!(writes(&bus), vec![(0x0400_0000, 1), (0x0400_0004, 0), (0x0400_0000, 0)]);
}

#[test]
fn gpio_pins_drive_and_read_back() {
    let mut gpio = Mmio::new();
    let mut pin = take_pin(b'C', 1).into_output(&mut gpio);
    // PC1's mode field is bits 7:4 of the first configuration register
    assert_eq!(gpio.read32(GPIO_BASE + 0x60), 0x10);
    pin.set_high(&mut gpio);
    assert!(pin.is_set_high(&gpio));
    assert_eq!(gpio.read32(GPIO_BASE + 0x70), 0b10);
    pin.set_low(&mut gpio);
    assert!(pin.is_set_low(&gpio));
}

#[test]
fn jtag_holds_and_releases_its_pins() {
    let mut gpio = Mmio::new();
    let pins = (
        take_pin(b'F', 0).into_function::<4>(&mut gpio),
        take_pin(b'F', 5).into_function::<4>(&mut gpio),
        take_pin(b'F', 1).into_function::<4>(&mut gpio),
        take_pin(b'F', 3).into_function::<4>(&mut gpio),
    );
    let jtag = Jtag::new(pins);
    let _pins = jtag.free();
}

#[test]
fn spi_fifo_transfer_steps() {
    let (mut t, a) = SpiTransfer::new(&[1, 2], 1, 2);
    assert_eq!(a, XferAction::ReadFsr);
    // TX FIFO full: ask again
    assert_eq!(t.step(64 << 16), XferAction::ReadFsr);
    assert_eq!(t.step(0), XferAction::WriteTx(1));
    assert_eq!(t.step(0), XferAction::ReadFsr);
    assert_eq!(t.step(63 << 16), XferAction::WriteTx(2));
    // three bytes to drop: two clocked in while sending, one dummy
    assert_eq!(t.step(0), XferAction::ReadFsr);
    assert_eq!(t.step(0), XferAction::ReadFsr);
    for _ in 0..3 {
        assert_eq!(t.step(1), XferAction::ReadRx);
        assert_eq!(t.step(0xaa), XferAction::ReadFsr);
    }
    assert_eq!(t.step(2), XferAction::ReadRx);
    assert_eq!(t.step(0x11), XferAction::ReadFsr);
    assert_eq!(t.step(1), XferAction::ReadRx);
    assert_eq!(t.step(0x122), XferAction::ReadTcr);
    assert_eq!(t.step(0), XferAction::Finish(true));
    assert_eq!(t.received(), &[0x11, 0x22]);
    assert_eq!(t.step(0), XferAction::Finish(true));

    let (mut t, a) = SpiTransfer::new(&[], 0, 0);
    assert_eq!(a, XferAction::ReadTcr);
    assert_eq!(t.step(0x8000_0000), XferAction::Finish(false));
}

#[test]
fn gpio_pull_setting_replaces_the_pin_field() {
    let mut gpio = Mmio::new();
    let pull = GPIO_BASE + 2 * 0x30 + 0x24;
    // pin C1 pulled down, other pins' pull bits set
    gpio.load32(pull, 0xf000_000b);
    let mut pin = take_pin(b'C', 1).into_input(&mut gpio);
    pin.set_pull_up(&mut gpio);
    assert_eq!(gpio.read32(pull), 0xf000_0007);
    pin.set_pull_none(&mut gpio);
    assert_eq!(gpio.read32(pull), 0xf000_0003);
    pin.set_pull_down(&mut gpio);
    assert_eq!(gpio.read32(pull), 0xf000_000b);
}
