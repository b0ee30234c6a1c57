//! Serial Peripheral Interface (SPI)
//!
//! Bringing the controller up and starting a transfer are register programs
//! (see `RegOp`): the platform layer carries them out on the bus, waiting
//! where the program says so.
use vstd::prelude::*;
use crate::mmio::{Mmio, RegOp};
use crate::sunxi::d1::ccu::{Clocks, Gating, Reset, Spi0, SPI0_CLK, SPI_BGR, st_clear_bit};
use crate::sunxi::d1::gpio::{Pin, Function};
use crate::sunxi::d1::time::Hz;

verus! {

/// Base of SPI0.
pub const SPI0_BASE: u64 = 0x0402_5000;
/// Global control register.
pub const SPI_GCR: u64 = 0x04;
/// Transfer control register.
pub const SPI_TCR: u64 = 0x08;
/// FIFO control register.
pub const SPI_FCR: u64 = 0x18;
/// FIFO status register.
pub const SPI_FSR: u64 = 0x1c;
/// Master burst counter register.
pub const SPI_MBC: u64 = 0x30;
/// Master transmit counter register.
pub const SPI_MTC: u64 = 0x34;
/// Master burst control register.
pub const SPI_BCC: u64 = 0x38;
/// TX data register.
pub const SPI_TXD: u64 = 0x200;
/// RX data register.
pub const SPI_RXD: u64 = 0x300;

/// Global control at start-up: soft reset, stop transmit when the RX FIFO
/// is full, master mode, enabled.
pub const SPI_GCR_INIT: u32 = 0x8000_0083;
/// Soft reset bit of the global control register.
pub const SPI_GCR_SRST: u32 = 0x8000_0000;
/// TX and RX FIFO reset bits of the FIFO control register.
pub const SPI_FCR_RESET: u32 = 0x8000_8000;
/// SPI bus gating reset word: SPI0 out of reset, bus clock passed.
pub const SPI_BGR_INIT: u32 = 0x0001_0001;
/// Start exchange bit of the transfer control register.
pub const SPI_TCR_XCH: u32 = 0x8000_0000;

/// Clock polarity
#[derive(Clone, Copy, PartialEq, Eq, Structural, Debug)]
pub enum Polarity {
    /// Clock signal low when idle
    IdleLow,
    /// Clock signal high when idle
    IdleHigh,
}

/// Clock phase
#[derive(Clone, Copy, PartialEq, Eq, Structural, Debug)]
pub enum Phase {
    /// Data in "captured" on the first clock transition
    CaptureOnFirstTransition,
    /// Data in "captured" on the second clock transition
    CaptureOnSecondTransition,
}

/// SPI mode
#[derive(Clone, Copy, PartialEq, Eq, Structural, Debug)]
pub struct Mode {
    pub polarity: Polarity,
    pub phase: Phase,
}

/// Pre-divider of the SPI module clock.
#[derive(Clone, Copy, PartialEq, Eq, Structural, Debug)]
pub enum FactorN {
    N1,
    N2,
    N4,
    N8,
}

impl FactorN {
    /// Field value in the SPI0 clock register.
    pub open spec fn spec_bits(self) -> u32 {
        match self {
            FactorN::N1 => 0,
            FactorN::N2 => 1,
            FactorN::N4 => 2,
            FactorN::N8 => 3,
        }
    }

    /// The divisor it stands for.
    pub open spec fn divisor(self) -> u32 {
        match self {
            FactorN::N1 => 1,
            FactorN::N2 => 2,
            FactorN::N4 => 4,
            FactorN::N8 => 8,
        }
    }

    pub fn bits(self) -> (r: u32)
        ensures
            r == self.spec_bits(),
    {
        match self {
            FactorN::N1 => 0,
            FactorN::N2 => 1,
            FactorN::N4 => 2,
            FactorN::N8 => 3,
        }
    }
}

/// The pre-divider of the `c`-th candidate of the search: the search
/// tries M = 1 ..= 16 and, for each, N = 1, 2, 4, 8.
pub open spec fn cand_n(c: int) -> u32 {
    let j = c % 4;
    if j == 0 {
        1
    } else if j == 1 {
        2
    } else if j == 2 {
        4
    } else {
        8
    }
}

/// The divider M of the `c`-th candidate.
pub open spec fn cand_m(c: int) -> u32 {
    (c / 4 + 1) as u32
}

pub open spec fn abs_diff(a: int, b: int) -> int {
    if a >= b {
        a - b
    } else {
        b - a
    }
}

/// How far the clock of the `c`-th candidate is from `freq`.
pub open spec fn cand_err(psi: u32, freq: u32, c: int) -> int {
    abs_diff(((psi / cand_n(c)) / cand_m(c)) as int, freq as int)
}

/// Candidate `b` is the first, in search order, whose clock is nearest to
/// `freq`.
pub open spec fn is_best(psi: u32, freq: u32, b: int) -> bool {
    &&& 0 <= b < 64
    &&& forall|c: int| 0 <= c < 64 ==> cand_err(psi, freq, b) <= #[trigger] cand_err(psi, freq, c)
    &&& forall|c: int| 0 <= c < b ==> cand_err(psi, freq, b) < #[trigger] cand_err(psi, freq, c)
}

/// Search position of the factors (N, M - 1).
pub open spec fn factor_index(n: FactorN, m: u8) -> int {
    m * 4 + n.spec_bits()
}

/// Divider factors (N, M - 1) that bring the `psi` clock nearest to `freq`;
/// among equally near ones, the first in search order.
pub fn clock_factors(freq: Hz, psi: Hz) -> (r: (FactorN, u8))
    requires
        psi.0 > 0,
        freq.0 < 2 * psi.0,
    ensures
        r.1 < 16,
        is_best(psi.0, freq.0, factor_index(r.0, r.1)),
{
    let (f, p) = (freq.0, psi.0);
    let mut err: u32 = p;
    let mut best: u32 = 64;
    let mut k: u32 = 0;
    while k < 64
        invariant
            k <= 64,
            best == 64 ==> err == p,
            best != 64 ==> best < k && err == cand_err(p, f, best as int)
                && forall|c: int| 0 <= c < best ==> err < #[trigger] cand_err(p, f, c),
            forall|c: int| 0 <= c < k ==> err <= #[trigger] cand_err(p, f, c),
        decreases 64 - k,
    {
        let j = k % 4;
        let n: u32 = if j == 0 {
            1
        } else if j == 1 {
            2
        } else if j == 2 {
            4
        } else {
            8
        };
        let m: u32 = k / 4 + 1;
        assert(n == cand_n(k as int));
        assert(m == cand_m(k as int));
        let actual = p / n / m;
        let d = if actual >= f {
            actual - f
        } else {
            f - actual
        };
        assert(d == cand_err(p, f, k as int));
        if d < err {
            err = d;
            best = k;
        }
        k = k + 1;
    }
    if best == 64 {
        assert(cand_n(0) == 1 && cand_m(0) == 1 && cand_n(1) == 2 && cand_m(1) == 1);
        assert(p / 1u32 / 1u32 == p);
        assert(p / 2u32 / 1u32 == p / 2);
        assert(err <= cand_err(p, f, 0));
        assert(err <= cand_err(p, f, 1));
        assert(false);
    }
    let factor_n = match best % 4 {
        0 => FactorN::N1,
        1 => FactorN::N2,
        2 => FactorN::N4,
        _ => FactorN::N8,
    };
    let factor_m = (best / 4) as u8;
    (factor_n, factor_m)
}

/// The best divider factors are unique.
pub proof fn lemma_best_unique(psi: u32, freq: u32, b1: int, b2: int)
    requires
        is_best(psi, freq, b1),
        is_best(psi, freq, b2),
    ensures
        b1 == b2,
{
    if b1 < b2 {
        assert(cand_err(psi, freq, b2) < cand_err(psi, freq, b1));
    } else if b2 < b1 {
        assert(cand_err(psi, freq, b1) < cand_err(psi, freq, b2));
    }
}

/// Clock polarity bit of the transfer control register: idle high is
/// written as 1.
pub open spec fn cpol_bit(p: Polarity) -> u32 {
    match p {
        Polarity::IdleHigh => 1,
        Polarity::IdleLow => 0,
    }
}

/// Clock phase bit of the transfer control register.
pub open spec fn cpha_bit(p: Phase) -> u32 {
    match p {
        Phase::CaptureOnFirstTransition => 0,
        Phase::CaptureOnSecondTransition => 1,
    }
}

/// Transfer control word: chip select owned by the controller, SS0, active
/// low, and the clock mode.
pub open spec fn tcr_word(mode: Mode) -> u32 {
    (4 + cpol_bit(mode.polarity) * 2 + cpha_bit(mode.phase)) as u32
}

/// SPI0 clock word: PLL_PERI(1X) source, dividers, clock on.
pub open spec fn spi0_clk_word(n: FactorN, m: u8) -> u32 {
    (0x8100_0000 + n.spec_bits() * 256 + m) as u32
}

pub fn transfer_control(mode: Mode) -> (r: u32)
    ensures
        r == tcr_word(mode),
{
    let cpol: u32 = match mode.polarity {
        Polarity::IdleHigh => 1,
        Polarity::IdleLow => 0,
    };
    let cpha: u32 = match mode.phase {
        Phase::CaptureOnFirstTransition => 0,
        Phase::CaptureOnSecondTransition => 1,
    };
    4 + cpol * 2 + cpha
}

/// The register program that brings an SPI block at `base` up.
pub open spec fn spi_init_program(base: u64, mode: Mode, n: FactorN, m: u8) -> Seq<RegOp> {
    seq![
        RegOp::Write { addr: SPI0_CLK, value: spi0_clk_word(n, m) },
        RegOp::Write { addr: SPI_BGR, value: SPI_BGR_INIT },
        RegOp::Write { addr: (base + SPI_GCR) as u64, value: SPI_GCR_INIT },
        RegOp::WaitClear { addr: (base + SPI_GCR) as u64, mask: SPI_GCR_SRST },
        RegOp::Write { addr: (base + SPI_FCR) as u64, value: SPI_FCR_RESET },
        RegOp::WaitClear { addr: (base + SPI_FCR) as u64, mask: SPI_FCR_RESET },
        RegOp::Write { addr: (base + SPI_TCR) as u64, value: tcr_word(mode) },
    ]
}

/// The register program that starts a transfer of `lx` bytes out, `ld`
/// dummy bytes and `lr` bytes in.
pub open spec fn spi_transfer_program(base: u64, lx: u32, ld: u32, lr: u32) -> Seq<RegOp> {
    seq![
        RegOp::Write { addr: (base + SPI_MBC) as u64, value: ((lx + ld + lr) as u32) & 0xff_ffff },
        RegOp::Write { addr: (base + SPI_MTC) as u64, value: lx & 0xff_ffff },
        RegOp::Write {
            addr: (base + SPI_BCC) as u64,
            value: (lx & 0xff_ffff) | (((ld & 0xf) as u32) << 24u32) as u32,
        },
        RegOp::Modify { addr: (base + SPI_TCR) as u64, and_mask: 0xffff_ffff, or_mask: SPI_TCR_XCH },
    ]
}

/// An SPI block and the clock and reset bits that feed it.
pub trait Instance: Gating + Reset {
    /// Base address of the register block.
    spec fn base() -> u64;

    fn base_addr() -> (b: u64)
        ensures
            b == Self::base(),
            b <= 0xffff_ffff,
    ;
}

impl Instance for Spi0 {
    open spec fn base() -> u64 {
        SPI0_BASE
    }

    fn base_addr() -> (b: u64) {
        SPI0_BASE
    }
}

/// Pin sets that can carry the signals of an SPI block.
pub trait Pins<SPI> {}

// parameter order: sck, scs, miso, mosi (PC2, PC3, PC4, PC5 in function 2)
impl Pins<Spi0> for (Pin<Function<2>>, Pin<Function<2>>, Pin<Function<2>>, Pin<Function<2>>) {}

/// D1 SPI peripheral
pub struct Spi<SPI: Instance, PINS> {
    inner: SPI,
    pins: PINS,
}

impl<SPI: Instance, PINS> Spi<SPI, PINS> {
    pub closed spec fn inner(&self) -> SPI {
        self.inner
    }

    pub closed spec fn pins(&self) -> PINS {
        self.pins
    }

    /// Create instance of Spi in CPU mode; the program that brings the block
    /// up is appended to `ops`.
    pub fn new(
        spi: SPI,
        pins: PINS,
        mode: Mode,
        freq: Hz,
        clocks: &Clocks,
        ops: &mut Vec<RegOp>,
    ) -> (r: Self)
        where
            PINS: Pins<SPI>,
        requires
            clocks.psi.0 > 0,
            freq.0 < 2 * clocks.psi.0,
        ensures
            r.inner() == spi,
            r.pins() == pins,
            exists|n: FactorN, m: u8|
                #![trigger spi_init_program(SPI::base(), mode, n, m)]
                {
                    &&& m < 16
                    &&& is_best(clocks.psi.0, freq.0, factor_index(n, m))
                    &&& final(ops)@ == old(ops)@ + spi_init_program(SPI::base(), mode, n, m)
                },
    {
        let base = SPI::base_addr();
        let (factor_n, factor_m) = clock_factors(freq, clocks.psi);
        let clk = 0x8100_0000u32 + factor_n.bits() * 256 + factor_m as u32;
        let tcr = transfer_control(mode);
        let ghost start = ops@;
        ops.push(RegOp::Write { addr: SPI0_CLK, value: clk });
        ops.push(RegOp::Write { addr: SPI_BGR, value: SPI_BGR_INIT });
        ops.push(RegOp::Write { addr: base + SPI_GCR, value: SPI_GCR_INIT });
        ops.push(RegOp::WaitClear { addr: base + SPI_GCR, mask: SPI_GCR_SRST });
        ops.push(RegOp::Write { addr: base + SPI_FCR, value: SPI_FCR_RESET });
        ops.push(RegOp::WaitClear { addr: base + SPI_FCR, mask: SPI_FCR_RESET });
        ops.push(RegOp::Write { addr: base + SPI_TCR, value: tcr });
        assert(ops@ == start + spi_init_program(SPI::base(), mode, factor_n, factor_m));
        Spi { inner: spi, pins }
    }

    /// Appends to `ops` the program that sets the transfer counters and
    /// starts the exchange of `lx` bytes out, `ld` dummy bytes and `lr`
    /// bytes in.  The bytes themselves go through the FIFO registers.
    pub fn transfer_setup(&self, lx: u32, ld: u32, lr: u32, ops: &mut Vec<RegOp>)
        requires
            lx + ld + lr <= u32::MAX,
        ensures
            final(ops)@ == old(ops)@ + spi_transfer_program(SPI::base(), lx, ld, lr),
    {
        let base = SPI::base_addr();
        let ghost start = ops@;
        ops.push(RegOp::Write { addr: base + SPI_MBC, value: (lx + ld + lr) & 0xff_ffff });
        ops.push(RegOp::Write { addr: base + SPI_MTC, value: lx & 0xff_ffff });
        ops.push(RegOp::Write { addr: base + SPI_BCC, value: (lx & 0xff_ffff) | ((ld & 0xf) << 24u32) });
        ops.push(RegOp::Modify { addr: base + SPI_TCR, and_mask: 0xffff_ffff, or_mask: SPI_TCR_XCH });
        assert(ops@ == start + spi_transfer_program(SPI::base(), lx, ld, lr));
    }

    /// Close and release peripheral: the block is held in reset and its bus
    /// clock masked.
    pub fn free(self, ccu: &mut Mmio) -> (r: (SPI, PINS))
        ensures
            r.0 == self.inner(),
            r.1 == self.pins(),
            final(ccu).state() == st_clear_bit(
                st_clear_bit(old(ccu).state(), SPI::reset_reg(), SPI::reset_bit()),
                SPI::bgr(),
                SPI::gating_bit(),
            ),
    {
        SPI::assert_reset(ccu);
        SPI::gating_mask(ccu);
        (self.inner, self.pins)
    }
}

/// Where a transfer through the FIFOs stands.
#[derive(Clone, Copy, Debug, PartialEq, Eq, Structural)]
pub enum XferPhase {
    /// FIFO status asked for, to send byte `i` once the TX FIFO has room.
    SendPoll(u32),
    /// Byte `i` written to the TX FIFO.
    SendWrote(u32),
    /// FIFO status asked for, to drop received byte `k`.
    SkipPoll(u32),
    /// Received byte `k` read, to be dropped.
    SkipRead(u32),
    /// FIFO status asked for, to keep received byte `j`.
    RecvPoll(u32),
    /// Received byte `j` read, to be kept.
    RecvRead(u32),
    /// Transfer control asked for, to see that the exchange ended.
    Check,
    /// Over; whether the exchange ended.
    Done(bool),
}

/// The bus access that a transfer asks for next.
#[derive(Clone, Copy, Debug, PartialEq, Eq, Structural)]
pub enum XferAction {
    /// Read the FIFO status register and hand its value to `step`.
    ReadFsr,
    /// Write the byte to the TX data register.
    WriteTx(u8),
    /// Read a byte from the RX data register and hand it to `step`.
    ReadRx,
    /// Read the transfer control register and hand its value to `step`.
    ReadTcr,
    /// The transfer is over; whether the controller reports the exchange as
    /// ended.
    Finish(bool),
}

/// The phase and action that start sending from byte `i` on, then dropping
/// `skip` bytes, then receiving `lr` bytes.
pub open spec fn begin_send(i: u32, lx: u32, skip: u32, lr: u32) -> (XferPhase, XferAction) {
    if i < lx {
        (XferPhase::SendPoll(i), XferAction::ReadFsr)
    } else {
        begin_skip(0, skip, lr)
    }
}

pub open spec fn begin_skip(k: u32, skip: u32, lr: u32) -> (XferPhase, XferAction) {
    if k < skip {
        (XferPhase::SkipPoll(k), XferAction::ReadFsr)
    } else {
        begin_recv(0, lr)
    }
}

pub open spec fn begin_recv(j: u32, lr: u32) -> (XferPhase, XferAction) {
    if j < lr {
        (XferPhase::RecvPoll(j), XferAction::ReadFsr)
    } else {
        (XferPhase::Check, XferAction::ReadTcr)
    }
}

/// Number of bytes in the TX FIFO.
pub open spec fn tx_count(fsr: u32) -> u32 {
    (fsr / 0x1_0000) % 256
}

/// Number of bytes in the RX FIFO.
pub open spec fn rx_count(fsr: u32) -> u32 {
    fsr % 256
}

/// One step of a transfer that sends `mosi`, drops `skip` received bytes
/// (those clocked in while sending and the dummy ones) and keeps `lr`:
/// the phase, the bytes kept, and the next action, given the value that
/// answers the previous read (ignored after a write).
pub open spec fn xfer_next(
    mosi: Seq<u8>,
    skip: u32,
    lr: u32,
    phase: XferPhase,
    kept: Seq<u8>,
    value: u32,
) -> (XferPhase, Seq<u8>, XferAction) {
    let lx = mosi.len() as u32;
    match phase {
        XferPhase::SendPoll(i) => if tx_count(value) >= 64 {
            (phase, kept, XferAction::ReadFsr)
        } else {
            (XferPhase::SendWrote(i), kept, XferAction::WriteTx(mosi[i as int]))
        },
        XferPhase::SendWrote(i) => {
            let (p, a) = begin_send((i + 1) as u32, lx, skip, lr);
            (p, kept, a)
        },
        XferPhase::SkipPoll(k) => if rx_count(value) == 0 {
            (phase, kept, XferAction::ReadFsr)
        } else {
            (XferPhase::SkipRead(k), kept, XferAction::ReadRx)
        },
        XferPhase::SkipRead(k) => {
            let (p, a) = begin_skip((k + 1) as u32, skip, lr);
            (p, kept, a)
        },
        XferPhase::RecvPoll(j) => if rx_count(value) == 0 {
            (phase, kept, XferAction::ReadFsr)
        } else {
            (XferPhase::RecvRead(j), kept, XferAction::ReadRx)
        },
        XferPhase::RecvRead(j) => {
            let (p, a) = begin_recv((j + 1) as u32, lr);
            (p, kept.push(value as u8), a)
        },
        XferPhase::Check => {
            let ended = value & 0x8000_0000 == 0;
            (XferPhase::Done(ended), kept, XferAction::Finish(ended))
        },
        XferPhase::Done(ended) => (phase, kept, XferAction::Finish(ended)),
    }
}

/// What the phase says of the bytes kept so far, and that the positions
/// stay in range.
pub open spec fn xfer_inv(lx: u32, skip: u32, lr: u32, phase: XferPhase, kept: Seq<u8>) -> bool {
    match phase {
        XferPhase::SendPoll(i) => i < lx && kept.len() == 0,
        XferPhase::SendWrote(i) => i < lx && kept.len() == 0,
        XferPhase::SkipPoll(k) => k < skip && kept.len() == 0,
        XferPhase::SkipRead(k) => k < skip && kept.len() == 0,
        XferPhase::RecvPoll(j) => j < lr && kept.len() == j,
        XferPhase::RecvRead(j) => j < lr && kept.len() == j,
        XferPhase::Check => kept.len() == lr,
        XferPhase::Done(_) => kept.len() == lr,
    }
}

/// Every step keeps the positions in range and the bytes kept in step with
/// the phase; so a transfer that is over has kept exactly `lr` bytes, the
/// `j`-th of them read in phase `RecvRead(j)`.
pub proof fn lemma_xfer_step_keeps_inv(mosi: Seq<u8>, skip: u32, lr: u32, phase: XferPhase, kept: Seq<u8>, value: u32)
    requires
        mosi.len() <= u32::MAX,
        xfer_inv(mosi.len() as u32, skip, lr, phase, kept),
    ensures
        ({
            let (p, k, _a) = xfer_next(mosi, skip, lr, phase, kept, value);
            xfer_inv(mosi.len() as u32, skip, lr, p, k)
        }),
{
}

/// A transfer through the TX and RX FIFOs, one bus access at a time.
pub struct SpiTransfer {
    mosi: Vec<u8>,
    skip: u32,
    lr: u32,
    phase: XferPhase,
    kept: Vec<u8>,
}

impl SpiTransfer {
    pub closed spec fn mosi(&self) -> Seq<u8> {
        self.mosi@
    }

    pub closed spec fn skip(&self) -> u32 {
        self.skip
    }

    pub closed spec fn lr(&self) -> u32 {
        self.lr
    }

    pub closed spec fn phase(&self) -> XferPhase {
        self.phase
    }

    /// The received bytes kept so far.
    pub closed spec fn kept(&self) -> Seq<u8> {
        self.kept@
    }

    /// A transfer that sends `mosi`, clocks `dummy` more bytes and receives
    /// `lr` bytes, after `transfer_setup` started the exchange; with the
    /// first action.
    pub fn new(mosi: &[u8], dummy: u32, lr: u32) -> (r: (SpiTransfer, XferAction))
        requires
            mosi@.len() + dummy + lr <= u32::MAX,
        ensures
            r.0.mosi() == mosi@,
            r.0.skip() == mosi@.len() + dummy,
            r.0.lr() == lr,
            r.0.kept() == Seq::<u8>::empty(),
            (r.0.phase(), r.1) == begin_send(0, mosi@.len() as u32, (mosi@.len() + dummy) as u32, lr),
            xfer_inv(mosi@.len() as u32, (mosi@.len() + dummy) as u32, lr, r.0.phase(), r.0.kept()),
    {
        let mut v: Vec<u8> = Vec::new();
        let mut i: usize = 0;
        while i < mosi.len()
            invariant
                i <= mosi@.len(),
                v@ == mosi@.take(i as int),
            decreases mosi@.len() - i,
        {
            v.push(mosi[i]);
            i = i + 1;
            assert(v@ =~= mosi@.take(i as int));
        }
        assert(mosi@.take(mosi@.len() as int) =~= mosi@);
        let lx = mosi.len() as u32;
        let skip = lx + dummy;
        let (phase, a) = Self::start_send(0, lx, skip, lr);
        (SpiTransfer { mosi: v, skip, lr, phase, kept: Vec::new() }, a)
    }

    fn start_send(i: u32, lx: u32, skip: u32, lr: u32) -> (r: (XferPhase, XferAction))
        ensures
            r == begin_send(i, lx, skip, lr),
    {
        if i < lx {
            (XferPhase::SendPoll(i), XferAction::ReadFsr)
        } else {
            Self::start_skip(0, skip, lr)
        }
    }

    fn start_skip(k: u32, skip: u32, lr: u32) -> (r: (XferPhase, XferAction))
        ensures
            r == begin_skip(k, skip, lr),
    {
        if k < skip {
            (XferPhase::SkipPoll(k), XferAction::ReadFsr)
        } else {
            Self::start_recv(0, lr)
        }
    }

    fn start_recv(j: u32, lr: u32) -> (r: (XferPhase, XferAction))
        ensures
            r == begin_recv(j, lr),
    {
        if j < lr {
            (XferPhase::RecvPoll(j), XferAction::ReadFsr)
        } else {
            (XferPhase::Check, XferAction::ReadTcr)
        }
    }

    /// Advances the transfer: `value` answers the previous action where it
    /// was a read (an RX byte in its low 8 bits).
    pub fn step(&mut self, value: u32) -> (r: XferAction)
        requires
            old(self).mosi().len() <= u32::MAX,
            xfer_inv(old(self).mosi().len() as u32, old(self).skip(), old(self).lr(), old(self).phase(), old(self).kept()),
        ensures
            final(self).mosi() == old(self).mosi(),
            final(self).skip() == old(self).skip(),
            final(self).lr() == old(self).lr(),
            (final(self).phase(), final(self).kept(), r) == xfer_next(
                old(self).mosi(),
                old(self).skip(),
                old(self).lr(),
                old(self).phase(),
                old(self).kept(),
                value,
            ),
            xfer_inv(final(self).mosi().len() as u32, final(self).skip(), final(self).lr(), final(self).phase(), final(self).kept()),
    {
        proof {
            lemma_xfer_step_keeps_inv(self.mosi@, self.skip, self.lr, self.phase, self.kept@, value);
        }
        let lx = self.mosi.len() as u32;
        assert(((value >> 16u32) & 0xff == (value / 0x1_0000) % 256) && (value & 0xff == value % 256)
            && (value & 0xff) as u8 == value as u8) by (bit_vector);
        match self.phase {
            XferPhase::SendPoll(i) => {
                if (value >> 16u32) & 0xff >= 64 {
                    XferAction::ReadFsr
                } else {
                    self.phase = XferPhase::SendWrote(i);
                    XferAction::WriteTx(self.mosi[i as usize])
                }
            },
            XferPhase::SendWrote(i) => {
                let (p, a) = Self::start_send(i + 1, lx, self.skip, self.lr);
                self.phase = p;
                a
            },
            XferPhase::SkipPoll(k) => {
                if value & 0xff == 0 {
                    XferAction::ReadFsr
                } else {
                    self.phase = XferPhase::SkipRead(k);
                    XferAction::ReadRx
                }
            },
            XferPhase::SkipRead(k) => {
                let (p, a) = Self::start_skip(k + 1, self.skip, self.lr);
                self.phase = p;
                a
            },
            XferPhase::RecvPoll(j) => {
                if value & 0xff == 0 {
                    XferAction::ReadFsr
                } else {
                    self.phase = XferPhase::RecvRead(j);
                    XferAction::ReadRx
                }
            },
            XferPhase::RecvRead(j) => {
                self.kept.push((value & 0xff) as u8);
                let (p, a) = Self::start_recv(j + 1, self.lr);
                self.phase = p;
                a
            },
            XferPhase::Check => {
                let ended = value & 0x8000_0000 == 0;
                self.phase = XferPhase::Done(ended);
                XferAction::Finish(ended)
            },
            XferPhase::Done(ended) => XferAction::Finish(ended),
        }
    }

    /// The received bytes kept so far.
    pub fn received(&self) -> (r: &[u8])
        ensures
            r@ == self.kept(),
    {
        self.kept.as_slice()
    }
}

} // verus!
