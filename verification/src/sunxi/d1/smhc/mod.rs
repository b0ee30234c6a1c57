//! SD/MMC Host Controller
//!
//! Every operation on the controller is a program of `SmhcOp` steps that the
//! platform layer carries out in order: register steps, and waits for an
//! interrupt status bit, which end the program with the error that
//! `interrupt_outcome` gives where the controller reports one, and clear the
//! status bit (`wait_for_interrupt_step`).  Card
//! initialisation decides on the card's responses as it goes, so it is a
//! session that is handed each response in turn (`InitSession`).
use vstd::prelude::*;
use crate::mmio::RegOp;
use crate::sunxi::d1::ccu::{Clocks, Gating, Reset, Smhc0, SMHC0_CLK};
use crate::sunxi::d1::gpio::{Pin, Function};
use crate::sunxi::d1::time::Hz;

pub mod card;
pub mod idmac;

use card::{CardStatus, CardType, CardCurrentState};
use idmac::{Descriptor, DescriptorConfig, des0_of, des3_of};
use embedded_sdmmc::embedded_sdmmc_types::sdcard::csd::{Csd, CsdV2};

verus! {

/// Base of SMHC0.
pub const SMHC0_BASE: u64 = 0x0402_0000;
pub const SMHC_CTRL: u64 = 0x00;
pub const SMHC_CLKDIV: u64 = 0x04;
pub const SMHC_CTYPE: u64 = 0x0c;
pub const SMHC_BLKSIZ: u64 = 0x10;
pub const SMHC_BYTCNT: u64 = 0x14;
pub const SMHC_CMD: u64 = 0x18;
pub const SMHC_CMDARG: u64 = 0x1c;
pub const SMHC_RESP0: u64 = 0x20;
pub const SMHC_RESP1: u64 = 0x24;
pub const SMHC_RESP2: u64 = 0x28;
pub const SMHC_RESP3: u64 = 0x2c;
pub const SMHC_RINTSTS: u64 = 0x38;
pub const SMHC_FIFOTH: u64 = 0x40;
pub const SMHC_IDMAC: u64 = 0x80;
pub const SMHC_DLBA: u64 = 0x84;
pub const SMHC_IDST: u64 = 0x88;
pub const SMHC_IDIE: u64 = 0x8c;
pub const SMHC_SMAP_DL: u64 = 0x144;

/// Length of a block in bytes.
pub const BLOCK_LEN: u32 = 512;

/// GO_IDLE_STATE
pub const CMD0: u8 = 0x00;
/// ALL_SEND_CID
pub const CMD2: u8 = 0x02;
/// SEND_RELATIVE_ADDR
pub const CMD3: u8 = 0x03;
/// SET_BUS_WIDTH (application command)
pub const ACMD6: u8 = 0x06;
/// SELECT/DESELECT_CARD
pub const CMD7: u8 = 0x07;
/// SEND_IF_COND
pub const CMD8: u8 = 0x08;
/// SEND_CSD
pub const CMD9: u8 = 0x09;
/// SEND_STATUS
pub const CMD13: u8 = 0x0d;
/// READ_SINGLE_BLOCK
pub const CMD17: u8 = 0x11;
/// READ_MULTIPLE_BLOCK
pub const CMD18: u8 = 0x12;
/// WRITE_BLOCK
pub const CMD24: u8 = 0x18;
/// WRITE_MULTIPLE_BLOCK
pub const CMD25: u8 = 0x19;
/// SD_SEND_OP_COND (application command)
pub const ACMD41: u8 = 0x29;
/// APP_CMD
pub const CMD55: u8 = 0x37;

/// Host supports high capacity
pub const OCR_HCS: u32 = 0x4000_0000;
/// Card has finished power up routine if bit is high
pub const OCR_NBUSY: u32 = 0x8000_0000;
/// Valid bits for voltage setting
pub const OCR_VOLTAGE_MASK: u32 = 0x007f_ff80;

#[derive(Clone, Copy, Debug, PartialEq, Eq, Structural)]
pub enum Interrupt {
    ResponseError,
    CommandComplete,
    DataTransferComplete,
    DataTransmitRequest,
    DataReceiveRequest,
    ResponseCrcError,
    DataCrcError,
    ResponseTimeout,       // or Boot ACK Received
    DataTimeout,           // or Boot Data Start
    DataStarvationTimeout, // or Voltage Switch Done
    FifoUnderrunOverflow,
    CommandBusyIllegalWrite,
    DataStartError,
    AutoCommandDone,
    DataEndError,
    SDIO,
    CardInserted,
    CardRemoved,
}

/// The raw interrupt status bit of an interrupt.
pub open spec fn interrupt_bit(i: Interrupt) -> u32 {
    match i {
        Interrupt::ResponseError => 0x2,
        Interrupt::CommandComplete => 0x4,
        Interrupt::DataTransferComplete => 0x8,
        Interrupt::DataTransmitRequest => 0x10,
        Interrupt::DataReceiveRequest => 0x20,
        Interrupt::ResponseCrcError => 0x40,
        Interrupt::DataCrcError => 0x80,
        Interrupt::ResponseTimeout => 0x100,
        Interrupt::DataTimeout => 0x200,
        Interrupt::DataStarvationTimeout => 0x400,
        Interrupt::FifoUnderrunOverflow => 0x800,
        Interrupt::CommandBusyIllegalWrite => 0x1000,
        Interrupt::DataStartError => 0x2000,
        Interrupt::AutoCommandDone => 0x4000,
        Interrupt::DataEndError => 0x8000,
        Interrupt::SDIO => 0x1_0000,
        Interrupt::CardInserted => 0x4000_0000,
        Interrupt::CardRemoved => 0x8000_0000,
    }
}

impl Interrupt {
    /// The raw interrupt status bit of the interrupt.
    pub fn into(self) -> (r: u32)
        ensures
            r == interrupt_bit(self),
    {
        match self {
            Interrupt::ResponseError => 0x2,
            Interrupt::CommandComplete => 0x4,
            Interrupt::DataTransferComplete => 0x8,
            Interrupt::DataTransmitRequest => 0x10,
            Interrupt::DataReceiveRequest => 0x20,
            Interrupt::ResponseCrcError => 0x40,
            Interrupt::DataCrcError => 0x80,
            Interrupt::ResponseTimeout => 0x100,
            Interrupt::DataTimeout => 0x200,
            Interrupt::DataStarvationTimeout => 0x400,
            Interrupt::FifoUnderrunOverflow => 0x800,
            Interrupt::CommandBusyIllegalWrite => 0x1000,
            Interrupt::DataStartError => 0x2000,
            Interrupt::AutoCommandDone => 0x4000,
            Interrupt::DataEndError => 0x8000,
            Interrupt::SDIO => 0x1_0000,
            Interrupt::CardInserted => 0x4000_0000,
            Interrupt::CardRemoved => 0x8000_0000,
        }
    }
}

#[derive(Clone, Copy, Debug, PartialEq, Eq, Structural)]
pub enum Error {
    /// A transmit bit error, end bit error, or CMD index error has occurred.
    Response,
    /// Invalid CRC in response.
    ResponseCrc,
    /// When receiving data, this means that the received data has data CRC error.
    /// When transmitting data, this means that the received CRC status taken is negative.
    DataCrc,
    /// Did not receive a response in time.
    ResponseTimeout,
    /// Did not receive data in time.
    DataTimeout,
    /// Data starvation detected.
    DataStarvationTimeout,
    /// FIFO underrun or overflow.
    FifoUnderrunOverflow,
    /// Command busy and illegal write.
    CommandBusyIllegalWrite,
    /// When receiving data, this means that the host controller found an error start bit.
    /// When transmitting data, this means that the busy signal is cleared after the last block.
    DataStart,
    /// When receiving data, this means that we did not receive a valid data end bit.
    /// When transmitting data, this means that we did not receive the CRC status token.
    DataEnd,
    /// An error occurred in the internal DMA controller.
    Dma(idmac::Error),
}

pub open spec fn has(rint: u32, bit: u32) -> bool {
    rint & bit != 0
}

/// What a raw interrupt status `rint` says while waiting for `want`: an
/// error, where the controller flags one (checked in a fixed order); done,
/// where all the bits of `want` are set; otherwise nothing yet (`None`).
pub open spec fn outcome(rint: u32, want: u32) -> Option<Result<(), Error>> {
    if has(rint, 0x100) {
        Some(Err(Error::ResponseTimeout))
    } else if has(rint, 0x40) {
        Some(Err(Error::ResponseCrc))
    } else if has(rint, 0x2) {
        Some(Err(Error::Response))
    } else if has(rint, 0x400) {
        Some(Err(Error::DataStarvationTimeout))
    } else if has(rint, 0x200) {
        Some(Err(Error::DataTimeout))
    } else if has(rint, 0x80) {
        Some(Err(Error::DataCrc))
    } else if has(rint, 0x800) {
        Some(Err(Error::FifoUnderrunOverflow))
    } else if has(rint, 0x1000) {
        Some(Err(Error::CommandBusyIllegalWrite))
    } else if has(rint, 0x2000) {
        Some(Err(Error::DataStart))
    } else if has(rint, 0x8000) {
        Some(Err(Error::DataEnd))
    } else if rint & want == want {
        Some(Ok(()))
    } else {
        None
    }
}

/// One poll of the raw interrupt status while waiting for `want`; `None`
/// means: poll again.  Once it is `Some`, the waiter acknowledges the interrupt by
/// writing its bit to the raw interrupt status register.
pub fn interrupt_outcome(rint: u32, irq: Interrupt) -> (r: Option<Result<(), Error>>)
    ensures
        r == outcome(rint, interrupt_bit(irq)),
{
    let want: u32 = irq.into();
    if rint & 0x100 != 0 {
        Some(Err(Error::ResponseTimeout))
    } else if rint & 0x40 != 0 {
        Some(Err(Error::ResponseCrc))
    } else if rint & 0x2 != 0 {
        Some(Err(Error::Response))
    } else if rint & 0x400 != 0 {
        Some(Err(Error::DataStarvationTimeout))
    } else if rint & 0x200 != 0 {
        Some(Err(Error::DataTimeout))
    } else if rint & 0x80 != 0 {
        Some(Err(Error::DataCrc))
    } else if rint & 0x800 != 0 {
        Some(Err(Error::FifoUnderrunOverflow))
    } else if rint & 0x1000 != 0 {
        Some(Err(Error::CommandBusyIllegalWrite))
    } else if rint & 0x2000 != 0 {
        Some(Err(Error::DataStart))
    } else if rint & 0x8000 != 0 {
        Some(Err(Error::DataEnd))
    } else if rint & want == want {
        Some(Ok(()))
    } else {
        None
    }
}

/// One poll of the wait for `irq` on the controller at `base`, where the
/// raw interrupt status reads `rint`: `None` while the wait goes on; once it
/// ends, its outcome and the write that clears the interrupt status of
/// `irq` (its bit written back to the raw interrupt status register).
pub fn wait_for_interrupt_step(base: u64, rint: u32, irq: Interrupt) -> (r: Option<(Result<(), Error>, RegOp)>)
    requires
        base + SMHC_RINTSTS <= u64::MAX,
    ensures
        match outcome(rint, interrupt_bit(irq)) {
            None => r is None,
            Some(o) => r == Some((o, RegOp::Write { addr: (base + SMHC_RINTSTS) as u64, value: interrupt_bit(irq) })),
        },
{
    match interrupt_outcome(rint, irq) {
        None => None,
        Some(o) => Some((o, RegOp::Write { addr: base + SMHC_RINTSTS, value: irq.into() })),
    }
}

/// Direction of a data transfer.
#[derive(Clone, Copy, Debug, PartialEq, Eq, Structural)]
pub enum DataTransfer {
    Read,
    Write,
}

/// Length of the response to a command.
#[derive(Clone, Copy, Debug, PartialEq, Eq, Structural)]
pub enum Response {
    /// 48-bit response
    Short,
    /// 136-bit response
    Long,
}

/// A command to the card and how the controller carries it out.
#[derive(Clone, Copy, Debug, PartialEq, Eq, Structural)]
pub struct CommandOptions {
    pub cmd: u8,
    pub arg: u32,
    pub data: Option<DataTransfer>,
    pub check_crc: bool,
    pub response: Option<Response>,
    pub auto_stop: bool,
}

impl CommandOptions {
    /// A command to be sent during the *initialization* phase.
    pub fn init_cmd(cmd: u8, arg: u32, check_crc: bool) -> (r: Self)
        ensures
            r == (CommandOptions {
                cmd,
                arg,
                data: None,
                check_crc,
                response: Some(Response::Short),
                auto_stop: false,
            }),
    {
        CommandOptions {
            cmd,
            arg,
            data: None,
            check_crc,
            response: Some(Response::Short),
            auto_stop: false,
        }
    }

    /// A command used after initialization, for *configuration, ...*
    pub fn ctrl_cmd(cmd: u8, arg: u32, response: Response) -> (r: Self)
        ensures
            r == (CommandOptions {
                cmd,
                arg,
                data: None,
                check_crc: true,
                response: Some(response),
                auto_stop: false,
            }),
    {
        CommandOptions { cmd, arg, data: None, check_crc: true, response: Some(response), auto_stop: false }
    }

    /// A command used after initialization, for *data transfer*.
    pub fn data_cmd(cmd: u8, arg: u32, dir: DataTransfer, auto_stop: bool) -> (r: Self)
        ensures
            r == (CommandOptions {
                cmd,
                arg,
                data: Some(dir),
                check_crc: true,
                response: Some(Response::Short),
                auto_stop,
            }),
    {
        CommandOptions {
            cmd,
            arg,
            data: Some(dir),
            check_crc: true,
            response: Some(Response::Short),
            auto_stop,
        }
    }
}

impl Default for CommandOptions {
    /// The default command is **reset**
    fn default() -> (r: Self)
        ensures
            r == (CommandOptions {
                cmd: CMD0,
                arg: 0,
                data: None,
                check_crc: false,
                response: None,
                auto_stop: false,
            }),
    {
        CommandOptions { cmd: CMD0, arg: 0, data: None, check_crc: false, response: None, auto_stop: false }
    }
}

pub open spec fn flag(b: bool, bit: int) -> int {
    if b {
        bit
    } else {
        0
    }
}

/// The command register word that starts `o`: load, wait for the previous
/// data transfer, auto stop, data and direction, response CRC check,
/// response length and presence, and the command index (6 bits).
pub open spec fn cmd_word(o: CommandOptions) -> u32 {
    let (data_trans, trans_dir) = match o.data {
        Some(DataTransfer::Read) => (true, false),
        Some(DataTransfer::Write) => (true, true),
        None => (false, false),
    };
    let (resp_recv, resp_long) = match o.response {
        Some(Response::Short) => (true, false),
        Some(Response::Long) => (true, true),
        None => (false, false),
    };
    (0x8000_2000 + flag(o.auto_stop, 0x1000) + flag(data_trans, 0x200) + flag(trans_dir, 0x400)
        + flag(o.check_crc, 0x100) + flag(resp_long, 0x80) + flag(resp_recv, 0x40) + (o.cmd % 64)) as u32
}

/// A step of a controller program.
#[derive(Clone, Copy, Debug, PartialEq, Eq)]
pub enum SmhcOp {
    /// A register step.
    Reg(RegOp),
    /// Wait for an interrupt status bit and acknowledge it, polling as
    /// `wait_for_interrupt_step` decides; on an error the program ends with
    /// that error.
    WaitInterrupt(Interrupt),
    /// Store the four words of a DMA descriptor in memory at `addr`.
    Store { addr: u32, des0: u32, des1: u32, des2: u32, des3: u32 },
    /// Ask the card with address `rca` for its status (SEND_STATUS, waiting
    /// for the command to complete) until `still_programming` says no.
    WaitCardReady { rca: u32 },
}

/// Sends a command: argument first, then the command word.
pub open spec fn command_program(base: u64, o: CommandOptions) -> Seq<SmhcOp> {
    seq![
        SmhcOp::Reg(RegOp::Write { addr: (base + SMHC_CMDARG) as u64, value: o.arg }),
        SmhcOp::Reg(RegOp::Write { addr: (base + SMHC_CMD) as u64, value: cmd_word(o) }),
    ]
}

/// Sends a command and waits for it to complete.
pub open spec fn command_cc_program(base: u64, o: CommandOptions) -> Seq<SmhcOp> {
    command_program(base, o).push(SmhcOp::WaitInterrupt(Interrupt::CommandComplete))
}

/// Resets the FIFO and waits for the reset to finish.
pub open spec fn reset_fifo_program(base: u64) -> Seq<SmhcOp> {
    seq![
        SmhcOp::Reg(RegOp::Modify { addr: (base + SMHC_CTRL) as u64, and_mask: 0xffff_ffff, or_mask: 2 }),
        SmhcOp::Reg(RegOp::WaitClear { addr: (base + SMHC_CTRL) as u64, mask: 2 }),
    ]
}

/// Makes the controller take up a new card clock: load a clock change
/// command, wait for the load, clear all raw interrupts.
pub open spec fn update_clk_program(base: u64) -> Seq<SmhcOp> {
    seq![
        SmhcOp::Reg(RegOp::Write { addr: (base + SMHC_CMD) as u64, value: 0x8020_2000 }),
        SmhcOp::Reg(RegOp::WaitClear { addr: (base + SMHC_CMD) as u64, mask: 0x8000_0000 }),
        SmhcOp::Reg(RegOp::Write { addr: (base + SMHC_RINTSTS) as u64, value: 0xffff_ffff }),
    ]
}

/// Brings the controller at `base` up, fed from the bus gating reset
/// register `bgr`: module clock from the 24 MHz oscillator divided by 2,
/// soft and FIFO reset, interrupts off, card clock divided by 2 with sample
/// delay by software, 1-bit bus, 512-byte blocks.
pub open spec fn init_program(base: u64, bgr: u64, gate: u32, rst: u32) -> Seq<SmhcOp> {
    seq![
        SmhcOp::Reg(RegOp::Modify { addr: bgr, and_mask: !((1u32 << rst) as u32), or_mask: 0 }),
        SmhcOp::Reg(RegOp::Modify { addr: bgr, and_mask: !((1u32 << gate) as u32), or_mask: 0 }),
        SmhcOp::Reg(RegOp::Write { addr: SMHC0_CLK, value: 0x8000_0001 }),
        SmhcOp::Reg(RegOp::Modify { addr: bgr, and_mask: 0xffff_ffff, or_mask: (1u32 << rst) as u32 }),
        SmhcOp::Reg(RegOp::Modify { addr: bgr, and_mask: 0xffff_ffff, or_mask: (1u32 << gate) as u32 }),
        SmhcOp::Reg(RegOp::Modify { addr: (base + SMHC_CTRL) as u64, and_mask: !1u32, or_mask: 1 }),
        SmhcOp::Reg(RegOp::WaitClear { addr: (base + SMHC_CTRL) as u64, mask: 1 }),
        SmhcOp::Reg(RegOp::Modify { addr: (base + SMHC_CTRL) as u64, and_mask: !2u32, or_mask: 2 }),
        SmhcOp::Reg(RegOp::WaitClear { addr: (base + SMHC_CTRL) as u64, mask: 2 }),
        SmhcOp::Reg(RegOp::Modify { addr: (base + SMHC_CTRL) as u64, and_mask: !0x10u32, or_mask: 0 }),
        SmhcOp::Reg(RegOp::Write { addr: (base + SMHC_CLKDIV) as u64, value: 0 }),
    ] + update_clk_program(base) + seq![
        SmhcOp::Reg(RegOp::Modify { addr: (base + SMHC_CLKDIV) as u64, and_mask: !0xffu32, or_mask: 2 }),
        SmhcOp::Reg(RegOp::Write { addr: (base + SMHC_SMAP_DL) as u64, value: 0x80 }),
        SmhcOp::Reg(RegOp::Modify { addr: (base + SMHC_CLKDIV) as u64, and_mask: !0x1_0000u32, or_mask: 0x1_0000 }),
    ] + update_clk_program(base) + seq![
        SmhcOp::Reg(RegOp::Write { addr: (base + SMHC_CTYPE) as u64, value: 0 }),
        SmhcOp::Reg(RegOp::Write { addr: (base + SMHC_BLKSIZ) as u64, value: BLOCK_LEN }),
    ]
}

/// An SMHC block and the clock and reset bits that feed it.
pub trait Instance: Gating + Reset {
    /// Base address of the register block.
    spec fn base() -> u64;

    fn base_addr() -> (b: u64)
        ensures
            b == Self::base(),
            b <= 0xffff_ffff,
    ;
}

impl Instance for Smhc0 {
    open spec fn base() -> u64 {
        SMHC0_BASE
    }

    fn base_addr() -> (b: u64) {
        SMHC0_BASE
    }
}

/// Pin sets that can carry the signals of an SMHC block.
pub trait Pins<SMHC> {}

// PF0 ..= PF5 in function 2
impl Pins<Smhc0> for (
    Pin<Function<2>>,
    Pin<Function<2>>,
    Pin<Function<2>>,
    Pin<Function<2>>,
    Pin<Function<2>>,
    Pin<Function<2>>,
) {}

/// The SD/MMC host controller.
pub struct Smhc<SMHC> {
    /// The underlying SMHC peripheral
    inner: SMHC,
}

/// A card, known by its relative card address.
pub struct Card<'a, SMHC> {
    /// Reference to the controller
    smhc: &'a Smhc<SMHC>,
    /// The remote card address
    rca: u32,
}

fn push_reg(ops: &mut Vec<SmhcOp>, op: RegOp)
    ensures
        final(ops)@ == old(ops)@.push(SmhcOp::Reg(op)),
{
    ops.push(SmhcOp::Reg(op));
}

/// The command word of `o`.
pub fn command_word(o: &CommandOptions) -> (r: u32)
    ensures
        r == cmd_word(*o),
{
    let (data_trans, trans_dir): (u32, u32) = match o.data {
        Some(DataTransfer::Read) => (0x200, 0),
        Some(DataTransfer::Write) => (0x200, 0x400),
        None => (0, 0),
    };
    let (resp_recv, resp_long): (u32, u32) = match o.response {
        Some(Response::Short) => (0x40, 0),
        Some(Response::Long) => (0x40, 0x80),
        None => (0, 0),
    };
    let stop: u32 = if o.auto_stop { 0x1000 } else { 0 };
    let crc: u32 = if o.check_crc { 0x100 } else { 0 };
    0x8000_2000 + stop + data_trans + trans_dir + crc + resp_long + resp_recv + (o.cmd % 64) as u32
}

impl<SMHC: Instance> Smhc<SMHC> {
    pub closed spec fn inner(&self) -> SMHC {
        self.inner
    }

    /// Appends the program that sends `opt` to the card.
    pub fn card_command(&self, opt: CommandOptions, ops: &mut Vec<SmhcOp>)
        ensures
            final(ops)@ == old(ops)@ + command_program(SMHC::base(), opt),
    {
        let base = SMHC::base_addr();
        let ghost start = ops@;
        push_reg(ops, RegOp::Write { addr: base + SMHC_CMDARG, value: opt.arg });
        let w = command_word(&opt);
        push_reg(ops, RegOp::Write { addr: base + SMHC_CMD, value: w });
        assert(ops@ == start + command_program(SMHC::base(), opt));
    }

    /// Appends the program that sends `opt` and waits for it to complete.
    fn command_cc(&self, opt: CommandOptions, ops: &mut Vec<SmhcOp>)
        ensures
            final(ops)@ == old(ops)@ + command_cc_program(SMHC::base(), opt),
    {
        let ghost start = ops@;
        self.card_command(opt, ops);
        ops.push(SmhcOp::WaitInterrupt(Interrupt::CommandComplete));
        assert(ops@ == start + command_cc_program(SMHC::base(), opt));
    }

    fn reset_fifo(&self, ops: &mut Vec<SmhcOp>)
        ensures
            final(ops)@ == old(ops)@ + reset_fifo_program(SMHC::base()),
    {
        let base = SMHC::base_addr();
        let ghost start = ops@;
        push_reg(ops, RegOp::Modify { addr: base + SMHC_CTRL, and_mask: 0xffff_ffff, or_mask: 2 });
        push_reg(ops, RegOp::WaitClear { addr: base + SMHC_CTRL, mask: 2 });
        assert(ops@ == start + reset_fifo_program(SMHC::base()));
    }

    fn update_clk(ops: &mut Vec<SmhcOp>)
        ensures
            final(ops)@ == old(ops)@ + update_clk_program(SMHC::base()),
    {
        let base = SMHC::base_addr();
        let ghost start = ops@;
        push_reg(ops, RegOp::Write { addr: base + SMHC_CMD, value: 0x8020_2000 });
        push_reg(ops, RegOp::WaitClear { addr: base + SMHC_CMD, mask: 0x8000_0000 });
        push_reg(ops, RegOp::Write { addr: base + SMHC_RINTSTS, value: 0xffff_ffff });
        assert(ops@ == start + update_clk_program(SMHC::base()));
    }

    /// Creates the controller; the program that brings it up is appended to
    /// `ops`.
    pub fn new<PINS>(smhc: SMHC, _pins: PINS, _freq: Hz, _clocks: &Clocks, ops: &mut Vec<SmhcOp>) -> (r: Self)
        where
            PINS: Pins<SMHC>,
        requires
            SMHC::bgr() == SMHC::reset_reg(),
        ensures
            r.inner() == smhc,
            final(ops)@ == old(ops)@ + init_program(SMHC::base(), SMHC::bgr(), SMHC::gating_bit(), SMHC::reset_bit()),
    {
        let base = SMHC::base_addr();
        let bgr = SMHC::bgr_addr();
        let gate = SMHC::gating_bit_index();
        let rst = SMHC::reset_bit_index();
        let ghost start = ops@;
        push_reg(ops, RegOp::Modify { addr: bgr, and_mask: !(1u32 << rst), or_mask: 0 });
        push_reg(ops, RegOp::Modify { addr: bgr, and_mask: !(1u32 << gate), or_mask: 0 });
        push_reg(ops, RegOp::Write { addr: SMHC0_CLK, value: 0x8000_0001 });
        push_reg(ops, RegOp::Modify { addr: bgr, and_mask: 0xffff_ffff, or_mask: 1u32 << rst });
        push_reg(ops, RegOp::Modify { addr: bgr, and_mask: 0xffff_ffff, or_mask: 1u32 << gate });
        push_reg(ops, RegOp::Modify { addr: base + SMHC_CTRL, and_mask: !1u32, or_mask: 1 });
        push_reg(ops, RegOp::WaitClear { addr: base + SMHC_CTRL, mask: 1 });
        push_reg(ops, RegOp::Modify { addr: base + SMHC_CTRL, and_mask: !2u32, or_mask: 2 });
        push_reg(ops, RegOp::WaitClear { addr: base + SMHC_CTRL, mask: 2 });
        push_reg(ops, RegOp::Modify { addr: base + SMHC_CTRL, and_mask: !0x10u32, or_mask: 0 });
        push_reg(ops, RegOp::Write { addr: base + SMHC_CLKDIV, value: 0 });
        Self::update_clk(ops);
        push_reg(ops, RegOp::Modify { addr: base + SMHC_CLKDIV, and_mask: !0xffu32, or_mask: 2 });
        push_reg(ops, RegOp::Write { addr: base + SMHC_SMAP_DL, value: 0x80 });
        push_reg(ops, RegOp::Modify { addr: base + SMHC_CLKDIV, and_mask: !0x1_0000u32, or_mask: 0x1_0000 });
        Self::update_clk(ops);
        push_reg(ops, RegOp::Write { addr: base + SMHC_CTYPE, value: 0 });
        push_reg(ops, RegOp::Write { addr: base + SMHC_BLKSIZ, value: BLOCK_LEN });
        assert(ops@ == start + init_program(SMHC::base(), SMHC::bgr(), SMHC::gating_bit(), SMHC::reset_bit()));
        Smhc { inner: smhc }
    }
}


/// Where card initialisation stands.
#[derive(Clone, Copy, Debug, PartialEq, Eq)]
pub enum InitPhase {
    /// SEND_IF_COND sent.
    IfCond,
    /// APP_CMD sent.
    AppCmd,
    /// SD_SEND_OP_COND sent.
    OpCond,
    /// Finished with this result.
    Done(Result<CardType, Error>),
}

/// What to do next during card initialisation.
#[derive(Clone, Copy, Debug, PartialEq, Eq)]
pub enum InitAction {
    /// Send this command, wait for it to complete, and hand back the
    /// outcome with the first response word.
    Send(CommandOptions),
    /// Initialisation is over.
    Finished(Result<CardType, Error>),
}

/// Argument of SD_SEND_OP_COND: the voltage window, and high capacity
/// support unless the card is a version 1 card.
pub open spec fn op_cond_arg(t: CardType) -> u32 {
    if t == CardType::SD1 {
        0x007f_8000
    } else {
        0x407f_8000
    }
}

/// The card type after the SEND_IF_COND response `resp`.
pub open spec fn type_after_if_cond(t: CardType, resp: u32) -> CardType {
    if resp == 0x1aa {
        CardType::SD2
    } else {
        t
    }
}

/// The card type once the operating conditions `ocr` are valid.
pub open spec fn type_after_op_cond(t: CardType, ocr: u32) -> CardType {
    if ocr & OCR_HCS == OCR_HCS {
        CardType::SDHC
    } else {
        t
    }
}

/// One step of card initialisation: the phase and card type after the
/// outcome `event` of the command last sent, and what to do next.
pub open spec fn init_next(phase: InitPhase, t: CardType, event: Result<u32, Error>) -> (InitPhase, CardType, InitAction) {
    match phase {
        InitPhase::Done(r) => (phase, t, InitAction::Finished(r)),
        _ => match event {
            Err(e) => (InitPhase::Done(Err(e)), t, InitAction::Finished(Err(e))),
            Ok(resp) => match phase {
                InitPhase::IfCond => {
                    let t2 = type_after_if_cond(t, resp);
                    (InitPhase::AppCmd, t2, InitAction::Send(app_cmd(0)))
                },
                InitPhase::AppCmd => (InitPhase::OpCond, t, InitAction::Send(op_cond_cmd(t))),
                _ => if resp & OCR_NBUSY == OCR_NBUSY {
                    let t2 = type_after_op_cond(t, resp);
                    (InitPhase::Done(Ok(t2)), t2, InitAction::Finished(Ok(t2)))
                } else {
                    (InitPhase::AppCmd, t, InitAction::Send(app_cmd(0)))
                },
            },
        },
    }
}

/// SEND_IF_COND with the 2.7-3.6 V range and echo pattern 0xAA.
pub open spec fn if_cond_cmd() -> CommandOptions {
    CommandOptions { cmd: CMD8, arg: 0x1aa, data: None, check_crc: true, response: Some(Response::Short), auto_stop: false }
}

/// APP_CMD for the card at `rca`.
pub open spec fn app_cmd(rca: u32) -> CommandOptions {
    CommandOptions { cmd: CMD55, arg: rca, data: None, check_crc: true, response: Some(Response::Short), auto_stop: false }
}

/// SD_SEND_OP_COND for a card of type `t`.
pub open spec fn op_cond_cmd(t: CardType) -> CommandOptions {
    CommandOptions {
        cmd: ACMD41,
        arg: op_cond_arg(t),
        data: None,
        check_crc: false,
        response: Some(Response::Short),
        auto_stop: false,
    }
}

/// Card initialisation, one command at a time.
pub struct InitSession {
    phase: InitPhase,
    card_type: CardType,
}

impl InitSession {
    pub closed spec fn phase(&self) -> InitPhase {
        self.phase
    }

    pub closed spec fn card_type(&self) -> CardType {
        self.card_type
    }

    /// Starts initialisation: the first command to send is SEND_IF_COND.
    pub fn new() -> (r: (InitSession, CommandOptions))
        ensures
            r.0.phase() == InitPhase::IfCond,
            r.0.card_type() == CardType::SD1,
            r.1 == if_cond_cmd(),
    {
        let cmd = CommandOptions::init_cmd(CMD8, 0x1aa, true);
        (InitSession { phase: InitPhase::IfCond, card_type: CardType::SD1 }, cmd)
    }

    /// Takes the outcome of the command last sent (its first response word,
    /// or the error that waiting for its completion gave) and says what to
    /// do next.
    pub fn step(&mut self, event: Result<u32, Error>) -> (r: InitAction)
        ensures
            (final(self).phase(), final(self).card_type(), r) == init_next(old(self).phase(), old(self).card_type(), event),
    {
        match self.phase {
            InitPhase::Done(r) => InitAction::Finished(r),
            _ => match event {
                Err(e) => {
                    self.phase = InitPhase::Done(Err(e));
                    InitAction::Finished(Err(e))
                },
                Ok(resp) => match self.phase {
                    InitPhase::IfCond => {
                        if resp == 0x1aa {
                            self.card_type = CardType::SD2;
                        }
                        self.phase = InitPhase::AppCmd;
                        InitAction::Send(CommandOptions::init_cmd(CMD55, 0, true))
                    },
                    InitPhase::AppCmd => {
                        let mut arg = OCR_VOLTAGE_MASK & 0x00ff_8000;
                        if self.card_type != CardType::SD1 {
                            arg = OCR_HCS | arg;
                        }
                        assert(OCR_VOLTAGE_MASK & 0x00ff_8000 == 0x007f_8000 && OCR_HCS | 0x007f_8000u32
                            == 0x407f_8000) by (bit_vector);
                        self.phase = InitPhase::OpCond;
                        InitAction::Send(CommandOptions::init_cmd(ACMD41, arg, false))
                    },
                    _ => {
                        if resp & OCR_NBUSY == OCR_NBUSY {
                            if resp & OCR_HCS == OCR_HCS {
                                self.card_type = CardType::SDHC;
                            }
                            self.phase = InitPhase::Done(Ok(self.card_type));
                            InitAction::Finished(Ok(self.card_type))
                        } else {
                            self.phase = InitPhase::AppCmd;
                            InitAction::Send(CommandOptions::init_cmd(CMD55, 0, true))
                        }
                    },
                },
            },
        }
    }
}

/// Initialisation finishes, with the card's type, exactly when the card
/// reports the end of its power up; the type is SDHC where the card accepts
/// high capacity, else SD2 where it answered SEND_IF_COND with the echo
/// pattern, else SD1.
pub proof fn lemma_init_success(resp8: u32, resp55: u32, ocr: u32)
    ensures
        ({
            let (p1, t1, a1) = init_next(InitPhase::IfCond, CardType::SD1, Ok(resp8));
            let (p2, t2, a2) = init_next(p1, t1, Ok(resp55));
            let (p3, t3, a3) = init_next(p2, t2, Ok(ocr));
            &&& a1 == InitAction::Send(app_cmd(0))
            &&& a2 == InitAction::Send(op_cond_cmd(type_after_if_cond(CardType::SD1, resp8)))
            &&& ocr & OCR_NBUSY == OCR_NBUSY ==> a3 == InitAction::Finished(Ok(
                if ocr & OCR_HCS == OCR_HCS {
                    CardType::SDHC
                } else if resp8 == 0x1aa {
                    CardType::SD2
                } else {
                    CardType::SD1
                },
            ))
            &&& ocr & OCR_NBUSY != OCR_NBUSY ==> p3 == InitPhase::AppCmd && a3 == InitAction::Send(app_cmd(0))
        }),
{
}

/// An error while initialisation is under way ends it with that error, and
/// once it is over every further step repeats its result.
pub proof fn lemma_init_error_ends(phase: InitPhase, t: CardType, e: Error, event: Result<u32, Error>)
    ensures
        !(phase is Done) ==> init_next(phase, t, Err(e)) == (InitPhase::Done(Err::<CardType, Error>(e)), t, InitAction::Finished(Err(e))),
        phase matches InitPhase::Done(r) ==> init_next(phase, t, event) == (phase, t, InitAction::Finished(r)),
{
}


/// CMD0, the reset command: no argument, no response.
pub open spec fn reset_cmd() -> CommandOptions {
    CommandOptions { cmd: CMD0, arg: 0, data: None, check_crc: false, response: None, auto_stop: false }
}

/// A configuration command with a response of length `r`.
pub open spec fn ctrl(cmd: u8, arg: u32, r: Response) -> CommandOptions {
    CommandOptions { cmd, arg, data: None, check_crc: true, response: Some(r), auto_stop: false }
}

/// A data transfer command.
pub open spec fn data(cmd: u8, arg: u32, dir: DataTransfer, auto_stop: bool) -> CommandOptions {
    CommandOptions { cmd, arg, data: Some(dir), check_crc: true, response: Some(Response::Short), auto_stop }
}

/// Prepares the internal DMA controller for `cnt` blocks described from
/// `desc` on: DMA on and reset, descriptor list base (a word address), byte
/// count, IDMAC reset, FIFO levels and burst size, IDMAC interrupts, IDMAC
/// on with fixed bursts, FIFO reset.
pub open spec fn dma_program(base: u64, desc: u32, cnt: u32) -> Seq<SmhcOp> {
    seq![
        SmhcOp::Reg(RegOp::Modify { addr: (base + SMHC_CTRL) as u64, and_mask: 0xffff_ffff, or_mask: 0x24 }),
        SmhcOp::Reg(RegOp::WaitClear { addr: (base + SMHC_CTRL) as u64, mask: 4 }),
        SmhcOp::Reg(RegOp::Write { addr: (base + SMHC_DLBA) as u64, value: desc / 4 }),
        SmhcOp::Reg(RegOp::Write { addr: (base + SMHC_BYTCNT) as u64, value: (cnt * BLOCK_LEN) as u32 }),
        SmhcOp::Reg(RegOp::Write { addr: (base + SMHC_IDMAC) as u64, value: 1 }),
        SmhcOp::Reg(RegOp::Write { addr: (base + SMHC_FIFOTH) as u64, value: 0x2007_0008 }),
        SmhcOp::Reg(RegOp::Write { addr: (base + SMHC_IDIE) as u64, value: 0x23 }),
        SmhcOp::Reg(RegOp::Write { addr: (base + SMHC_IDMAC) as u64, value: 0x82 }),
    ] + reset_fifo_program(base)
}

/// The descriptor of block `i` of `n`, whose buffer is at `buf`, in a
/// chain of descriptors laid out from `desc_base` on.
pub open spec fn desc_config(i: int, n: int, buf: u32, desc_base: u32) -> DescriptorConfig {
    DescriptorConfig {
        disable_int_on_complete: false,
        first: i == 0,
        last: i == n - 1,
        buff_size: 512,
        buff_addr: buf,
        next_desc: if i == n - 1 {
            None
        } else {
            Some((desc_base + 16 * (i + 1)) as u32)
        },
    }
}

/// Stores the descriptor of `c` at `addr`.
pub open spec fn store_op(addr: u32, c: DescriptorConfig) -> SmhcOp {
    SmhcOp::Store { addr, des0: des0_of(c), des1: c.buff_size as u32, des2: c.buff_addr / 4, des3: des3_of(c) }
}

/// Stores the chain of descriptors of the buffers `bufs`.
pub open spec fn chain_program(desc_base: u32, bufs: Seq<u32>) -> Seq<SmhcOp> {
    Seq::new(
        bufs.len(),
        |i: int| store_op((desc_base + 16 * i) as u32, desc_config(i, bufs.len() as int, bufs[i], desc_base)),
    )
}

/// The end of a data transfer: wait for the IDMAC receive (or transmit)
/// interrupt and acknowledge it, then wait for the data transfer to
/// complete, and for the automatic stop command where there is one.
pub open spec fn transfer_tail(base: u64, write: bool, multi: bool) -> Seq<SmhcOp> {
    let bit: u32 = if write { 1 } else { 2 };
    let tail = seq![
        SmhcOp::Reg(RegOp::WaitSet { addr: (base + SMHC_IDST) as u64, mask: bit }),
        SmhcOp::Reg(RegOp::Write { addr: (base + SMHC_IDST) as u64, value: bit }),
        SmhcOp::WaitInterrupt(Interrupt::DataTransferComplete),
    ];
    if multi {
        tail.push(SmhcOp::WaitInterrupt(Interrupt::AutoCommandDone))
    } else {
        tail
    }
}

pub open spec fn dir_of(write: bool) -> DataTransfer {
    if write {
        DataTransfer::Write
    } else {
        DataTransfer::Read
    }
}

/// Reads (or writes) one block at `sector` from (or to) the buffer at `buf`,
/// with its descriptor at `desc`.
pub open spec fn single_block_program(base: u64, sector: u32, buf: u32, desc: u32, write: bool) -> Seq<SmhcOp> {
    chain_program(desc, seq![buf]) + dma_program(base, desc, 1) + command_cc_program(
        base,
        data(if write { CMD24 } else { CMD17 }, sector, dir_of(write), false),
    ) + transfer_tail(base, write, false)
}

/// One chunk of a multi-block transfer: its descriptors, the DMA set-up,
/// the command with automatic stop, the end of the transfer, and, for a
/// write, waiting until the card has programmed the data.
pub open spec fn chunk_program(base: u64, rca: u32, sector: u32, chunk: Seq<u32>, desc: u32, write: bool) -> Seq<SmhcOp> {
    let p = chain_program(desc, chunk) + dma_program(base, desc, chunk.len() as u32) + command_cc_program(
        base,
        data(if write { CMD25 } else { CMD18 }, sector, dir_of(write), true),
    ) + transfer_tail(base, write, true);
    if write {
        p.push(SmhcOp::WaitCardReady { rca })
    } else {
        p
    }
}

/// A multi-block transfer of the buffers `bufs` from `sector` on, in
/// chunks of at most 16 blocks.
pub open spec fn blocks_program(base: u64, rca: u32, sector: u32, bufs: Seq<u32>, desc: u32, write: bool) -> Seq<SmhcOp>
    decreases bufs.len(),
{
    if bufs.len() == 0 {
        seq![]
    } else {
        let n = if bufs.len() < 16 { bufs.len() as int } else { 16 };
        chunk_program(base, rca, sector, bufs.take(n), desc, write) + blocks_program(
            base,
            rca,
            (sector + n) as u32,
            bufs.skip(n),
            desc,
            write,
        )
    }
}

/// Byte `k` (0 is the lowest) of `w`.
pub open spec fn byte_of(w: u32, k: int) -> u8 {
    ((w as int / pow256(k)) % 256) as u8
}

pub open spec fn pow256(k: int) -> int {
    if k == 0 {
        1
    } else if k == 1 {
        0x100
    } else if k == 2 {
        0x1_0000
    } else {
        0x100_0000
    }
}

/// The card specific data of a long response whose words are `d0` (lowest)
/// to `d3`: most significant byte first.
pub open spec fn csd_bytes(d0: u32, d1: u32, d2: u32, d3: u32) -> Seq<u8> {
    seq![
        byte_of(d3, 3), byte_of(d3, 2), byte_of(d3, 1), byte_of(d3, 0),
        byte_of(d2, 3), byte_of(d2, 2), byte_of(d2, 1), byte_of(d2, 0),
        byte_of(d1, 3), byte_of(d1, 2), byte_of(d1, 1), byte_of(d1, 0),
        byte_of(d0, 3), byte_of(d0, 2), byte_of(d0, 1), byte_of(d0, 0),
    ]
}

fn le_bytes(w: u32) -> (r: (u8, u8, u8, u8))
    ensures
        r == (byte_of(w, 0), byte_of(w, 1), byte_of(w, 2), byte_of(w, 3)),
{
    let b0 = (w & 0xff) as u8;
    let b1 = ((w >> 8u32) & 0xff) as u8;
    let b2 = ((w >> 16u32) & 0xff) as u8;
    let b3 = (w >> 24u32) as u8;
    assert(w & 0xff == w % 256 && (w >> 8u32) & 0xff == (w / 0x100) % 256 && (w >> 16u32) & 0xff
        == (w / 0x1_0000) % 256 && w >> 24u32 == (w / 0x100_0000) % 256) by (bit_vector);
    (b0, b1, b2, b3)
}

/// The card specific data from the four words of the long response to
/// SEND_CSD.
pub fn csd_from_response(d0: u32, d1: u32, d2: u32, d3: u32) -> (r: [u8; 16])
    ensures
        r@ == csd_bytes(d0, d1, d2, d3),
{
    let (a0, a1, a2, a3) = le_bytes(d0);
    let (b0, b1, b2, b3) = le_bytes(d1);
    let (c0, c1, c2, c3) = le_bytes(d2);
    let (e0, e1, e2, e3) = le_bytes(d3);
    let r = [e3, e2, e1, e0, c3, c2, c1, c0, b3, b2, b1, b0, a3, a2, a1, a0];
    assert(r@ =~= csd_bytes(d0, d1, d2, d3));
    r
}

/// The card specific data type of embedded-sdmmc, carried through opaquely.
#[verifier::external_type_specification]
#[verifier::external_body]
pub struct ExCsd(embedded_sdmmc::embedded_sdmmc_types::sdcard::csd::Csd);

/// The version 2 CSD that `CsdV2::from_be_bytes` builds from `raw`.
pub uninterp spec fn csd_v2_of(raw: Seq<u8>) -> Csd;

/// `CsdV2::from_be_bytes` of embedded-sdmmc, wrapped as `Csd::V2`: the
/// CSD register whose 128 bits are `raw`, most significant byte first.  The
/// result depends on the bytes alone; what its fields hold is not stated.
#[verifier::external_body]
fn csd_v2_from_be_bytes(raw: &[u8; 16]) -> (r: Csd)
    ensures
        r == csd_v2_of(raw@),
{
    Csd::V2(CsdV2::from_be_bytes(raw))
}

/// The card specific data of the long response to SEND_CSD, read as a
/// version 2 (SDHC/SDXC) CSD.
pub fn csd_v2_from_response(d0: u32, d1: u32, d2: u32, d3: u32) -> (r: Csd)
    ensures
        r == csd_v2_of(csd_bytes(d0, d1, d2, d3)),
{
    let raw = csd_from_response(d0, d1, d2, d3);
    csd_v2_from_be_bytes(&raw)
}

/// Whether a SEND_STATUS response says that the card is still programming.
pub fn still_programming(resp: u32) -> (r: bool)
    ensures
        r == (card::state_of((resp >> 9u32) & 0xf) == CardCurrentState::Prg),
{
    let s = CardStatus::new(resp);
    let st = s.current_state();
    match st {
        CardCurrentState::Prg => true,
        _ => false,
    }
}

fn push_store(ops: &mut Vec<SmhcOp>, addr: u32, d: &Descriptor, Ghost(c): Ghost<DescriptorConfig>)
    requires
        d.describes(c),
    ensures
        final(ops)@ == old(ops)@.push(store_op(addr, c)),
{
    let (w0, w1, w2, w3) = d.words();
    ops.push(SmhcOp::Store { addr, des0: w0, des1: w1, des2: w2, des3: w3 });
}

/// The descriptors of the blocks `bufs[start..start + n]`, chained from
/// `desc_base` on.
fn chunk_descriptors(bufs: &[u32], start: usize, n: usize, desc_base: u32) -> (r: Result<Vec<Descriptor>, Error>)
    requires
        1 <= n,
        start + n <= bufs@.len(),
        start + n <= usize::MAX,
        desc_base + 16 * n <= u32::MAX,
    ensures
        r is Ok,
        r->Ok_0@.len() == n,
        forall|i: int| 0 <= i < n ==> (#[trigger] r->Ok_0@[i]).describes(
            desc_config(i, n as int, bufs@[start + i], desc_base),
        ),
{
    let mut descriptors: Vec<Descriptor> = Vec::new();
    let mut i: usize = 0;
    while i < n
        invariant
            i <= n,
            1 <= n,
            start + n <= bufs@.len(),
            start + n <= usize::MAX,
            desc_base + 16 * n <= u32::MAX,
            descriptors@.len() == i,
            forall|j: int| 0 <= j < i ==> (#[trigger] descriptors@[j]).describes(
                desc_config(j, n as int, bufs@[start + j], desc_base),
            ),
        decreases n - i,
    {
        let next_desc = if i == n - 1 {
            None
        } else {
            Some(desc_base + 16 * (i as u32 + 1))
        };
        let config = DescriptorConfig {
            disable_int_on_complete: false,
            first: i == 0,
            last: i == n - 1,
            buff_size: 512,
            buff_addr: bufs[start + i],
            next_desc,
        };
        assert(config == desc_config(i as int, n as int, bufs@[start + i], desc_base));
        match Descriptor::try_from(config) {
            Ok(d) => descriptors.push(d),
            Err(e) => {
                return Err(Error::Dma(e));
            },
        }
        i = i + 1;
    }
    Ok(descriptors)
}

/// The descriptors of the blocks whose buffers are at `blocks`, chained
/// from `desc_base` on: the first one flagged first, the last one flagged
/// last and ending the chain.
pub fn blocks_to_descriptors(blocks: &[u32], desc_base: u32) -> (r: Result<Vec<Descriptor>, Error>)
    requires
        1 <= blocks@.len(),
        desc_base + 16 * blocks@.len() <= u32::MAX,
    ensures
        r is Ok,
        r->Ok_0@.len() == blocks@.len(),
        forall|i: int| 0 <= i < blocks@.len() ==> (#[trigger] r->Ok_0@[i]).describes(
            desc_config(i, blocks@.len() as int, blocks@[i], desc_base),
        ),
{
    chunk_descriptors(blocks, 0, blocks.len(), desc_base)
}

impl<SMHC: Instance> Smhc<SMHC> {
    /// Appends the program that resets the card (CMD0) and then the FIFO.
    pub fn reset_card(&self, ops: &mut Vec<SmhcOp>)
        ensures
            final(ops)@ == old(ops)@ + command_cc_program(SMHC::base(), reset_cmd()) + reset_fifo_program(SMHC::base()),
    {
        let ghost start = ops@;
        self.command_cc(CommandOptions::default(), ops);
        self.reset_fifo(ops);
        assert(ops@ == start + command_cc_program(SMHC::base(), reset_cmd()) + reset_fifo_program(SMHC::base()));
    }

    /// Appends the program that asks for the card identification register.
    pub fn get_cid(&self, ops: &mut Vec<SmhcOp>)
        ensures
            final(ops)@ == old(ops)@ + command_cc_program(SMHC::base(), ctrl(CMD2, 0, Response::Long)),
    {
        self.command_cc(CommandOptions::ctrl_cmd(CMD2, 0, Response::Long), ops);
    }

    /// Appends the program that asks for the relative card address; the
    /// first response word is then handed to `card`.
    pub fn get_rca(&self, ops: &mut Vec<SmhcOp>)
        ensures
            final(ops)@ == old(ops)@ + command_cc_program(SMHC::base(), ctrl(CMD3, 0, Response::Short)),
    {
        self.command_cc(CommandOptions::ctrl_cmd(CMD3, 0, Response::Short), ops);
    }

    /// The card whose relative address (stuff bits included) is `resp`.
    pub fn card<'a>(&'a self, resp: u32) -> (c: Card<'a, SMHC>)
        ensures
            c.rca() == resp,
    {
        Card { smhc: self, rca: resp }
    }
}

impl<'a, SMHC: Instance> Card<'a, SMHC> {
    pub closed spec fn rca(&self) -> u32 {
        self.rca
    }

    /// The relative card address.
    pub fn address(&self) -> (r: u32)
        ensures
            r == self.rca(),
    {
        self.rca
    }

    /// Appends the program that asks for the card specific data, whose four
    /// response words then go to `csd_from_response`.
    pub fn get_csd(&self, ops: &mut Vec<SmhcOp>)
        ensures
            final(ops)@ == old(ops)@ + command_cc_program(SMHC::base(), ctrl(CMD9, self.rca(), Response::Long)),
    {
        self.smhc.command_cc(CommandOptions::ctrl_cmd(CMD9, self.rca, Response::Long), ops);
    }

    /// Appends the program that asks for the card status, whose first
    /// response word is the status (`CardStatus::new`).
    pub fn get_status(&self, ops: &mut Vec<SmhcOp>)
        ensures
            final(ops)@ == old(ops)@ + command_cc_program(SMHC::base(), ctrl(CMD13, self.rca(), Response::Short)),
    {
        self.smhc.command_cc(CommandOptions::ctrl_cmd(CMD13, self.rca, Response::Short), ops);
    }

    /// Appends the program that toggles the card between stand-by and
    /// transfer state; the first response word is the card status.
    pub fn select(&self, ops: &mut Vec<SmhcOp>)
        ensures
            final(ops)@ == old(ops)@ + command_cc_program(SMHC::base(), ctrl(CMD7, self.rca(), Response::Short)),
    {
        self.smhc.command_cc(CommandOptions::ctrl_cmd(CMD7, self.rca, Response::Short), ops);
    }

    /// Appends the program that switches the card and the controller to 4
    /// data lanes; the first response word is then the card status.
    pub fn set_wide_bus(&self, ops: &mut Vec<SmhcOp>)
        ensures
            final(ops)@ == old(ops)@ + command_cc_program(SMHC::base(), app_cmd(self.rca()))
                + command_cc_program(SMHC::base(), ctrl(ACMD6, 2, Response::Short))
                + seq![SmhcOp::Reg(RegOp::Write { addr: (SMHC::base() + SMHC_CTYPE) as u64, value: 1 })],
    {
        let ghost start = ops@;
        let base = SMHC::base_addr();
        self.smhc.command_cc(CommandOptions::init_cmd(CMD55, self.rca, true), ops);
        self.smhc.command_cc(CommandOptions::ctrl_cmd(ACMD6, 0b10, Response::Short), ops);
        push_reg(ops, RegOp::Write { addr: base + SMHC_CTYPE, value: 1 });
        assert(ops@ == start + command_cc_program(SMHC::base(), app_cmd(self.rca()))
            + command_cc_program(SMHC::base(), ctrl(ACMD6, 2, Response::Short))
            + seq![SmhcOp::Reg(RegOp::Write { addr: (SMHC::base() + SMHC_CTYPE) as u64, value: 1 })]);
    }

    /// Appends the program that prepares the internal DMA controller for
    /// `block_cnt` blocks described from `desc` on.
    fn prepare_for_dma(&self, desc: u32, block_cnt: u32, ops: &mut Vec<SmhcOp>)
        requires
            block_cnt * BLOCK_LEN <= u32::MAX,
        ensures
            final(ops)@ == old(ops)@ + dma_program(SMHC::base(), desc, block_cnt),
    {
        let base = SMHC::base_addr();
        let ghost start = ops@;
        push_reg(ops, RegOp::Modify { addr: base + SMHC_CTRL, and_mask: 0xffff_ffff, or_mask: 0x24 });
        push_reg(ops, RegOp::WaitClear { addr: base + SMHC_CTRL, mask: 4 });
        push_reg(ops, RegOp::Write { addr: base + SMHC_DLBA, value: desc >> 2u32 });
        push_reg(ops, RegOp::Write { addr: base + SMHC_BYTCNT, value: block_cnt * BLOCK_LEN });
        push_reg(ops, RegOp::Write { addr: base + SMHC_IDMAC, value: 1 });
        push_reg(ops, RegOp::Write { addr: base + SMHC_FIFOTH, value: 0x2007_0008 });
        push_reg(ops, RegOp::Write { addr: base + SMHC_IDIE, value: 0x23 });
        push_reg(ops, RegOp::Write { addr: base + SMHC_IDMAC, value: 0x82 });
        self.smhc.reset_fifo(ops);
        assert(desc >> 2u32 == desc / 4) by (bit_vector);
        assert(ops@ =~= start + dma_program(SMHC::base(), desc, block_cnt));
    }

    fn transfer_end(&self, write: bool, multi: bool, ops: &mut Vec<SmhcOp>)
        ensures
            final(ops)@ == old(ops)@ + transfer_tail(SMHC::base(), write, multi),
    {
        let base = SMHC::base_addr();
        let ghost start = ops@;
        let bit: u32 = if write { 1 } else { 2 };
        push_reg(ops, RegOp::WaitSet { addr: base + SMHC_IDST, mask: bit });
        push_reg(ops, RegOp::Write { addr: base + SMHC_IDST, value: bit });
        ops.push(SmhcOp::WaitInterrupt(Interrupt::DataTransferComplete));
        if multi {
            ops.push(SmhcOp::WaitInterrupt(Interrupt::AutoCommandDone));
        }
        assert(ops@ =~= start + transfer_tail(SMHC::base(), write, multi));
    }

    /// Appends the program that stores a chain of descriptors.
    fn store_chain(&self, descs: &Vec<Descriptor>, bufs: &[u32], start: usize, desc: u32, ops: &mut Vec<SmhcOp>)
        requires
            1 <= descs@.len(),
            start + descs@.len() <= bufs@.len(),
            desc + 16 * descs@.len() <= u32::MAX,
            forall|i: int| 0 <= i < descs@.len() ==> (#[trigger] descs@[i]).describes(
                desc_config(i, descs@.len() as int, bufs@[start + i], desc),
            ),
        ensures
            final(ops)@ == old(ops)@ + chain_program(desc, bufs@.subrange(start as int, start + descs@.len())),
    {
        let ghost s0 = ops@;
        let ghost chunk = bufs@.subrange(start as int, start + descs@.len());
        let mut i: usize = 0;
        while i < descs.len()
            invariant
                i <= descs@.len(),
                start + descs@.len() <= bufs@.len(),
                desc + 16 * descs@.len() <= u32::MAX,
                chunk == bufs@.subrange(start as int, start + descs@.len()),
                forall|k: int| 0 <= k < descs@.len() ==> (#[trigger] descs@[k]).describes(
                    desc_config(k, descs@.len() as int, bufs@[start + k], desc),
                ),
                ops@ =~= s0 + chain_program(desc, chunk).take(i as int),
            decreases descs@.len() - i,
        {
            let addr = desc + 16 * i as u32;
            push_store(ops, addr, &descs[i], Ghost(desc_config(i as int, descs@.len() as int, bufs@[start + i], desc)));
            assert(chain_program(desc, chunk).take(i + 1) =~= chain_program(desc, chunk).take(i as int).push(
                chain_program(desc, chunk)[i as int],
            ));
            i = i + 1;
        }
        assert(chain_program(desc, chunk).take(descs@.len() as int) =~= chain_program(desc, chunk));
    }

    /// Appends the program that reads a single block at the given sector
    /// address into the buffer at `buf`, with its descriptor at `desc`.
    pub fn read_block(&self, sector: u32, buf: u32, desc: u32, ops: &mut Vec<SmhcOp>) -> (r: Result<(), Error>)
        requires
            desc + 16 <= u32::MAX,
        ensures
            r is Ok,
            final(ops)@ == old(ops)@ + single_block_program(SMHC::base(), sector, buf, desc, false),
    {
        self.single_block(sector, buf, desc, false, ops)
    }

    /// Appends the program that writes a single block at the given sector
    /// address from the buffer at `buf`, with its descriptor at `desc`.
    pub fn write_block(&self, sector: u32, buf: u32, desc: u32, ops: &mut Vec<SmhcOp>) -> (r: Result<(), Error>)
        requires
            desc + 16 <= u32::MAX,
        ensures
            r is Ok,
            final(ops)@ == old(ops)@ + single_block_program(SMHC::base(), sector, buf, desc, true),
    {
        self.single_block(sector, buf, desc, true, ops)
    }

    fn single_block(&self, sector: u32, buf: u32, desc: u32, write: bool, ops: &mut Vec<SmhcOp>) -> (r: Result<(), Error>)
        requires
            desc + 16 <= u32::MAX,
        ensures
            r is Ok,
            final(ops)@ == old(ops)@ + single_block_program(SMHC::base(), sector, buf, desc, write),
    {
        let ghost s0 = ops@;
        let bufs = [buf];
        let descs = match chunk_descriptors(&bufs, 0, 1, desc) {
            Ok(d) => d,
            Err(e) => {
                return Err(e);
            },
        };
        self.store_chain(&descs, &bufs, 0, desc, ops);
        assert(bufs@.subrange(0, 1) =~= seq![buf]);
        self.prepare_for_dma(desc, 1, ops);
        let opts = if write {
            CommandOptions::data_cmd(CMD24, sector, DataTransfer::Write, false)
        } else {
            CommandOptions::data_cmd(CMD17, sector, DataTransfer::Read, false)
        };
        self.smhc.command_cc(opts, ops);
        self.transfer_end(write, false, ops);
        assert(ops@ =~= s0 + single_block_program(SMHC::base(), sector, buf, desc, write));
        Ok(())
    }

    /// Appends the program that reads a series of blocks, starting at the
    /// given sector address, into the buffers at `bufs`, with the
    /// descriptors laid out from `desc` on (room for 16).
    pub fn read_blocks(&self, sector: u32, bufs: &[u32], desc: u32, ops: &mut Vec<SmhcOp>) -> (r: Result<(), Error>)
        requires
            sector + bufs@.len() <= u32::MAX,
            desc + 16 * 16 <= u32::MAX,
        ensures
            r is Ok,
            final(ops)@ == old(ops)@ + blocks_program(SMHC::base(), self.rca(), sector, bufs@, desc, false),
    {
        self.blocks(sector, bufs, desc, false, ops)
    }

    /// Appends the program that writes a series of blocks, starting at the
    /// given sector address, from the buffers at `bufs`, with the
    /// descriptors laid out from `desc` on (room for 16); after each chunk
    /// it waits until the card has programmed the data.
    pub fn write_blocks(&self, sector: u32, bufs: &[u32], desc: u32, ops: &mut Vec<SmhcOp>) -> (r: Result<(), Error>)
        requires
            sector + bufs@.len() <= u32::MAX,
            desc + 16 * 16 <= u32::MAX,
        ensures
            r is Ok,
            final(ops)@ == old(ops)@ + blocks_program(SMHC::base(), self.rca(), sector, bufs@, desc, true),
    {
        self.blocks(sector, bufs, desc, true, ops)
    }

    #[verifier::rlimit(40)]
    fn blocks(&self, sector: u32, bufs: &[u32], desc: u32, write: bool, ops: &mut Vec<SmhcOp>) -> (r: Result<(), Error>)
        requires
            sector + bufs@.len() <= u32::MAX,
            desc + 16 * 16 <= u32::MAX,
        ensures
            r is Ok,
            final(ops)@ == old(ops)@ + blocks_program(SMHC::base(), self.rca(), sector, bufs@, desc, write),
    {
        let ghost s0 = ops@;
        let mut current_sector = sector;
        let mut done: usize = 0;
        assert(bufs@.skip(0) =~= bufs@);
        while done < bufs.len()
            invariant
                done <= bufs@.len(),
                current_sector == sector + done,
                sector + bufs@.len() <= u32::MAX,
                desc + 16 * 16 <= u32::MAX,
                s0 + blocks_program(SMHC::base(), self.rca(), sector, bufs@, desc, write)
                    =~= ops@ + blocks_program(SMHC::base(), self.rca(), current_sector, bufs@.skip(done as int), desc, write),
            decreases bufs@.len() - done,
        {
            let n: usize = if bufs.len() - done < 16 { bufs.len() - done } else { 16 };
            let ghost rest = bufs@.skip(done as int);
            let ghost before = ops@;
            let descs = match chunk_descriptors(bufs, done, n, desc) {
                Ok(d) => d,
                Err(e) => {
                    return Err(e);
                },
            };
            self.store_chain(&descs, bufs, done, desc, ops);
            self.prepare_for_dma(desc, n as u32, ops);
            let opts = if write {
                CommandOptions::data_cmd(CMD25, current_sector, DataTransfer::Write, true)
            } else {
                CommandOptions::data_cmd(CMD18, current_sector, DataTransfer::Read, true)
            };
            self.smhc.command_cc(opts, ops);
            self.transfer_end(write, true, ops);
            if write {
                ops.push(SmhcOp::WaitCardReady { rca: self.rca });
            }
            assert(rest.take(n as int) =~= bufs@.subrange(done as int, done + n));
            assert(rest.skip(n as int) =~= bufs@.skip(done + n));
            assert(ops@ =~= before + chunk_program(SMHC::base(), self.rca(), current_sector, rest.take(n as int), desc, write));
            current_sector = current_sector + n as u32;
            done = done + n;
        }
        assert(bufs@.skip(done as int) =~= Seq::<u32>::empty());
        Ok(())
    }
}

/// The error bits of the raw interrupt status.
pub open spec fn error_bits() -> u32 {
    0xbfc2
}

/// While the controller flags an error, waiting for any interrupt ends
/// with an error; with no error flagged, it ends well exactly when all the
/// bits waited for are set.
pub proof fn lemma_outcome_errors_first(rint: u32, want: u32)
    ensures
        rint & error_bits() != 0 ==> outcome(rint, want) matches Some(Err(_)),
        rint & error_bits() == 0 ==> (outcome(rint, want) == Some(Ok::<(), Error>(()))
            <==> rint & want == want),
        rint & error_bits() == 0 ==> (outcome(rint, want) is None <==> rint & want != want),
{
    assert(rint & 0xbfc2 != 0 <==> (rint & 0x100 != 0 || rint & 0x40 != 0 || rint & 0x2 != 0
        || rint & 0x400 != 0 || rint & 0x200 != 0 || rint & 0x80 != 0 || rint & 0x800 != 0
        || rint & 0x1000 != 0 || rint & 0x2000 != 0 || rint & 0x8000 != 0)) by (bit_vector);
}

/// In a chain of descriptors every descriptor is handed to the controller,
/// only the first is flagged first, only the last is flagged last, and each
/// one but the last points at the next (by word address) while the last
/// ends the chain.
pub proof fn lemma_chain_links(i: int, n: int, buf: u32, desc_base: u32)
    requires
        0 <= i < n,
        desc_base + 16 * n <= u32::MAX,
    ensures
        des0_of(desc_config(i, n, buf, desc_base)) >= 0x8000_0000,
        (des0_of(desc_config(i, n, buf, desc_base)) & 8 != 0) <==> i == 0,
        (des0_of(desc_config(i, n, buf, desc_base)) & 4 != 0) <==> i == n - 1,
        i < n - 1 ==> des3_of(desc_config(i, n, buf, desc_base)) == (desc_base + 16 * (i + 1)) / 4,
        i == n - 1 ==> des3_of(desc_config(i, n, buf, desc_base)) == 0,
{
    let c = desc_config(i, n, buf, desc_base);
    let f = i == 0;
    let l = i == n - 1;
    let v = des0_of(c);
    assert(v == (((if l { 4u32 } else { 0u32 }) + (if f { 8u32 } else { 0u32 })) + 0x8000_0010u32) as u32);
    let a: u32 = if l { 4u32 } else { 0u32 };
    let b: u32 = if f { 8u32 } else { 0u32 };
    assert((a == 0 || a == 4) && (b == 0 || b == 8) ==> {
        let w = (a + b + 0x8000_0010u32) as u32;
        &&& (w & 8 != 0) == (b == 8)
        &&& (w & 4 != 0) == (a == 4)
    }) by (bit_vector);
}

/// A single-block read asks the card for READ_SINGLE_BLOCK (index 17) and
/// a single-block write for WRITE_BLOCK (index 24): after the descriptor
/// and the DMA set-up, the program writes the sector to the command
/// argument register and then a command word whose index field (bits 5:0)
/// is 17 or 24, which starts the command (bit 31), expects a data transfer
/// (bit 9) in the read direction for a read and the write direction (bit
/// 10) for a write, and a short response (bit 6) with its CRC checked (bit
/// 8).
pub proof fn lemma_single_block_command(base: u64, sector: u32, buf: u32, desc: u32, write: bool)
    requires
        base + SMHC_IDST <= u64::MAX,
    ensures
        ({
            let p = single_block_program(base, sector, buf, desc, write);
            let w: u32 = if write { 0x8000_2758 } else { 0x8000_2351 };
            &&& p.len() == 17
            &&& p[11] == SmhcOp::Reg(RegOp::Write { addr: (base + 0x1c) as u64, value: sector })
            &&& p[12] == SmhcOp::Reg(RegOp::Write { addr: (base + 0x18) as u64, value: w })
            &&& w & 0x3f == (if write { 24u32 } else { 17u32 })
            &&& w & 0x8000_0000 != 0
            &&& w & 0x200 != 0
            &&& (w & 0x400 != 0) == write
            &&& w & 0x40 != 0 && w & 0x80 == 0 && w & 0x100 != 0
        }),
{
    let p = single_block_program(base, sector, buf, desc, write);
    let o = data(if write { CMD24 } else { CMD17 }, sector, dir_of(write), false);
    assert(cmd_word(o) == if write { 0x8000_2758u32 } else { 0x8000_2351u32 });
    assert(0x8000_2758u32 & 0x3f == 24 && 0x8000_2351u32 & 0x3f == 17 && 0x8000_2758u32 & 0x8000_0000 != 0
        && 0x8000_2351u32 & 0x8000_0000 != 0 && 0x8000_2758u32 & 0x200 != 0 && 0x8000_2351u32 & 0x200 != 0
        && 0x8000_2758u32 & 0x400 != 0 && 0x8000_2351u32 & 0x400 == 0 && 0x8000_2758u32 & 0x40 != 0
        && 0x8000_2351u32 & 0x40 != 0 && 0x8000_2758u32 & 0x80 == 0 && 0x8000_2351u32 & 0x80 == 0
        && 0x8000_2758u32 & 0x100 != 0 && 0x8000_2351u32 & 0x100 != 0) by (bit_vector);
    let c = chain_program(desc, seq![buf]);
    let d = dma_program(base, desc, 1);
    let cc = command_cc_program(base, o);
    let t = transfer_tail(base, write, false);
    assert(c.len() == 1);
    assert(d.len() == 10);
    assert(cc.len() == 3);
    assert(t.len() == 3);
    assert(p == c + d + cc + t);
    assert(p[11] == cc[0]);
    assert(p[12] == cc[1]);
}

} // verus!
