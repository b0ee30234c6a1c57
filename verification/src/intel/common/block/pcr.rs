//! Private configuration register (PCR) access through the P2SB bridge, and
//! the sideband-interface (SBI) message protocol.
use vstd::prelude::*;
use crate::mmio::{Mmio, rmw_value, w32};
use crate::intel::Error;

verus! {

pub const CONFIG_PCR_BASE_ADDRESS: u64 = 0xd000_0000;
pub const PCR_PORTID_SHIFT: u64 = 16;
/// Milliseconds to wait for the P2SB to finish an SBI operation.
pub const PCR_SBI_CMD_TIMEOUT: u32 = 10;
pub const P2SB_CR_SBI_STATUS: u32 = 0xd8;
pub const P2SB_CR_SBI_STATUS_BUSY: u32 = 1;
pub const P2SB_CR_SBI_STATUS_NOT_SUPPORTED: u32 = 1;
pub const P2SB_CR_SBI_ADDR: u32 = 0xd0;
pub const P2SB_CR_SBI_DESTID: u32 = 24;
pub const P2SB_CR_SBI_EXT_ADDR: u32 = 0xdc;
pub const P2SB_CR_SBI_MASK: u32 = 0x7;
pub const P2SB_CR_SBI_FBE_MASK: u32 = 0xf;
pub const P2SB_CR_SBI_FID_MASK: u32 = 0xff;
pub const P2SB_CR_SBI_OPCODE_MASK: u32 = 0xff00;
pub const P2SB_CR_SBI_POSTED_MASK: u32 = 0x0080;
pub const P2SB_CR_SBI_STATUS_MASK: u32 = 0x0006;
pub const P2SB_CR_SBI_STATUS_SUCCESS: u32 = 0;
pub const P2SB_CR_SBI_BAR: u32 = 8;
pub const P2SB_CR_SBI_DATA: u32 = 0xd4;
pub const P2SB_CR_SBI_FBE: u32 = 12;
pub const P2SB_CR_SBI_OPCODE: u32 = 8;
pub const P2SB_CR_SBI_POSTED: u32 = 7;
pub const P2SB_CR_SBI_ROUTE_IDEN: u32 = 0xda;
/// Offset of the vendor identifier in PCI configuration space.
pub const PCI_VENDOR_ID: u16 = 0x00;

/// Address of PCR register `offset` of port `pid`.
pub open spec fn spec_pcr_reg_address(pid: u8, offset: u16) -> u64 {
    (CONFIG_PCR_BASE_ADDRESS + (pid as int) * 0x10000 + offset) as u64
}

pub fn __pcr_reg_address(pid: u8, offset: u16) -> (a: u64)
    ensures
        a == spec_pcr_reg_address(pid, offset),
{
    let mut reg_addr: u64 = CONFIG_PCR_BASE_ADDRESS;
    assert((pid as u64) << 16u64 == (pid as u64) * 0x10000) by (bit_vector)
        requires
            pid < 256,
    ;
    reg_addr = reg_addr + ((pid as u64) << 16u64);
    reg_addr = reg_addr + offset as u64;
    reg_addr
}

/// 32-bit PCR read; the offset must be 4-byte aligned.
pub fn pcr_read32(pcr: &Mmio, pid: u8, offset: u16) -> (v: u32)
    requires
        offset % 4 == 0,
    ensures
        v == pcr.value(spec_pcr_reg_address(pid, offset)),
{
    pcr.read32(__pcr_reg_address(pid, offset))
}

/// 32-bit PCR write; the offset must be 4-byte aligned.  The write is
/// followed by a read of the same register to make sure it has completed.
pub fn pcr_write32(pcr: &mut Mmio, pid: u8, offset: u16, indata: u32)
    requires
        offset % 4 == 0,
    ensures
        final(pcr).regs() == old(pcr).regs().insert(spec_pcr_reg_address(pid, offset), indata),
        final(pcr).writes() == old(pcr).writes().push(w32(spec_pcr_reg_address(pid, offset), indata)),
{
    pcr.write32(__pcr_reg_address(pid, offset), indata);
    write_completion(pcr, pid, offset);
}

/// Reads back the (aligned) register just written so that a posted write
/// has reached the device.
pub fn write_completion(pcr: &Mmio, pid: u8, offset: u16) {
    let aligned = offset - offset % 4;
    let _ = pcr.read32(__pcr_reg_address(pid, aligned));
}

/// Read-modify-write of a PCR register: `(old & anddata) | ordata`.
pub fn pcr_rmw32(pcr: &mut Mmio, pid: u8, offset: u16, anddata: u32, ordata: u32)
    requires
        offset % 4 == 0,
    ensures
        ({
            let a = spec_pcr_reg_address(pid, offset);
            let v = rmw_value(old(pcr).value(a), anddata, ordata);
            &&& final(pcr).regs() == old(pcr).regs().insert(a, v)
            &&& final(pcr).writes() == old(pcr).writes().push(w32(a, v))
        }),
{
    let mut data32 = pcr_read32(pcr, pid, offset);
    data32 = data32 & anddata;
    data32 = data32 | ordata;
    pcr_write32(pcr, pid, offset, data32);
}

/// Sets the bits of `ordata` in a PCR register.
pub fn pcr_or32(pcr: &mut Mmio, pid: u8, offset: u16, ordata: u32)
    requires
        offset % 4 == 0,
    ensures
        ({
            let a = spec_pcr_reg_address(pid, offset);
            let v = old(pcr).value(a) | ordata;
            &&& final(pcr).regs() == old(pcr).regs().insert(a, v)
            &&& final(pcr).writes() == old(pcr).writes().push(w32(a, v))
        }),
{
    let mut data32 = pcr_read32(pcr, pid, offset);
    data32 = data32 | ordata;
    pcr_write32(pcr, pid, offset, data32);
}

} // verus!

verus! {

/// Operation carried by a sideband message.
#[derive(Debug, Clone, Copy, PartialEq, Eq, Structural)]
pub enum PcrSbiOpcode {
    MemRead,
    MemWrite,
    PciConfigRead,
    PciConfigWrite,
    PcrRead,
    PcrWrite,
    GpioLockUnlock,
}

impl PcrSbiOpcode {
    pub open spec fn spec_code(self) -> u16 {
        match self {
            PcrSbiOpcode::MemRead => 0x00,
            PcrSbiOpcode::MemWrite => 0x01,
            PcrSbiOpcode::PciConfigRead => 0x04,
            PcrSbiOpcode::PciConfigWrite => 0x05,
            PcrSbiOpcode::PcrRead => 0x06,
            PcrSbiOpcode::PcrWrite => 0x07,
            PcrSbiOpcode::GpioLockUnlock => 0x13,
        }
    }

    /// Opcode number as placed in SBISTAT[15:8].
    pub fn code(&self) -> (c: u16)
        ensures
            c == self.spec_code(),
    {
        match self {
            PcrSbiOpcode::MemRead => 0x00,
            PcrSbiOpcode::MemWrite => 0x01,
            PcrSbiOpcode::PciConfigRead => 0x04,
            PcrSbiOpcode::PciConfigWrite => 0x05,
            PcrSbiOpcode::PcrRead => 0x06,
            PcrSbiOpcode::PcrWrite => 0x07,
            PcrSbiOpcode::GpioLockUnlock => 0x13,
        }
    }

    /// The opcodes that the P2SB accepts (memory reads are refused).
    pub open spec fn spec_is_supported(self) -> bool {
        !(self is MemRead)
    }

    /// Opcodes whose message carries data to the target.
    pub open spec fn spec_sends_data(self) -> bool {
        self is MemWrite || self is PciConfigWrite || self is PcrWrite || self is GpioLockUnlock
    }

    /// Opcodes whose completion carries data back.
    pub open spec fn spec_returns_data(self) -> bool {
        self is MemRead || self is PciConfigRead || self is PcrRead
    }
}

/// A sideband message.
#[derive(Clone, Copy)]
pub struct PcrSbiMsg {
    /// Port ID of the SBI message
    pub pid: u8,
    /// Register offset of the SBI message
    pub offset: u32,
    pub opcode: PcrSbiOpcode,
    /// Posted message
    pub is_posted: bool,
    /// First Byte Enable
    pub fast_byte_enable: u16,
    /// Base address
    pub bar: u16,
    /// Function ID
    pub fid: u16,
}

/// Value for the SBI address register: destination port in bits 31:24 and
/// the register offset below.
pub open spec fn spec_sbi_addr(msg: PcrSbiMsg) -> u32 {
    ((msg.pid as u32) << 24u32) | msg.offset
}

/// SBISTAT with the opcode and posted fields replaced by those of `msg`.
pub open spec fn spec_sbi_status(old_status: u16, msg: PcrSbiMsg) -> u16 {
    (old_status & 0x007f) | (msg.opcode.spec_code() << 8u16) | ((if msg.is_posted {
        1u16
    } else {
        0u16
    }) << 7u16)
}

/// Route identification: first byte enables in 15:12, BAR in 10:8, FID in 7:0.
pub open spec fn spec_sbi_rid(msg: PcrSbiMsg) -> u16 {
    ((msg.fast_byte_enable & 0xf) << 12u16) | ((msg.bar & 0x7) << 8u16) | (msg.fid & 0xff)
}

/// Transaction status in SBISTAT[2:1].
pub open spec fn spec_sbi_response(status: u16) -> u8 {
    ((status & 0x6) >> 1u16) as u8
}

pub fn sbi_addr(msg: &PcrSbiMsg) -> (v: u32)
    ensures
        v == spec_sbi_addr(*msg),
{
    ((msg.pid as u32) << 24u32) | msg.offset
}

pub fn sbi_status(old_status: u16, msg: &PcrSbiMsg) -> (v: u16)
    ensures
        v == spec_sbi_status(old_status, *msg),
{
    let mut s = old_status;
    s = s & (!(P2SB_CR_SBI_OPCODE_MASK | P2SB_CR_SBI_POSTED_MASK) as u16);
    assert(s == old_status & 0x007f) by (bit_vector)
        requires
            s == old_status & ((!(0xff00u32 | 0x0080u32)) as u16),
    ;
    let posted: u16 = if msg.is_posted { 1 } else { 0 };
    s | (msg.opcode.code() << 8u16) | (posted << 7u16)
}

pub fn sbi_rid(msg: &PcrSbiMsg) -> (v: u16)
    ensures
        v == spec_sbi_rid(*msg),
{
    ((msg.fast_byte_enable & 0xf) << 12u16) | ((msg.bar & 0x7) << 8u16) | (msg.fid & 0xff)
}

pub fn sbi_response(status: u16) -> (r: u8)
    ensures
        r == spec_sbi_response(status),
{
    assert((status & 0x6) >> 1u16 <= 3) by (bit_vector);
    ((status & 0x6) >> 1u16) as u8
}

/// True while SBISTAT reports the previous operation as still running.
pub fn sbi_is_busy(status: u16) -> (b: bool)
    ensures
        b == (status & 1 != 0),
{
    status & (P2SB_CR_SBI_STATUS_BUSY as u16) != 0
}

/// One step of the wait for a sideband command, `elapsed_ms` milliseconds
/// after it began, where SBISTAT reads `status`: the command timeout has
/// expired (`PcrTimeout`), the busy bit is clear (done), or the wait goes
/// on (`None`).
pub fn pcr_wait_step(elapsed_ms: u64, status: u16) -> (r: Option<Result<(), Error>>)
    ensures
        r == if elapsed_ms >= PCR_SBI_CMD_TIMEOUT {
            Some(Err::<(), Error>(Error::PcrTimeout))
        } else if status & 1 == 0 {
            Some(Ok::<(), Error>(()))
        } else {
            None::<Result<(), Error>>
        },
{
    if elapsed_ms >= PCR_SBI_CMD_TIMEOUT as u64 {
        Some(Err(Error::PcrTimeout))
    } else if !sbi_is_busy(status) {
        Some(Ok(()))
    } else {
        None
    }
}

/// Where a sideband transaction stands.
#[derive(Debug, Clone, Copy, PartialEq, Eq, Structural)]
pub enum SbiPhase {
    Start,
    CheckVendor,
    FirstWait,
    WroteAddr,
    WroteExtAddr,
    ReadStatus,
    WroteStatus,
    WroteRid,
    WroteData,
    ReadStatusAgain,
    Triggered,
    SecondWait,
    ReadData,
    Done,
}

/// A configuration-space access, a wait, or the end of the transaction, for
/// the platform to carry out on the P2SB device.
#[derive(Debug, Clone, Copy, PartialEq, Eq)]
pub enum SbiAction {
    /// Read a 16-bit register and answer with `SbiEvent::Value16`.
    ReadConfig16(u16),
    /// Read a 32-bit register and answer with `SbiEvent::Value32`.
    ReadConfig32(u16),
    /// Write a 16-bit register and answer with `SbiEvent::Written`.
    WriteConfig16(u16, u16),
    /// Write a 32-bit register and answer with `SbiEvent::Written`.
    WriteConfig32(u16, u32),
    /// Poll SBISTAT until the busy bit clears or the timeout passes, and
    /// answer with `SbiEvent::Completed(true)` or `Completed(false)`.
    WaitForCompletion,
    /// The transaction is over.
    Finish(Result<(), Error>),
}

/// What the platform observed when carrying out the last action.
#[derive(Debug, Clone, Copy, PartialEq, Eq, Structural)]
pub enum SbiEvent {
    Value16(u16),
    Value32(u32),
    Written,
    Completed(bool),
}

/// State of one sideband transaction.
#[derive(Clone, Copy)]
pub struct SbiSession {
    pub msg: PcrSbiMsg,
    /// Data sent with write messages, and the data returned by read messages.
    pub data: u32,
    /// Transaction status: 0 success, 1 unsuccessful, 2 powered down, 3
    /// multi-cast mixed.
    pub response: u8,
    /// SBISTAT as last written with the busy bit set.
    pub status: u16,
    pub phase: SbiPhase,
}

/// The next state and action of a transaction in state `s` after event `e`.
pub open spec fn spec_sbi_next(s: SbiSession, e: SbiEvent) -> (SbiSession, SbiAction) {
    let fail = (SbiSession { phase: SbiPhase::Done, ..s }, SbiAction::Finish(Err(Error::SbiFailure)));
    match s.phase {
        SbiPhase::Start => if s.msg.opcode.spec_is_supported() {
            (SbiSession { phase: SbiPhase::CheckVendor, ..s }, SbiAction::ReadConfig16(PCI_VENDOR_ID))
        } else {
            fail
        },
        SbiPhase::CheckVendor => match e {
            SbiEvent::Value16(vid) => if vid == 0xffff {
                fail
            } else {
                (SbiSession { phase: SbiPhase::FirstWait, ..s }, SbiAction::WaitForCompletion)
            },
            _ => fail,
        },
        SbiPhase::FirstWait => match e {
            SbiEvent::Completed(true) => (
                SbiSession { phase: SbiPhase::WroteAddr, response: 1, ..s },
                SbiAction::WriteConfig32(0xd0, spec_sbi_addr(s.msg)),
            ),
            _ => fail,
        },
        SbiPhase::WroteAddr => match e {
            SbiEvent::Written => (
                SbiSession { phase: SbiPhase::WroteExtAddr, ..s },
                SbiAction::WriteConfig32(0xdc, s.msg.offset >> 16u32),
            ),
            _ => fail,
        },
        SbiPhase::WroteExtAddr => match e {
            SbiEvent::Written => (
                SbiSession { phase: SbiPhase::ReadStatus, ..s },
                SbiAction::ReadConfig16(0xd8),
            ),
            _ => fail,
        },
        SbiPhase::ReadStatus => match e {
            SbiEvent::Value16(st) => (
                SbiSession { phase: SbiPhase::WroteStatus, ..s },
                SbiAction::WriteConfig16(0xd8, spec_sbi_status(st, s.msg)),
            ),
            _ => fail,
        },
        SbiPhase::WroteStatus => match e {
            SbiEvent::Written => (
                SbiSession { phase: SbiPhase::WroteRid, ..s },
                SbiAction::WriteConfig16(0xda, spec_sbi_rid(s.msg)),
            ),
            _ => fail,
        },
        SbiPhase::WroteRid => match e {
            SbiEvent::Written => (
                SbiSession { phase: SbiPhase::WroteData, ..s },
                SbiAction::WriteConfig32(0xd4, if s.msg.opcode.spec_sends_data() {
                    s.data
                } else {
                    0
                }),
            ),
            _ => fail,
        },
        SbiPhase::WroteData => match e {
            SbiEvent::Written => (
                SbiSession { phase: SbiPhase::ReadStatusAgain, ..s },
                SbiAction::ReadConfig16(0xd8),
            ),
            _ => fail,
        },
        SbiPhase::ReadStatusAgain => match e {
            SbiEvent::Value16(st) => (
                SbiSession { phase: SbiPhase::Triggered, status: st | 1, ..s },
                SbiAction::WriteConfig16(0xd8, st | 1),
            ),
            _ => fail,
        },
        SbiPhase::Triggered => match e {
            SbiEvent::Written => (
                SbiSession { phase: SbiPhase::SecondWait, ..s },
                SbiAction::WaitForCompletion,
            ),
            _ => fail,
        },
        SbiPhase::SecondWait => match e {
            SbiEvent::Completed(true) => {
                let r = spec_sbi_response(s.status);
                if r == 0 {
                    if s.msg.opcode.spec_returns_data() {
                        (
                            SbiSession { phase: SbiPhase::ReadData, response: r, ..s },
                            SbiAction::ReadConfig32(0xd4),
                        )
                    } else {
                        (
                            SbiSession { phase: SbiPhase::Done, response: r, ..s },
                            SbiAction::Finish(Ok(())),
                        )
                    }
                } else {
                    (
                        SbiSession { phase: SbiPhase::Done, response: r, ..s },
                        SbiAction::Finish(Err(Error::SbiFailure)),
                    )
                }
            },
            _ => fail,
        },
        SbiPhase::ReadData => match e {
            SbiEvent::Value32(d) => (
                SbiSession { phase: SbiPhase::Done, data: d, ..s },
                SbiAction::Finish(Ok(())),
            ),
            _ => fail,
        },
        SbiPhase::Done => fail,
    }
}

impl SbiSession {
    /// A transaction that is about to send `msg` with `data`.
    pub fn new(msg: PcrSbiMsg, data: u32) -> (s: Self)
        ensures
            s.msg == msg,
            s.data == data,
            s.response == 0,
            s.status == 0,
            s.phase == SbiPhase::Start,
    {
        SbiSession { msg, data, response: 0, status: 0, phase: SbiPhase::Start }
    }

    /// Advances the transaction by one step (BWG section 2.2.1): the event
    /// answers the previous action (it is ignored in the first step).
    pub fn step(&mut self, e: SbiEvent) -> (a: SbiAction)
        ensures
            (*final(self), a) == spec_sbi_next(*old(self), e),
    {
        let s = *self;
        let fail = SbiAction::Finish(Err(Error::SbiFailure));
        match s.phase {
            SbiPhase::Start => {
                if !matches!(s.msg.opcode, PcrSbiOpcode::MemRead) {
                    self.phase = SbiPhase::CheckVendor;
                    SbiAction::ReadConfig16(PCI_VENDOR_ID)
                } else {
                    self.phase = SbiPhase::Done;
                    fail
                }
            },
            SbiPhase::CheckVendor => match e {
                SbiEvent::Value16(vid) => if vid == 0xffff {
                    self.phase = SbiPhase::Done;
                    fail
                } else {
                    self.phase = SbiPhase::FirstWait;
                    SbiAction::WaitForCompletion
                },
                _ => {
                    self.phase = SbiPhase::Done;
                    fail
                },
            },
            SbiPhase::FirstWait => match e {
                SbiEvent::Completed(true) => {
                    self.phase = SbiPhase::WroteAddr;
                    self.response = P2SB_CR_SBI_STATUS_NOT_SUPPORTED as u8;
                    SbiAction::WriteConfig32(P2SB_CR_SBI_ADDR as u16, sbi_addr(&s.msg))
                },
                _ => {
                    self.phase = SbiPhase::Done;
                    fail
                },
            },
            SbiPhase::WroteAddr => match e {
                SbiEvent::Written => {
                    self.phase = SbiPhase::WroteExtAddr;
                    SbiAction::WriteConfig32(P2SB_CR_SBI_EXT_ADDR as u16, s.msg.offset >> 16u32)
                },
                _ => {
                    self.phase = SbiPhase::Done;
                    fail
                },
            },
            SbiPhase::WroteExtAddr => match e {
                SbiEvent::Written => {
                    self.phase = SbiPhase::ReadStatus;
                    SbiAction::ReadConfig16(P2SB_CR_SBI_STATUS as u16)
                },
                _ => {
                    self.phase = SbiPhase::Done;
                    fail
                },
            },
            SbiPhase::ReadStatus => match e {
                SbiEvent::Value16(st) => {
                    self.phase = SbiPhase::WroteStatus;
                    SbiAction::WriteConfig16(P2SB_CR_SBI_STATUS as u16, sbi_status(st, &s.msg))
                },
                _ => {
                    self.phase = SbiPhase::Done;
                    fail
                },
            },
            SbiPhase::WroteStatus => match e {
                SbiEvent::Written => {
                    self.phase = SbiPhase::WroteRid;
                    SbiAction::WriteConfig16(P2SB_CR_SBI_ROUTE_IDEN as u16, sbi_rid(&s.msg))
                },
                _ => {
                    self.phase = SbiPhase::Done;
                    fail
                },
            },
            SbiPhase::WroteRid => match e {
                SbiEvent::Written => {
                    self.phase = SbiPhase::WroteData;
                    let sends = match s.msg.opcode {
                        PcrSbiOpcode::MemWrite
                        | PcrSbiOpcode::PciConfigWrite
                        | PcrSbiOpcode::PcrWrite
                        | PcrSbiOpcode::GpioLockUnlock => true,
                        _ => false,
                    };
                    SbiAction::WriteConfig32(
                        P2SB_CR_SBI_DATA as u16,
                        if sends {
                            s.data
                        } else {
                            0
                        },
                    )
                },
                _ => {
                    self.phase = SbiPhase::Done;
                    fail
                },
            },
            SbiPhase::WroteData => match e {
                SbiEvent::Written => {
                    self.phase = SbiPhase::ReadStatusAgain;
                    SbiAction::ReadConfig16(P2SB_CR_SBI_STATUS as u16)
                },
                _ => {
                    self.phase = SbiPhase::Done;
                    fail
                },
            },
            SbiPhase::ReadStatusAgain => match e {
                SbiEvent::Value16(st) => {
                    let st2 = st | (P2SB_CR_SBI_STATUS_BUSY as u16);
                    self.phase = SbiPhase::Triggered;
                    self.status = st2;
                    SbiAction::WriteConfig16(P2SB_CR_SBI_STATUS as u16, st2)
                },
                _ => {
                    self.phase = SbiPhase::Done;
                    fail
                },
            },
            SbiPhase::Triggered => match e {
                SbiEvent::Written => {
                    self.phase = SbiPhase::SecondWait;
                    SbiAction::WaitForCompletion
                },
                _ => {
                    self.phase = SbiPhase::Done;
                    fail
                },
            },
            SbiPhase::SecondWait => match e {
                SbiEvent::Completed(true) => {
                    let r = sbi_response(s.status);
                    self.response = r;
                    if r as u32 == P2SB_CR_SBI_STATUS_SUCCESS {
                        match s.msg.opcode {
                            PcrSbiOpcode::MemRead
                            | PcrSbiOpcode::PciConfigRead
                            | PcrSbiOpcode::PcrRead => {
                                self.phase = SbiPhase::ReadData;
                                SbiAction::ReadConfig32(P2SB_CR_SBI_DATA as u16)
                            },
                            _ => {
                                self.phase = SbiPhase::Done;
                                SbiAction::Finish(Ok(()))
                            },
                        }
                    } else {
                        self.phase = SbiPhase::Done;
                        fail
                    }
                },
                _ => {
                    self.phase = SbiPhase::Done;
                    fail
                },
            },
            SbiPhase::ReadData => match e {
                SbiEvent::Value32(d) => {
                    self.phase = SbiPhase::Done;
                    self.data = d;
                    SbiAction::Finish(Ok(()))
                },
                _ => {
                    self.phase = SbiPhase::Done;
                    fail
                },
            },
            SbiPhase::Done => fail,
        }
    }
}

/// A write transaction (memory, PCI configuration or PCR write, or a GPIO
/// lock/unlock message) on a visible P2SB follows BWG section 2.2.1 step by
/// step: check the vendor ID, wait for the previous operation, write the
/// address and the extended address, set the opcode in SBISTAT, write the
/// route ID and the session's data to SBI data register D4h, set the busy
/// bit, wait, and succeed exactly when the status bits 2:1 read success.
pub proof fn lemma_sbi_write_sequence(msg: PcrSbiMsg, data: u32, e0: SbiEvent, vid: u16, st: u16, st2: u16)
    requires
        msg.opcode is MemWrite || msg.opcode is PciConfigWrite || msg.opcode is PcrWrite
            || msg.opcode is GpioLockUnlock,
        vid != 0xffff,
    ensures
        ({
            let s0 = SbiSession { msg, data, response: 0, status: 0, phase: SbiPhase::Start };
            let (s1, a1) = spec_sbi_next(s0, e0);
            let (s2, a2) = spec_sbi_next(s1, SbiEvent::Value16(vid));
            let (s3, a3) = spec_sbi_next(s2, SbiEvent::Completed(true));
            let (s4, a4) = spec_sbi_next(s3, SbiEvent::Written);
            let (s5, a5) = spec_sbi_next(s4, SbiEvent::Written);
            let (s6, a6) = spec_sbi_next(s5, SbiEvent::Value16(st));
            let (s7, a7) = spec_sbi_next(s6, SbiEvent::Written);
            let (s8, a8) = spec_sbi_next(s7, SbiEvent::Written);
            let (s9, a9) = spec_sbi_next(s8, SbiEvent::Written);
            let (s10, a10) = spec_sbi_next(s9, SbiEvent::Value16(st2));
            let (s11, a11) = spec_sbi_next(s10, SbiEvent::Written);
            let (s12, a12) = spec_sbi_next(s11, SbiEvent::Completed(true));
            &&& a1 == SbiAction::ReadConfig16(PCI_VENDOR_ID)
            &&& a2 == SbiAction::WaitForCompletion
            &&& a3 == SbiAction::WriteConfig32(0xd0, spec_sbi_addr(msg))
            &&& a4 == SbiAction::WriteConfig32(0xdc, msg.offset >> 16u32)
            &&& a5 == SbiAction::ReadConfig16(0xd8)
            &&& a6 == SbiAction::WriteConfig16(0xd8, spec_sbi_status(st, msg))
            &&& a7 == SbiAction::WriteConfig16(0xda, spec_sbi_rid(msg))
            &&& a8 == SbiAction::WriteConfig32(0xd4, data)
            &&& a9 == SbiAction::ReadConfig16(0xd8)
            &&& a10 == SbiAction::WriteConfig16(0xd8, st2 | 1)
            &&& a11 == SbiAction::WaitForCompletion
            &&& a12 == SbiAction::Finish(if ((st2 | 1) >> 1u16) & 3 == 0 {
                Ok(())
            } else {
                Err(Error::SbiFailure)
            })
            &&& s12.phase == SbiPhase::Done
            &&& s12.response == ((st2 | 1) >> 1u16) & 3
        }),
{
    lemma_sbi_response_bits(st2);
}

/// A read transaction (PCI configuration or PCR read) on a visible P2SB
/// writes dummy data (0) to SBI data register D4h and, when the status
/// reads success, reads D4h back: the session ends successfully with the
/// value read as its data.  When the status reads failure it ends with
/// `SbiFailure` without reading.
pub proof fn lemma_sbi_read_sequence(msg: PcrSbiMsg, data: u32, e0: SbiEvent, vid: u16, st: u16, st2: u16, d: u32)
    requires
        msg.opcode is PciConfigRead || msg.opcode is PcrRead,
        vid != 0xffff,
    ensures
        ({
            let s0 = SbiSession { msg, data, response: 0, status: 0, phase: SbiPhase::Start };
            let (s1, a1) = spec_sbi_next(s0, e0);
            let (s2, a2) = spec_sbi_next(s1, SbiEvent::Value16(vid));
            let (s3, a3) = spec_sbi_next(s2, SbiEvent::Completed(true));
            let (s4, a4) = spec_sbi_next(s3, SbiEvent::Written);
            let (s5, a5) = spec_sbi_next(s4, SbiEvent::Written);
            let (s6, a6) = spec_sbi_next(s5, SbiEvent::Value16(st));
            let (s7, a7) = spec_sbi_next(s6, SbiEvent::Written);
            let (s8, a8) = spec_sbi_next(s7, SbiEvent::Written);
            let (s9, a9) = spec_sbi_next(s8, SbiEvent::Written);
            let (s10, a10) = spec_sbi_next(s9, SbiEvent::Value16(st2));
            let (s11, a11) = spec_sbi_next(s10, SbiEvent::Written);
            let (s12, a12) = spec_sbi_next(s11, SbiEvent::Completed(true));
            let (s13, a13) = spec_sbi_next(s12, SbiEvent::Value32(d));
            &&& a8 == SbiAction::WriteConfig32(0xd4, 0)
            &&& a10 == SbiAction::WriteConfig16(0xd8, st2 | 1)
            &&& ((st2 | 1) >> 1u16) & 3 == 0 ==> a12 == SbiAction::ReadConfig32(0xd4)
                && a13 == SbiAction::Finish(Ok(())) && s13.data == d && s13.phase == SbiPhase::Done
            &&& ((st2 | 1) >> 1u16) & 3 != 0 ==> a12 == SbiAction::Finish(Err(Error::SbiFailure))
                && s12.phase == SbiPhase::Done
        }),
{
    lemma_sbi_response_bits(st2);
}

proof fn lemma_sbi_response_bits(st2: u16)
    ensures
        spec_sbi_response(st2 | 1) as u16 == ((st2 | 1) >> 1u16) & 3,
{
    assert((((st2 | 1) & 6u16) >> 1u16) as u8 as u16 == ((st2 | 1) >> 1u16) & 3) by (bit_vector);
}

/// A transaction whose P2SB is hidden (vendor ID all ones) is refused after
/// the vendor check, before anything is written; so is one with an opcode
/// that the sideband does not carry, at once.
pub proof fn lemma_sbi_refused(msg: PcrSbiMsg, data: u32, e0: SbiEvent)
    ensures
        ({
            let s0 = SbiSession { msg, data, response: 0, status: 0, phase: SbiPhase::Start };
            let (s1, a1) = spec_sbi_next(s0, e0);
            let (s2, a2) = spec_sbi_next(s1, SbiEvent::Value16(0xffff));
            &&& msg.opcode.spec_is_supported() ==> a1 == SbiAction::ReadConfig16(PCI_VENDOR_ID)
                && a2 == SbiAction::Finish(Err(Error::SbiFailure)) && s2.phase == SbiPhase::Done
            &&& !msg.opcode.spec_is_supported() ==> a1 == SbiAction::Finish(Err(Error::SbiFailure))
                && s1.phase == SbiPhase::Done
        }),
{
}

} // verus!
