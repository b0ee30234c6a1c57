//! A model of a 32-bit memory-mapped register space.
//!
//! Every driver in this crate reads and writes device registers through an
//! `Mmio` value.  It remembers the current contents of each 32-bit register
//! that has been loaded or written, and it keeps the ordered list of all
//! writes with their width (byte, half word, word or double word), so that
//! the platform layer can replay them onto the real bus as they were made.
//! A register that has never been loaded or written reads as zero.
use vstd::prelude::*;
use vstd::hash_map::HashMapWithView;

verus! {

/// Contents of register `addr` in the register map `regs`.
pub open spec fn reg_value(regs: Map<u64, u32>, addr: u64) -> u32 {
    if regs.contains_key(addr) {
        regs[addr]
    } else {
        0
    }
}

/// The register space after a read-modify-write that keeps the bits of
/// `and_mask` and then sets the bits of `or_mask`.
pub open spec fn rmw_value(old_value: u32, and_mask: u32, or_mask: u32) -> u32 {
    (old_value & and_mask) | or_mask
}

/// One write on the bus: its address, its value and its width in bytes (1,
/// 2, 4 or 8).
#[derive(Clone, Copy, PartialEq, Eq, Structural, Debug)]
pub struct BusWrite {
    pub addr: u64,
    pub value: u64,
    pub width: u8,
}

/// A 32-bit write of `value` to `addr`.
pub open spec fn w32(addr: u64, value: u32) -> BusWrite {
    BusWrite { addr, value: value as u64, width: 4 }
}

/// Register contents together with the ordered list of writes.
pub type RegState = (Map<u64, u32>, Seq<BusWrite>);

/// The register state after writing `value` to `addr`.
pub open spec fn st_write(s: RegState, addr: u64, value: u32) -> RegState {
    (s.0.insert(addr, value), s.1.push(w32(addr, value)))
}

/// The 32-bit word after storing `value` in the lanes selected by `mask`
/// (both already shifted into place).
pub open spec fn insert_lanes(word: u32, mask: u32, value: u32) -> u32 {
    (word & !mask) | (value & mask)
}

/// Bit position of byte lane `lane` (0..4) of a 32-bit register.
pub open spec fn lane_bits(lane: u64) -> u32 {
    (lane * 8) as u32
}

/// The register state after a write of `width` bytes (1 or 2) of `value`
/// to byte lane `lane` of the register at `word`: the lanes written change
/// in the register, and the write is logged at byte address `word + lane`.
pub open spec fn st_write_lanes(s: RegState, word: u64, lane: u64, width: u8, value: u32) -> RegState {
    let mask: u32 = if width == 1 { 0xffu32 } else { 0xffffu32 };
    let sh = lane_bits(lane);
    (
        s.0.insert(word, insert_lanes(reg_value(s.0, word), mask << sh, value << sh)),
        s.1.push(BusWrite { addr: (word + lane) as u64, value: value as u64, width }),
    )
}

/// The register state after a 64-bit write of `value` to `addr`: the low
/// word lands in the register at `addr`, the high word in the next one, and
/// one 64-bit write is logged.
pub open spec fn st_write64(s: RegState, addr: u64, value: u64) -> RegState {
    (
        s.0.insert(addr, (value % 0x1_0000_0000) as u32).insert(
            (addr + 4) as u64,
            (value / 0x1_0000_0000) as u32,
        ),
        s.1.push(BusWrite { addr, value, width: 8 }),
    )
}

/// The register state after a read-modify-write of `addr`.
pub open spec fn st_rmw(s: RegState, addr: u64, and_mask: u32, or_mask: u32) -> RegState {
    st_write(s, addr, rmw_value(reg_value(s.0, addr), and_mask, or_mask))
}

/// The register state after setting the bits of `or_mask` in `addr`.
pub open spec fn st_or(s: RegState, addr: u64, or_mask: u32) -> RegState {
    st_write(s, addr, reg_value(s.0, addr) | or_mask)
}

/// One step of a register program that the platform layer carries out on
/// the bus, in order.
#[derive(Clone, Copy, PartialEq, Eq, Structural, Debug)]
pub enum RegOp {
    /// Write `value` to `addr`.
    Write { addr: u64, value: u32 },
    /// Write the 64-bit `value` to `addr` in one access.
    Write64 { addr: u64, value: u64 },
    /// Read `addr`, keep the bits of `and_mask`, set those of `or_mask`,
    /// and write the result back.
    Modify { addr: u64, and_mask: u32, or_mask: u32 },
    /// Read `addr` until the bits of `mask` are all clear.
    WaitClear { addr: u64, mask: u32 },
    /// Read `addr` until the bits of `mask` are all set.
    WaitSet { addr: u64, mask: u32 },
}

pub struct Mmio {
    regs: HashMapWithView<u64, u32>,
    log: Vec<BusWrite>,
}

impl Mmio {
    /// Current contents of every register that has been loaded or written.
    pub closed spec fn regs(&self) -> Map<u64, u32> {
        self.regs@
    }

    /// Every write so far, oldest first.
    pub closed spec fn writes(&self) -> Seq<BusWrite> {
        self.log@
    }

    /// Register contents and write history.
    pub open spec fn state(&self) -> RegState {
        (self.regs(), self.writes())
    }

    /// The value that a 32-bit read of `addr` returns.
    pub open spec fn value(&self, addr: u64) -> u32 {
        reg_value(self.regs(), addr)
    }

    /// An empty register space with no writes.
    pub fn new() -> (m: Self)
        ensures
            m.regs() == Map::<u64, u32>::empty(),
            m.writes() == Seq::<BusWrite>::empty(),
    {
        Mmio { regs: HashMapWithView::new(), log: Vec::new() }
    }

    /// Records the present contents of a register (for example as read from
    /// the hardware) without counting it as a write.
    pub fn load32(&mut self, addr: u64, value: u32)
        ensures
            final(self).regs() == old(self).regs().insert(addr, value),
            final(self).writes() == old(self).writes(),
    {
        self.regs.insert(addr, value);
    }

    /// 32-bit register read.
    pub fn read32(&self, addr: u64) -> (v: u32)
        ensures
            v == self.value(addr),
    {
        match self.regs.get(&addr) {
            Some(v) => *v,
            None => 0,
        }
    }

    /// 32-bit register write.
    pub fn write32(&mut self, addr: u64, value: u32)
        ensures
            final(self).regs() == old(self).regs().insert(addr, value),
            final(self).writes() == old(self).writes().push(w32(addr, value)),
    {
        self.regs.insert(addr, value);
        self.log.push(BusWrite { addr, value: value as u64, width: 4 });
    }

    /// Write of `width` bytes (1 or 2) of `value` to byte lane `lane` of the
    /// 32-bit register at `word`.
    pub fn write_lanes(&mut self, word: u64, lane: u64, width: u8, value: u32)
        requires
            lane < 4,
            word + lane <= u64::MAX,
            width == 1 || width == 2,
        ensures
            final(self).state() == st_write_lanes(old(self).state(), word, lane, width, value),
    {
        let mask: u32 = if width == 1 { 0xff } else { 0xffff };
        let sh: u32 = (lane * 8) as u32;
        let w = self.read32(word);
        let nw = (w & !(mask << sh)) | ((value << sh) & (mask << sh));
        self.regs.insert(word, nw);
        self.log.push(BusWrite { addr: word + lane, value: value as u64, width });
    }

    /// 64-bit write: the low word to the register at `addr`, the high word
    /// to the next one, in one access.
    pub fn write64(&mut self, addr: u64, value: u64)
        requires
            addr + 4 <= u64::MAX,
        ensures
            final(self).state() == st_write64(old(self).state(), addr, value),
    {
        let lo = (value & 0xffff_ffff) as u32;
        let hi = (value >> 32u64) as u32;
        assert(value & 0xffff_ffff == value % 0x1_0000_0000 && value >> 32u64 == value / 0x1_0000_0000)
            by (bit_vector);
        self.regs.insert(addr, lo);
        self.regs.insert(addr + 4, hi);
        self.log.push(BusWrite { addr, value, width: 8 });
    }

    /// Read-modify-write: keeps the bits of `and_mask`, then sets `or_mask`.
    pub fn rmw32(&mut self, addr: u64, and_mask: u32, or_mask: u32)
        ensures
            final(self).regs() == old(self).regs().insert(
                addr,
                rmw_value(old(self).value(addr), and_mask, or_mask),
            ),
            final(self).writes() == old(self).writes().push(
                w32(addr, rmw_value(old(self).value(addr), and_mask, or_mask)),
            ),
    {
        let v = self.read32(addr);
        self.write32(addr, (v & and_mask) | or_mask);
    }

    /// Number of writes performed so far.
    pub fn write_count(&self) -> (n: usize)
        ensures
            n == self.writes().len(),
    {
        self.log.len()
    }

    /// The `i`-th write, oldest first.
    pub fn write_at(&self, i: usize) -> (w: BusWrite)
        requires
            i < self.writes().len(),
        ensures
            w == self.writes()[i as int],
    {
        self.log[i]
    }
}

/// A read gives back the last value written to the same register, and a
/// write to one register leaves every other register as it was.
pub proof fn lemma_read_after_write(m: Mmio, m2: Mmio, addr: u64, value: u32, other: u64)
    requires
        m2.regs() == m.regs().insert(addr, value),
    ensures
        m2.value(addr) == value,
        other != addr ==> m2.value(other) == m.value(other),
{
}

/// Two writes to the same register leave the register space as the second
/// write alone would.
pub proof fn lemma_write_write(m: Mmio, addr: u64, v1: u32, v2: u32)
    ensures
        m.regs().insert(addr, v1).insert(addr, v2) == m.regs().insert(addr, v2),
{
    assert(m.regs().insert(addr, v1).insert(addr, v2) =~= m.regs().insert(addr, v2));
}

/// Setting bits twice is the same as setting them once, and clearing then
/// setting the same bits gives the bits set.
pub proof fn lemma_rmw_idempotent(v: u32, and_mask: u32, or_mask: u32)
    ensures
        rmw_value(rmw_value(v, and_mask, or_mask), and_mask, or_mask) == rmw_value(
            v,
            and_mask,
            or_mask,
        ),
        rmw_value(v, 0xffff_ffff, or_mask) & or_mask == or_mask,
        rmw_value(v, !or_mask, 0) & or_mask == 0,
{
    assert(((((v & and_mask) | or_mask) & and_mask) | or_mask) == ((v & and_mask) | or_mask)
        && (((v & 0xffff_ffff) | or_mask) & or_mask) == or_mask && (((v & !or_mask) | 0) & or_mask)
        == 0) by (bit_vector);
}

} // verus!
