//! FU540 (UX00) DDR controller and PHY bring-up.
use vstd::prelude::*;
use crate::mmio::{Mmio, RegOp, RegState, reg_value, st_write, st_write64, st_or};

verus! {

/// DDR controller register block.
pub const DDR_CTRL: u32 = 0x100b_0000;
/// DDR PHY register block.
pub const DDR_PHY: u32 = 0x100b_2000;

pub const DRAM_CLASS_OFFSET: u32 = 8;
pub const DRAM_CLASS_DDR4: u32 = 0xA;
pub const OPTIMAL_RMODW_EN_OFFSET: u32 = 0;
pub const DISABLE_RD_INTERLEAVE_OFFSET: u32 = 16;
pub const OUT_OF_RANGE_OFFSET: u32 = 1;
pub const MULTIPLE_OUT_OF_RANGE_OFFSET: u32 = 2;
pub const PORT_COMMAND_CHANNEL_ERROR_OFFSET: u32 = 7;
pub const MC_INIT_COMPLETE_OFFSET: u32 = 8;
pub const LEVELING_OPERATION_COMPLETED_OFFSET: u32 = 22;
pub const DFI_PHY_WRLELV_MODE_OFFSET: u32 = 24;
pub const DFI_PHY_RDLVL_MODE_OFFSET: u32 = 24;
pub const DFI_PHY_RDLVL_GATE_MODE_OFFSET: u32 = 0;
pub const VREF_EN_OFFSET: u32 = 24;
pub const PORT_ADDR_PROTECTION_EN_OFFSET: u32 = 0;
pub const AXI0_ADDRESS_RANGE_ENABLE: u32 = 8;
pub const AXI0_RANGE_PROT_BITS_0_OFFSET: u32 = 24;
pub const RDLVL_EN_OFFSET: u32 = 16;
pub const RDLVL_GATE_EN_OFFSET: u32 = 24;
pub const WRLVL_EN_OFFSET: u32 = 0;
pub const PHY_RX_CAL_DQ0_0_OFFSET: u64 = 0;
pub const PHY_RX_CAL_DQ1_0_OFFSET: u64 = 16;

/// Address of 32-bit word `index` of the register block at `pointer`.
pub open spec fn word_addr(pointer: u32, index: int) -> u64 {
    (pointer + index * 4) as u64
}

/// Register blocks whose word addresses stay below 4 GiB.
pub open spec fn fits(pointer: u32, index: int) -> bool {
    pointer + index * 4 <= u32::MAX
}

fn addr(pointer: u32, index: u32) -> (a: u64)
    requires
        fits(pointer, index as int),
    ensures
        a == word_addr(pointer, index as int),
{
    assert(index < 0x4000_0000);
    assert((index << 2u32) == index * 4) by (bit_vector)
        requires
            index < 0x4000_0000,
    ;
    (pointer + (index << 2u32)) as u64
}

/// Writes word `index` of the block at `pointer`.
pub fn poke(mmio: &mut Mmio, pointer: u32, index: u32, value: u32)
    requires
        fits(pointer, index as int),
    ensures
        final(mmio).state() == st_write(old(mmio).state(), word_addr(pointer, index as int), value),
{
    mmio.write32(addr(pointer, index), value);
}

/// Writes a 64-bit value at word `index` in one access.
pub fn poke64(mmio: &mut Mmio, pointer: u32, index: u32, value: u64)
    requires
        fits(pointer, index as int),
    ensures
        final(mmio).state() == st_write64(old(mmio).state(), word_addr(pointer, index as int), value),
{
    mmio.write64(addr(pointer, index), value);
}

/// Reads word `index` of the block at `pointer`.
pub fn peek(mmio: &Mmio, pointer: u32, index: u32) -> (v: u32)
    requires
        fits(pointer, index as int),
    ensures
        v == mmio.value(word_addr(pointer, index as int)),
{
    mmio.read32(addr(pointer, index))
}

/// Sets the bits of `value` in word `index`.
pub fn set(mmio: &mut Mmio, pointer: u32, index: u32, value: u32)
    requires
        fits(pointer, index as int),
    ensures
        final(mmio).state() == st_or(old(mmio).state(), word_addr(pointer, index as int), value),
{
    let v = peek(mmio, pointer, index);
    poke(mmio, pointer, index, v | value);
}

/// Keeps only the bits of `value` in word `index`.
pub fn clr(mmio: &mut Mmio, pointer: u32, index: u32, value: u32)
    requires
        fits(pointer, index as int),
    ensures
        final(mmio).state() == st_write(
            old(mmio).state(),
            word_addr(pointer, index as int),
            old(mmio).value(word_addr(pointer, index as int)) & value,
        ),
{
    let v = peek(mmio, pointer, index);
    poke(mmio, pointer, index, v & value);
}

/// Register state after writing `data[i]` to word `i` of the block at
/// `pointer`, for `i` from `lo` up to (not including) `hi`.
pub open spec fn write_words(s: RegState, pointer: u32, data: Seq<u32>, lo: int, hi: int) -> RegState
    decreases hi - lo,
{
    if hi <= lo {
        s
    } else {
        let prev = write_words(s, pointer, data, lo, hi - 1);
        st_write(prev, word_addr(pointer, hi - 1), data[hi - 1])
    }
}

fn write_range(mmio: &mut Mmio, pointer: u32, data: &[u32], lo: usize, hi: usize)
    requires
        lo <= hi <= data@.len(),
        pointer as int + hi * 4 <= u32::MAX,
    ensures
        final(mmio).state() == write_words(old(mmio).state(), pointer, data@, lo as int, hi as int),
{
    let mut i = lo;
    while i < hi
        invariant
            lo <= i <= hi <= data@.len(),
            pointer as int + hi * 4 <= u32::MAX,
            mmio.state() == write_words(old(mmio).state(), pointer, data@, lo as int, i as int),
        decreases hi - i,
    {
        poke(mmio, pointer, i as u32, data[i]);
        i = i + 1;
    }
}

/// Number of PHY registers loaded from the Denali PHY table.
pub const PHY_REGS: usize = 1215;
/// Number of controller registers loaded from the Denali controller table.
pub const CTL_REGS: usize = 265;

/// Loads the PHY registers from `phy_data`: entries 1152..=1214 first, then
/// 0..=1151.
pub fn phy_reset(mmio: &mut Mmio, phy_data: &[u32])
    requires
        phy_data@.len() >= PHY_REGS,
    ensures
        final(mmio).state() == write_words(
            write_words(old(mmio).state(), DDR_PHY, phy_data@, 1152, 1215),
            DDR_PHY,
            phy_data@,
            0,
            1152,
        ),
{
    write_range(mmio, DDR_PHY, phy_data, 1152, 1215);
    write_range(mmio, DDR_PHY, phy_data, 0, 1152);
}

/// Loads the controller registers 0..=264 from `ctl_data`, then the PHY.
pub fn ux00ddr_writeregmap(mmio: &mut Mmio, ctl_data: &[u32], phy_data: &[u32])
    requires
        ctl_data@.len() >= CTL_REGS,
        phy_data@.len() >= PHY_REGS,
    ensures
        final(mmio).state() == write_words(
            write_words(
                write_words(old(mmio).state(), DDR_CTRL, ctl_data@, 0, 265),
                DDR_PHY,
                phy_data@,
                1152,
                1215,
            ),
            DDR_PHY,
            phy_data@,
            0,
            1152,
        ),
{
    write_range(mmio, DDR_CTRL, ctl_data, 0, 265);
    phy_reset(mmio, phy_data);
}

/// Bus blocker entry that opens the address range up to `ddrend`: RWX with
/// top-of-range matching, and the end address in 4-byte units.
pub fn ux00ddr_bus_blocker_value(ddrend: u64) -> (v: u64)
    ensures
        v == 0x0f00_0000_0000_0000u64 | (ddrend >> 2u64),
{
    0x0f00_0000_0000_0000u64 | (ddrend >> 2u64)
}

/// The start-up program of the controller, in this order: set START (word
/// 0, bit 0), wait until INT_STATUS (word 132) reports initialization
/// complete (bit 8), then disable the bus blocker at `filteraddr` by writing
/// its 64-bit entry for `ddrend` in one access.
pub open spec fn start_program(filteraddr: u64, ddrend: u64) -> Seq<RegOp> {
    seq![
        RegOp::Modify { addr: word_addr(DDR_CTRL, 0), and_mask: 0xffff_ffff, or_mask: 1 },
        RegOp::WaitSet { addr: word_addr(DDR_CTRL, 132), mask: 0x100 },
        RegOp::Write64 {
            addr: (filteraddr as u32) as u64,
            value: 0x0f00_0000_0000_0000u64 | (ddrend >> 2u64),
        },
    ]
}

/// Starts the controller, waits for its initialization to complete, then
/// disables the bus blocker in front of its AXI ports: appends
/// `start_program` to `ops` for the platform to carry out in order.
pub fn ux00ddr_start(filteraddr: u64, ddrend: u64, ops: &mut Vec<RegOp>)
    ensures
        final(ops)@ == old(ops)@ + start_program(filteraddr, ddrend),
{
    let start = addr(DDR_CTRL, 0);
    ops.push(RegOp::Modify { addr: start, and_mask: 0xffff_ffff, or_mask: 1 });
    let status = addr(DDR_CTRL, 132);
    let m: u32 = 1u32 << MC_INIT_COMPLETE_OFFSET;
    assert(m == 0x100) by (bit_vector)
        requires
            m == 1u32 << 8u32,
    ;
    ops.push(RegOp::WaitSet { addr: status, mask: m });
    let freg = filteraddr as u32;
    ops.push(RegOp::Write64 { addr: freg as u64, value: ux00ddr_bus_blocker_value(ddrend) });
    assert(ops@ =~= old(ops)@ + start_program(filteraddr, ddrend));
}

/// Masks the "MC initialization complete" interrupt (INT_MASK bit 8).
pub fn ux00ddr_mask_mc_init_complete_interrupt(mmio: &mut Mmio)
    ensures
        final(mmio).state() == st_or(old(mmio).state(), word_addr(DDR_CTRL, 136), 0x100),
{
    set(mmio, DDR_CTRL, 136, 0x100);
}

/// Masks the out-of-range interrupts (INT_MASK bits 1 and 2).
pub fn ux00ddr_mask_outofrange_interrupts(mmio: &mut Mmio)
    ensures
        final(mmio).state() == st_or(old(mmio).state(), word_addr(DDR_CTRL, 136), 0x6),
{
    set(mmio, DDR_CTRL, 136, 0x6);
}

/// Masks the port command channel error interrupt (INT_MASK bit 7).
pub fn ux00ddr_mask_port_command_error_interrupt(mmio: &mut Mmio)
    ensures
        final(mmio).state() == st_or(old(mmio).state(), word_addr(DDR_CTRL, 136), 0x80),
{
    set(mmio, DDR_CTRL, 136, 0x80);
}

/// Masks the leveling-completed interrupt (INT_MASK bit 22).
pub fn ux00ddr_mask_leveling_completed_interrupt(mmio: &mut Mmio)
    ensures
        final(mmio).state() == st_or(old(mmio).state(), word_addr(DDR_CTRL, 136), 0x40_0000),
{
    set(mmio, DDR_CTRL, 136, 0x40_0000);
}

/// Number of 16 KiB blocks below `end_addr`, less one, as programmed into
/// the AXI0 range end register.
pub open spec fn spec_end_blocks(end_addr: u64) -> u32 {
    (((end_addr >> 14u64) & 0x7F_FFFF) - 1) as u32
}

/// Controller state after range protection setup.
pub open spec fn range_protection_step(s: RegState, end_addr: u64) -> RegState {
    let s1 = st_write(s, word_addr(DDR_CTRL, 209), 0);
    let s2 = st_write(s1, word_addr(DDR_CTRL, 210), spec_end_blocks(end_addr));
    let s3 = st_write(s2, word_addr(DDR_CTRL, 212), 0);
    let s4 = st_write(s3, word_addr(DDR_CTRL, 214), 0);
    let s5 = st_write(s4, word_addr(DDR_CTRL, 216), 0);
    let s6 = st_or(s5, word_addr(DDR_CTRL, 224), 0x300_0000);
    let s7 = st_write(s6, word_addr(DDR_CTRL, 225), 0xFFFF_FFFF);
    let s8 = st_or(s7, word_addr(DDR_CTRL, 208), 0x100);
    st_or(s8, word_addr(DDR_CTRL, 208), 0x1)
}

/// Sets up AXI port 0 range protection for the memory below `end_addr`:
/// full access for the one range, and protection enabled.
pub fn ux00ddr_setuprangeprotection(mmio: &mut Mmio, end_addr: u64)
    requires
        (end_addr >> 14u64) & 0x7F_FFFF >= 1,
    ensures
        final(mmio).state() == range_protection_step(old(mmio).state(), end_addr),
{
    poke(mmio, DDR_CTRL, 209, 0x0);
    let end_addr_16k_blocks: u32 = (((end_addr >> 14u64) & 0x7FFFFF) - 1) as u32;
    poke(mmio, DDR_CTRL, 210, end_addr_16k_blocks);
    poke(mmio, DDR_CTRL, 212, 0x0);
    poke(mmio, DDR_CTRL, 214, 0x0);
    poke(mmio, DDR_CTRL, 216, 0x0);
    set(mmio, DDR_CTRL, 224, 0x300_0000);
    poke(mmio, DDR_CTRL, 225, 0xFFFFFFFF);
    set(mmio, DDR_CTRL, 208, 0x100);
    set(mmio, DDR_CTRL, 208, 0x1);
}

/// Disables AXI read interleaving (word 120, bit 16).
pub fn ux00ddr_disableaxireadinterleave(mmio: &mut Mmio)
    ensures
        final(mmio).state() == st_or(old(mmio).state(), word_addr(DDR_CTRL, 120), 0x1_0000),
{
    set(mmio, DDR_CTRL, 120, 0x1_0000);
}

/// Disables optimal read-modify-write (clears word 21, bit 0).
pub fn ux00ddr_disableoptimalrmodw(mmio: &mut Mmio)
    ensures
        final(mmio).state() == st_write(
            old(mmio).state(),
            word_addr(DDR_CTRL, 21),
            old(mmio).value(word_addr(DDR_CTRL, 21)) & 0xffff_fffe,
        ),
{
    clr(mmio, DDR_CTRL, 21, 0xffff_fffe);
}

/// Enables write leveling (word 170, bits 0 and 24).
pub fn ux00ddr_enablewriteleveling(mmio: &mut Mmio)
    ensures
        final(mmio).state() == st_or(old(mmio).state(), word_addr(DDR_CTRL, 170), 0x100_0001),
{
    set(mmio, DDR_CTRL, 170, 0x100_0001);
}

/// Enables read leveling (word 181 bit 24, then word 260 bit 16).
pub fn ux00ddr_enablereadleveling(mmio: &mut Mmio)
    ensures
        final(mmio).state() == st_or(
            st_or(old(mmio).state(), word_addr(DDR_CTRL, 181), 0x100_0000),
            word_addr(DDR_CTRL, 260),
            0x1_0000,
        ),
{
    set(mmio, DDR_CTRL, 181, 0x100_0000);
    set(mmio, DDR_CTRL, 260, 0x1_0000);
}

/// Enables read leveling gate training (word 260 bit 24, then word 182 bit 0).
pub fn ux00ddr_enablereadlevelinggate(mmio: &mut Mmio)
    ensures
        final(mmio).state() == st_or(
            st_or(old(mmio).state(), word_addr(DDR_CTRL, 260), 0x100_0000),
            word_addr(DDR_CTRL, 182),
            0x1,
        ),
{
    set(mmio, DDR_CTRL, 260, 0x100_0000);
    set(mmio, DDR_CTRL, 182, 0x1);
}

/// Enables VREF training (word 184, bit 24).
pub fn ux00ddr_enablevreftraining(mmio: &mut Mmio)
    ensures
        final(mmio).state() == st_or(old(mmio).state(), word_addr(DDR_CTRL, 184), 0x100_0000),
{
    set(mmio, DDR_CTRL, 184, 0x100_0000);
}

/// DRAM class field (word 0, bits 11:8).
pub fn ux00ddr_getdramclass(mmio: &Mmio) -> (c: u32)
    ensures
        c == (mmio.value(word_addr(DDR_CTRL, 0)) >> 8u32) & 0xF,
{
    (peek(mmio, DDR_CTRL, 0) >> DRAM_CLASS_OFFSET) & 0xF
}

/// Receive calibration word `r` (0..4) of PHY slice `s` (0..8): it holds
/// the calibration of two DQ lanes.
pub open spec fn phy_rx_cal_word(mmio: Mmio, s: int, r: int) -> u32 {
    mmio.value(word_addr(DDR_PHY, 128 * s + 34 + r))
}

/// Whether DQ lane `b` (0 or 1) of calibration word `w` meets the errata
/// condition: one of its up/down values at 0 and the other saturated.
pub open spec fn dq_fails(w: u32, b: int) -> bool {
    let off: u32 = if b == 0 { 0 } else { 16 };
    let down = (w >> off) & 0x3F;
    let up = (w >> ((off + 6) as u32)) & 0x3F;
    (down == 0 && up == 0x3F) || (up == 0 && down == 0x3F)
}

/// Whether lane `k` (0..64) failed: lane `8 * s + 2 * r + b` is lane `b` of
/// calibration word `r` of slice `s`.
pub open spec fn lane_failed(mmio: Mmio, k: int) -> bool {
    dq_fails(phy_rx_cal_word(mmio, k / 8, (k % 8) / 2), k % 2)
}

proof fn lemma_or_bit(x: u64, d: u64)
    requires
        d < 64,
    ensures
        forall|k: u64|
            k < 64 ==> ((#[trigger] ((x | (1u64 << d)) >> k) & 1 == 1) <==> (k == d || (x >> k) & 1 == 1)),
        forall|k: u64| k < 64 ==> (#[trigger] (0u64 >> k)) & 1 == 0,
{
    assert(d < 64 ==> (forall|k: u64|
        k < 64 ==> ((#[trigger] ((x | (1u64 << d)) >> k) & 1 == 1) <==> (k == d || (x >> k) & 1 == 1)))
        && (forall|k: u64| k < 64 ==> (#[trigger] (0u64 >> k)) & 1 == 0)) by (bit_vector);
}

/// Checks the receive calibration of every DQ lane of the 8 PHY slices for
/// the errata condition, and returns the bitmask of failed lanes: bit
/// `8 * s + 2 * r + b` is set when lane `b` of calibration word `r` of slice
/// `s` fails.
pub fn ux00ddr_phy_fixup(mmio: &Mmio) -> (fails: u64)
    ensures
        forall|k: u64| k < 64 ==> (((#[trigger] (fails >> k)) & 1 == 1) <==> lane_failed(*mmio, k as int)),
{
    let ddrphyreg: u32 = DDR_CTRL + 0x2000;
    let mut fails: u64 = 0;
    let mut dq: u64 = 0;
    let mut slicebase: u32 = 0;
    let mut s: u32 = 0;
    proof {
        lemma_or_bit(0, 0);
    }
    while s < 8
        invariant
            s <= 8,
            slicebase == s * 128,
            ddrphyreg == DDR_PHY,
            dq == 8 * s,
            forall|k: u64| k < 64 ==> (((#[trigger] (fails >> k)) & 1 == 1) <==> (k < dq && lane_failed(*mmio, k as int))),
        decreases 8 - s,
    {
        let regbase: u32 = slicebase + 34;
        let mut reg: u32 = 0;
        while reg < 4
            invariant
                reg <= 4,
                regbase == s * 128 + 34,
                s < 8,
                ddrphyreg == DDR_PHY,
                dq == 8 * s + 2 * reg,
                forall|k: u64| k < 64 ==> (((#[trigger] (fails >> k)) & 1 == 1) <==> (k < dq && lane_failed(*mmio, k as int))),
            decreases 4 - reg,
        {
            let updownreg: u32 = peek(mmio, ddrphyreg, regbase + reg);
            let mut bit: u32 = 0;
            while bit < 2
                invariant
                    bit <= 2,
                    s < 8,
                    reg < 4,
                    updownreg == phy_rx_cal_word(*mmio, s as int, reg as int),
                    dq == 8 * s + 2 * reg + bit,
                    forall|k: u64| k < 64 ==> (((#[trigger] (fails >> k)) & 1 == 1) <==> (k < dq && lane_failed(*mmio, k as int))),
                decreases 2 - bit,
            {
                let off: u32 = if bit == 0 { 0 } else { 16 };
                let down: u32 = (updownreg >> off) & 0x3F;
                let up: u32 = (updownreg >> (off + 6)) & 0x3F;
                let failc0: bool = (down == 0) && (up == 0x3F);
                let failc1: bool = (up == 0) && (down == 0x3F);
                proof {
                    assert(dq as int / 8 == s as int && (dq as int % 8) / 2 == reg as int && dq as int % 2 == bit as int);
                    assert((failc0 || failc1) == lane_failed(*mmio, dq as int));
                    lemma_or_bit(fails, dq);
                }
                if failc0 || failc1 {
                    fails = fails | (1u64 << dq);
                }
                dq = dq + 1;
                bit = bit + 1;
            }
            reg = reg + 1;
        }
        slicebase = slicebase + 128;
        s = s + 1;
    }
    fails
}

/// After `write_words`, each word of the range holds its entry of `data`,
/// and every other register holds what it held before.
pub proof fn lemma_write_words_read_back(s: RegState, pointer: u32, data: Seq<u32>, lo: int, hi: int, a: u64)
    requires
        0 <= lo <= hi <= data.len(),
        pointer + hi * 4 <= u32::MAX,
    ensures
        forall|k: int| lo <= k < hi ==> reg_value(write_words(s, pointer, data, lo, hi).0, #[trigger] word_addr(pointer, k))
            == data[k],
        (forall|k: int| lo <= k < hi ==> a != word_addr(pointer, k)) ==> reg_value(
            write_words(s, pointer, data, lo, hi).0,
            a,
        ) == reg_value(s.0, a),
    decreases hi - lo,
{
    if hi > lo {
        lemma_write_words_read_back(s, pointer, data, lo, hi - 1, a);
        let prev = write_words(s, pointer, data, lo, hi - 1);
        assert forall|k: int| lo <= k < hi implies reg_value(write_words(s, pointer, data, lo, hi).0, #[trigger] word_addr(pointer, k))
            == data[k] by {
            if k < hi - 1 {
                lemma_write_words_read_back(s, pointer, data, lo, hi - 1, word_addr(pointer, k));
                assert(word_addr(pointer, k) != word_addr(pointer, hi - 1));
            }
        }
    }
}

/// After `ux00ddr_writeregmap`, controller word `k` holds `ctl_data[k]` for
/// every `k` below 265 and PHY word `j` holds `phy_data[j]` for every `j`
/// below 1215.
pub proof fn lemma_writeregmap_read_back(s: RegState, ctl_data: Seq<u32>, phy_data: Seq<u32>, k: int, j: int)
    requires
        ctl_data.len() >= CTL_REGS,
        phy_data.len() >= PHY_REGS,
    ensures
        ({
            let s1 = write_words(s, DDR_CTRL, ctl_data, 0, 265);
            let s2 = write_words(s1, DDR_PHY, phy_data, 1152, 1215);
            let s3 = write_words(s2, DDR_PHY, phy_data, 0, 1152);
            &&& 0 <= k < 265 ==> reg_value(s3.0, word_addr(DDR_CTRL, k)) == ctl_data[k]
            &&& 0 <= j < 1215 ==> reg_value(s3.0, word_addr(DDR_PHY, j)) == phy_data[j]
        }),
{
    let s1 = write_words(s, DDR_CTRL, ctl_data, 0, 265);
    let s2 = write_words(s1, DDR_PHY, phy_data, 1152, 1215);
    if 0 <= k < 265 {
        let a = word_addr(DDR_CTRL, k);
        lemma_write_words_read_back(s, DDR_CTRL, ctl_data, 0, 265, a);
        lemma_write_words_read_back(s1, DDR_PHY, phy_data, 1152, 1215, a);
        lemma_write_words_read_back(s2, DDR_PHY, phy_data, 0, 1152, a);
    }
    if 0 <= j < 1215 {
        let a = word_addr(DDR_PHY, j);
        lemma_write_words_read_back(s1, DDR_PHY, phy_data, 1152, 1215, a);
        lemma_write_words_read_back(s2, DDR_PHY, phy_data, 0, 1152, a);
    }
}

} // verus!
