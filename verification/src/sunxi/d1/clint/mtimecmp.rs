//! Machine timer compare register.
use vstd::prelude::*;
use crate::mmio::{Mmio, st_write};
use crate::sunxi::d1::clint::{CLINT_BASE, MTIMECMPL};

verus! {

/// Sets the timer compare value: low word first, then high word.
pub fn write(bus: &mut Mmio, word: u64)
    ensures
        final(bus).state() == st_write(
            st_write(old(bus).state(), (CLINT_BASE + MTIMECMPL) as u64, (word % 0x1_0000_0000) as u32),
            (CLINT_BASE + MTIMECMPL + 4) as u64,
            (word / 0x1_0000_0000) as u32,
        ),
{
    let lo = (word & 0xffff_ffff) as u32;
    let hi = (word >> 32u64) as u32;
    assert(word & 0xffff_ffff == word % 0x1_0000_0000 && word >> 32u64 == word / 0x1_0000_0000)
        by (bit_vector);
    bus.write32(CLINT_BASE + MTIMECMPL, lo);
    bus.write32(CLINT_BASE + MTIMECMPL + 4, hi);
}

/// The two words that `write` stores make up the compare value: the low
/// word plus the high word times 2^32.
pub proof fn lemma_write_recomposes(word: u64)
    ensures
        ((word % 0x1_0000_0000) as u32) + ((word / 0x1_0000_0000) as u32) * 0x1_0000_0000 == word,
{
}

} // verus!
