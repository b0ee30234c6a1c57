//! CPU state of the Apollo Lake / Gemini Lake SoC.
use vstd::prelude::*;

verus! {

/// MSR that holds the IA untrusted mode bit.
pub const MSR_POWER_MISC: u32 = 0x120;
/// IA untrusted mode enable in MSR_POWER_MISC.
pub const ENABLE_IA_UNTRUSTED: u32 = 1 << 6;

/// Whether the SoC runs in IA untrusted mode, from the low half of
/// MSR_POWER_MISC.
pub fn cpu_soc_is_in_untrusted_mode(msr_lo: u32) -> (r: bool)
    ensures
        r == (msr_lo & 0x40 != 0),
{
    assert(1u32 << 6u32 == 0x40u32) by (bit_vector);
    (msr_lo & ENABLE_IA_UNTRUSTED) != 0
}

} // verus!
