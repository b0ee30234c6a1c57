//! The ACPI sleep state that the system wakes up from.
use vstd::prelude::*;

verus! {

/// Intel 82371EB (PIIX4E) datasheet, section 7.2.3, page 142
///
/// 0: soft off/suspend to disk                                   S5
/// 1: suspend to ram                                             S3
/// 2: powered on suspend, context lost                           S2
///    Note: 'context lost' means the CPU restarts at the reset
///          vector
/// 3: powered on suspend, CPU context lost                       S1
///    Note: Looks like 'CPU context lost' does _not_ mean the
///          CPU restarts at the reset vector. Most likely only
///          caches are lost, so both 0x3 and 0x4 map to acpi S1
/// 4: powered on suspend, context maintained                     S1
/// 5: working (clock control)                                    S0
/// 6: reserved
/// 7: reserved
pub open spec fn sus_to_slp_typ(sus: int) -> u8 {
    if sus == 0 {
        5
    } else if sus == 1 {
        3
    } else if sus == 2 {
        2
    } else if sus == 3 || sus == 4 {
        1
    } else {
        0
    }
}

/// The table of `sus_to_slp_typ`, indexed by the suspend type.
pub fn acpi_sus_to_slp_typ() -> (t: [u8; 8])
    ensures
        forall|i: int| 0 <= i < 8 ==> t@[i] == sus_to_slp_typ(i),
{
    let t: [u8; 8] = [5, 3, 2, 1, 1, 0, 0, 0];
    assert(t@[0] == 5 && t@[1] == 3 && t@[2] == 2 && t@[3] == 1 && t@[4] == 1);
    assert(t@[5] == 0 && t@[6] == 0 && t@[7] == 0);
    t
}

/// The ACPI sleep type S0..S5 that the suspend type field (bits 12:10) of
/// the power management control register `pmcntrl` stands for.
pub fn acpi_get_sleep_type(pmcntrl: u16) -> (r: u8)
    ensures
        r == sus_to_slp_typ(((pmcntrl >> 10u16) & 7) as int),
{
    let table = acpi_sus_to_slp_typ();
    let i = ((pmcntrl >> 10u16) & 7) as usize;
    assert((pmcntrl >> 10u16) & 7 < 8) by (bit_vector);
    table[i]
}

} // verus!
