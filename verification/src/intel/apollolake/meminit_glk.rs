//! Gemini Lake memory information for SMBIOS.
use vstd::prelude::*;
use crate::intel::apollolake::meminit::Lpddr4Cfg;

verus! {

pub const FSP_SMBIOS_MEMORY_INFO_GUID: [u8; 16] = [
    0x8c, 0x10, 0xa1, 0x01, 0xee, 0x9d, 0x84, 0x49, 0x88, 0xc3, 0xee, 0xe8, 0xc4, 0x9e, 0xfb, 0x89,
];

/// Records the DRAM part number for the SMBIOS memory tables.  The memory
/// information HOB is not consumed yet, so nothing is recorded.
pub fn save_lpddr4_dimm_info_part_num(_dram_part_num: &str) {
}

/// Records the part number of SKU `mem_sku`, or an empty part number when
/// the board has fewer SKUs; returns the part number passed on.
pub fn save_lpddr4_dimm_info(lp4cfg: &Lpddr4Cfg, mem_sku: usize) -> (r: &'static str)
    ensures
        mem_sku < lp4cfg.skus@.len() ==> r == lp4cfg.skus@[mem_sku as int].part_num,
        mem_sku >= lp4cfg.skus@.len() ==> r@ == ""@,
{
    let mut part_num = "";
    if mem_sku < lp4cfg.skus.len() {
        part_num = lp4cfg.skus[mem_sku].part_num;
    }
    save_lpddr4_dimm_info_part_num(part_num);
    part_num
}

} // verus!
