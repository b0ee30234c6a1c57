//! Intel GPIO communities, pad groups and pad configuration.
pub mod gpio_defs;

use vstd::prelude::*;
use crate::intel::Error;
use crate::mmio::{Mmio, RegState, reg_value, st_write, st_rmw, st_or};
use crate::intel::common::block::pcr::{pcr_read32, pcr_write32, pcr_rmw32, pcr_or32,
    spec_pcr_reg_address, PcrSbiMsg, PcrSbiOpcode, SbiSession};
use crate::intel::common::block::p2sb::{p2sb_hide, p2sb_unhide, hide_bit_step, PCH_DEV_P2SB};
use crate::intel::apollolake::gpio_glk::{soc_gpio_get_community, glk_comm_of, glk_layout,
    lemma_glk_lookup, lemma_glk_groups_cover, is_glk_table};

verus! {

/// Global pad number.
pub type Gpio = u32;

pub const BITS_PER_BYTE: usize = 8;
/// Number of 32-bit words that track which IOAPIC IRQs GPIO pads use.
pub const GPIO_IOAPIC_IRQS_USED_LEN: usize = 241;
pub const PAD_BASE_NONE: i32 = -1;
/// Bits of DW0 that a pad configuration sets; the others keep their value.
pub const PAD_DW0_MASK: u32 = 0xfffe_1f01;
/// Bits of DW1 that a pad configuration sets.
pub const PAD_DW1_MASK: u32 = 0x3f00;
/// Bits of DW2 that a pad configuration sets.
pub const PAD_DW2_MASK: u32 = 0x1f;
/// Bits of DW3 that a pad configuration sets.
pub const PAD_DW3_MASK: u32 = 0;

pub open spec fn spec_pad_dw_mask(i: int) -> u32 {
    if i == 0 {
        PAD_DW0_MASK
    } else if i == 1 {
        PAD_DW1_MASK
    } else if i == 2 {
        PAD_DW2_MASK
    } else {
        PAD_DW3_MASK
    }
}

/// Mask of the bits of DW`i` that a pad configuration owns.
pub fn pad_dw_mask(i: usize) -> (m: u32)
    requires
        i < 4,
    ensures
        m == spec_pad_dw_mask(i as int),
{
    if i == 0 {
        PAD_DW0_MASK
    } else if i == 1 {
        PAD_DW1_MASK
    } else if i == 2 {
        PAD_DW2_MASK
    } else {
        PAD_DW3_MASK
    }
}

/// Size in bytes of `x` configuration words.
pub fn gpio_dwx_size(x: u32) -> (r: u32)
    requires
        4 * x <= u32::MAX,
    ensures
        r == 4 * x,
{
    4 * x
}

/// Offset of configuration word `dw_num` of the pad whose DW0 is at `x`.
pub fn pad_cfg_offset(x: u32, dw_num: u32) -> (r: u32)
    requires
        x + 4 * dw_num <= u32::MAX,
    ensures
        r == x + 4 * dw_num,
{
    x + gpio_dwx_size(dw_num)
}

/// Offset of DW1 of the pad whose DW0 is at `x`.
pub fn pad_cfg1_offset(x: u32) -> (r: u32)
    requires
        x + 4 <= u32::MAX,
    ensures
        r == x + 4,
{
    pad_cfg_offset(x, 1)
}

/// Which parts of a pad's configuration to lock.
#[derive(Debug, Clone, Copy, PartialEq, Eq, Structural)]
pub enum GpioLockAction {
    Unlock,
    LockConfig,
    LockTx,
    LockFull,
}

impl GpioLockAction {
    pub open spec fn spec_value(self) -> u32 {
        match self {
            GpioLockAction::Unlock => 0,
            GpioLockAction::LockConfig => 1,
            GpioLockAction::LockTx => 2,
            GpioLockAction::LockFull => 3,
        }
    }

    pub fn value(self) -> (v: u32)
        ensures
            v == self.spec_value(),
    {
        match self {
            GpioLockAction::Unlock => 0,
            GpioLockAction::LockConfig => 1,
            GpioLockAction::LockTx => 2,
            GpioLockAction::LockFull => 3,
        }
    }
}

/// Logical to chipset value of the PADRSTCFG field of DW0; both values are
/// in place within the register (bits 31:30).
#[derive(Clone, Copy)]
pub struct ResetMapping {
    pub logical: u32,
    pub chipset: u32,
}

/// A group of pads within a community.
#[derive(Clone, Copy)]
pub struct PadGroup {
    /// Offset of first pad of the group relative to the community
    pub first_pad: i32,
    /// Size of the group
    pub size: u32,
    /// Starting ACPI pin number of the group, or `PAD_BASE_NONE` when pins
    /// are numbered contiguously across groups.
    pub acpi_pad_base: i32,
}

impl PadGroup {
    pub fn intel_gpp_base(
        first_of_community: i32,
        start_of_group: u32,
        end_of_group: u32,
        group_pad_base: i32,
    ) -> (g: Self)
        requires
            i32::MIN <= (start_of_group as i32) - first_of_community <= i32::MAX,
            start_of_group <= end_of_group,
            end_of_group - start_of_group < u32::MAX,
        ensures
            g.first_pad == (start_of_group as i32) - first_of_community,
            g.size == end_of_group - start_of_group + 1,
            g.acpi_pad_base == group_pad_base,
    {
        PadGroup {
            first_pad: start_of_group as i32 - first_of_community,
            size: end_of_group - start_of_group + 1,
            acpi_pad_base: group_pad_base,
        }
    }

    pub fn intel_gpp(first_of_community: i32, start_of_group: u32, end_of_group: u32) -> (g: Self)
        requires
            i32::MIN <= (start_of_group as i32) - first_of_community <= i32::MAX,
            start_of_group <= end_of_group,
            end_of_group - start_of_group < u32::MAX,
        ensures
            g.first_pad == (start_of_group as i32) - first_of_community,
            g.size == end_of_group - start_of_group + 1,
            g.acpi_pad_base == PAD_BASE_NONE,
    {
        Self::intel_gpp_base(first_of_community, start_of_group, end_of_group, PAD_BASE_NONE)
    }

    /// Whether relative pad `rel` lies in this group.
    pub open spec fn contains(self, rel: u32) -> bool {
        &&& rel >= self.first_pad as u32
        &&& rel < (self.first_pad as u32) + self.size
    }
}

/// A range of consecutive virtual-wire entries in a community
#[derive(Clone, Copy)]
pub struct VwEntries {
    pub first_pad: Gpio,
    pub last_pad: Gpio,
}

/// Index of the first group at or after `start` that contains `rel`.
pub open spec fn first_group(groups: Seq<PadGroup>, rel: u32, start: int) -> Option<int>
    decreases groups.len() - start,
{
    if start < 0 || start >= groups.len() {
        None
    } else if groups[start].contains(rel) {
        Some(start)
    } else {
        first_group(groups, rel, start + 1)
    }
}

/// Chipset value of the reset field for `config`, from the first mapping at
/// or after `start` whose logical value matches.
pub open spec fn reset_override(map: Seq<ResetMapping>, config: u32, start: int) -> u32
    decreases map.len() - start,
{
    if start < 0 || start >= map.len() {
        config
    } else if config & 0xc000_0000 == map[start].logical {
        (config & !0xc000_0000u32) | map[start].chipset
    } else {
        reset_override(map, config, start + 1)
    }
}

pub proof fn lemma_first_group_found(groups: Seq<PadGroup>, rel: u32, start: int)
    requires
        0 <= start,
    ensures
        first_group(groups, rel, start) matches Some(i) ==> start <= i < groups.len()
            && groups[i].contains(rel),
        first_group(groups, rel, start) is None ==> forall|j: int|
            start <= j < groups.len() ==> !(#[trigger] groups[j].contains(rel)),
    decreases groups.len() - start,
{
    if start < groups.len() && !groups[start].contains(rel) {
        lemma_first_group_found(groups, rel, start + 1);
    }
}

/// A GPIO community: a block of pads behind one PCR port.
pub struct PadCommunity {
    pub name: &'static str,
    pub acpi_path: &'static str,
    /// Number of GPI registers in community
    pub num_gpi_regs: usize,
    /// Number of pads bit mapped in each GPI status/en and Host Own Reg
    pub max_pads_per_group: usize,
    /// First pad in community
    pub first_pad: Gpio,
    /// Last pad in community
    pub last_pad: Gpio,
    /// Offset to Host Ownership Reg 0
    pub host_own_reg_0: u16,
    /// Offset to GPI Int STS Reg 0
    pub gpi_int_sts_reg_0: u16,
    /// Offset to GPI Int Enable Reg 0
    pub gpi_int_en_reg_0: u16,
    /// Offset to GPI SMI STS Reg 0
    pub gpi_smi_sts_reg_0: u16,
    /// Offset to GPI SMI EN Reg 0
    pub gpi_smi_en_reg_0: u16,
    /// Offset to GPI GPE STS Reg 0
    pub gpi_gpe_sts_reg_0: u16,
    /// Offset to GPI GPE EN Reg 0
    pub gpi_gpe_en_reg_0: u16,
    /// Offset to GPI NMI STS Reg 0
    pub gpi_nmi_sts_reg_0: u16,
    /// Offset to GPI NMI EN Reg 0
    pub gpi_nmi_en_reg_0: u16,
    /// Offset to first PAD_GFG_DW0 Reg
    pub pad_cfg_base: u16,
    /// Offset to first PADCFGLOCK Reg
    pub pad_cfg_lock_offset: u16,
    /// Specifies offset in struct GpiStatus
    pub gpi_status_offset: u8,
    /// PCR Port ID
    pub port: u8,
    /// CPU Port ID
    pub cpu_port: u8,
    /// PADRSTCFG logical to chipset mapping
    pub reset_map: Vec<ResetMapping>,
    pub groups: Vec<PadGroup>,
    pub vw_base: u32,
    /// Entries in the order in which they map to VW indexes (from VW base)
    pub vw_entries: Vec<VwEntries>,
}

/// The register layout of a community, as used in specifications.
pub struct CommLayout {
    pub port: u8,
    pub first_pad: u32,
    pub last_pad: u32,
    pub pad_cfg_base: u16,
    pub host_own_reg_0: u16,
    pub gpi_smi_sts_reg_0: u16,
    pub gpi_smi_en_reg_0: u16,
    pub gpi_nmi_sts_reg_0: u16,
    pub gpi_nmi_en_reg_0: u16,
    pub gpi_gpe_en_reg_0: u16,
    pub pad_cfg_lock_offset: u16,
    pub gpi_status_offset: u8,
    pub groups: Seq<PadGroup>,
    pub reset_map: Seq<ResetMapping>,
}

impl CommLayout {
    pub open spec fn has_pad(self, pad: Gpio) -> bool {
        self.first_pad <= pad <= self.last_pad
    }

    pub open spec fn group_of(self, rel: u32) -> Option<int> {
        first_group(self.groups, rel, 0)
    }

    pub open spec fn within_of(self, rel: u32) -> Option<int> {
        match self.group_of(rel) {
            Some(i) => Some(rel - self.groups[i].first_pad),
            None => None,
        }
    }

    /// PCR address of register `off` of this community's port.
    pub open spec fn addr(self, off: int) -> u64 {
        spec_pcr_reg_address(self.port, off as u16)
    }
}

impl PadCommunity {
    pub open spec fn layout(&self) -> CommLayout {
        CommLayout {
            port: self.port,
            first_pad: self.first_pad,
            last_pad: self.last_pad,
            pad_cfg_base: self.pad_cfg_base,
            host_own_reg_0: self.host_own_reg_0,
            gpi_smi_sts_reg_0: self.gpi_smi_sts_reg_0,
            gpi_smi_en_reg_0: self.gpi_smi_en_reg_0,
            gpi_nmi_sts_reg_0: self.gpi_nmi_sts_reg_0,
            gpi_nmi_en_reg_0: self.gpi_nmi_en_reg_0,
            gpi_gpe_en_reg_0: self.gpi_gpe_en_reg_0,
            pad_cfg_lock_offset: self.pad_cfg_lock_offset,
            gpi_status_offset: self.gpi_status_offset,
            groups: self.groups@,
            reset_map: self.reset_map@,
        }
    }

    /// Whether `pad` belongs to this community.
    pub open spec fn has_pad(&self, pad: Gpio) -> bool {
        self.first_pad <= pad <= self.last_pad
    }

    /// Index of the group that holds relative pad `rel`.
    pub open spec fn group_of(&self, rel: u32) -> Option<int> {
        first_group(self.groups@, rel, 0)
    }

    /// Position of relative pad `rel` within its group.
    pub open spec fn within_of(&self, rel: u32) -> Option<int> {
        match self.group_of(rel) {
            Some(i) => Some(rel - self.groups@[i].first_pad),
            None => None,
        }
    }

    /// Offset of a register that has one word per group.
    pub open spec fn group_reg(reg0: u16, group: int) -> int {
        reg0 + group * 4
    }

    /// Offset of the DW0 register of `pad`.
    pub open spec fn spec_pad_config_offset(&self, pad: Gpio) -> int {
        (pad - self.first_pad) * 16 + self.pad_cfg_base
    }

    /// The shape that the drivers rely on: group ranges that fit in 32 bits,
    /// at most 32 pads per group, 4-byte aligned register offsets, and
    /// register offsets that fit in 16 bits for every pad and group.
    pub open spec fn wf(&self) -> bool {
        &&& self.first_pad <= self.last_pad
        &&& self.pad_cfg_base % 4 == 0
        &&& (self.last_pad - self.first_pad) * 16 + self.pad_cfg_base + 12 <= 0xffff
        &&& self.groups@.len() <= 8
        &&& forall|i: int|
            0 <= i < self.groups@.len() ==> {
                &&& #[trigger] self.groups@[i].first_pad >= 0
                &&& self.groups@[i].size <= 32
                &&& self.groups@[i].first_pad + self.groups@[i].size <= 0xffff
            }
        &&& self.host_own_reg_0 % 4 == 0 && self.host_own_reg_0 + 32 <= 0xffff
        &&& self.gpi_smi_sts_reg_0 % 4 == 0 && self.gpi_smi_sts_reg_0 + 32 <= 0xffff
        &&& self.gpi_smi_en_reg_0 % 4 == 0 && self.gpi_smi_en_reg_0 + 32 <= 0xffff
        &&& self.gpi_nmi_sts_reg_0 % 4 == 0 && self.gpi_nmi_sts_reg_0 + 32 <= 0xffff
        &&& self.gpi_nmi_en_reg_0 % 4 == 0 && self.gpi_nmi_en_reg_0 + 32 <= 0xffff
        &&& self.gpi_gpe_en_reg_0 % 4 == 0 && self.gpi_gpe_en_reg_0 + 32 <= 0xffff
        &&& self.gpi_gpe_sts_reg_0 % 4 == 0 && self.gpi_gpe_sts_reg_0 + 32 <= 0xffff
        &&& self.gpi_int_sts_reg_0 % 4 == 0 && self.gpi_int_sts_reg_0 + 32 <= 0xffff
        &&& self.gpi_int_en_reg_0 % 4 == 0 && self.gpi_int_en_reg_0 + 32 <= 0xffff
        &&& self.pad_cfg_lock_offset % 4 == 0 && self.pad_cfg_lock_offset + 64 <= 0xffff
    }

    /// Offset of the DW0 register of `pad`.
    pub fn pad_config_offset(&self, pad: Gpio) -> (r: u16)
        requires
            self.first_pad <= pad,
            (pad - self.first_pad) % 0x10000 * 16 + self.pad_cfg_base <= 0xffff,
        ensures
            r == (pad - self.first_pad) % 0x10000 * 16 + self.pad_cfg_base,
    {
        let rel = self.relative_pad_in_comm(pad);
        let mut offset: u16 = (rel % 0x10000) as u16;
        offset = offset * (gpio_dwx_size(4) as u16);
        offset + self.pad_cfg_base
    }

    /// Position of `gpio` relative to the first pad of the community.
    pub fn relative_pad_in_comm(&self, gpio: Gpio) -> (r: usize)
        requires
            self.first_pad <= gpio,
        ensures
            r == gpio - self.first_pad,
    {
        gpio as usize - self.first_pad as usize
    }

    /// Index of the first group that holds relative pad `relative_pad`.
    pub fn gpio_group_index(&self, relative_pad: u32) -> (r: Result<usize, Error>)
        requires
            forall|i: int|
                0 <= i < self.groups@.len() ==> (#[trigger] self.groups@[i].first_pad as u32)
                    + self.groups@[i].size <= u32::MAX,
        ensures
            match r {
                Ok(i) => self.group_of(relative_pad) == Some(i as int),
                Err(e) => e == Error::MissingCommunityPad && self.group_of(relative_pad) is None,
            },
    {
        let mut i: usize = 0;
        while i < self.groups.len()
            invariant
                i <= self.groups@.len(),
                first_group(self.groups@, relative_pad, 0) == first_group(
                    self.groups@,
                    relative_pad,
                    i as int,
                ),
                forall|k: int|
                    0 <= k < self.groups@.len() ==> (#[trigger] self.groups@[k].first_pad as u32)
                        + self.groups@[k].size <= u32::MAX,
            decreases self.groups@.len() - i,
        {
            let group = &self.groups[i];
            if relative_pad >= group.first_pad as u32 && relative_pad < group.first_pad as u32
                + group.size {
                return Ok(i);
            }
            i = i + 1;
        }
        Err(Error::MissingCommunityPad)
    }

    /// Replaces the logical reset domain of DW0 by its chipset encoding.
    pub fn gpio_pad_reset_config_override(&self, config_value: u32) -> (r: u32)
        ensures
            r == reset_override(self.reset_map@, config_value, 0),
    {
        let rst_map = &self.reset_map;
        if rst_map.len() == 0 {
            return config_value;
        }
        let mut i: usize = 0;
        while i < rst_map.len()
            invariant
                i <= rst_map@.len(),
                rst_map == &self.reset_map,
                reset_override(rst_map@, config_value, 0) == reset_override(
                    rst_map@,
                    config_value,
                    i as int,
                ),
            decreases rst_map@.len() - i,
        {
            let rst = &rst_map[i];
            if config_value & gpio_defs::PadCfg0Mask::Reset.bits() == rst.logical {
                let mut ret = config_value & !gpio_defs::PadCfg0Mask::Reset.bits();
                ret = ret | rst.chipset;
                return ret;
            }
            i = i + 1;
        }
        config_value
    }

    /// Group index of `relative_pad` multiplied by `scale`.
    pub fn gpio_group_index_scaled(&self, relative_pad: u32, scale: usize) -> (r: Result<
        usize,
        Error,
    >)
        requires
            forall|i: int|
                0 <= i < self.groups@.len() ==> (#[trigger] self.groups@[i].first_pad as u32)
                    + self.groups@[i].size <= u32::MAX,
            self.group_of(relative_pad) matches Some(i) ==> i * scale <= usize::MAX,
        ensures
            match r {
                Ok(v) => self.group_of(relative_pad) matches Some(i) && v == i * scale,
                Err(e) => e == Error::MissingCommunityPad && self.group_of(relative_pad) is None,
            },
    {
        let i = match self.gpio_group_index(relative_pad) {
            Ok(i) => i,
            Err(e) => return Err(e),
        };
        Ok(i * scale)
    }

    /// Position of `relative_pad` within its group.
    pub fn gpio_within_group(&self, relative_pad: u32) -> (r: Result<usize, Error>)
        requires
            forall|i: int|
                0 <= i < self.groups@.len() ==> (#[trigger] self.groups@[i].first_pad as u32)
                    + self.groups@[i].size <= u32::MAX,
            self.group_of(relative_pad) matches Some(i) ==> self.groups@[i].first_pad >= 0,
        ensures
            match r {
                Ok(w) => self.within_of(relative_pad) == Some(w as int),
                Err(e) => e == Error::MissingCommunityPad && self.within_of(relative_pad) is None,
            },
    {
        let i = match self.gpio_group_index(relative_pad) {
            Ok(i) => i,
            Err(e) => return Err(e),
        };
        proof {
            lemma_first_group_found(self.groups@, relative_pad, 0);
        }
        Ok(relative_pad as usize - self.groups[i].first_pad as usize)
    }

    /// Bit of `relative_pad` within the per-group registers.
    pub fn gpio_bitmask_within_group(&self, relative_pad: u32) -> (r: Result<u32, Error>)
        requires
            forall|i: int|
                0 <= i < self.groups@.len() ==> (#[trigger] self.groups@[i].first_pad as u32)
                    + self.groups@[i].size <= u32::MAX,
            self.group_of(relative_pad) matches Some(i) ==> self.groups@[i].first_pad >= 0,
            self.within_of(relative_pad) matches Some(w) ==> w < 32,
        ensures
            match r {
                Ok(m) => self.within_of(relative_pad) matches Some(w) && m == 1u32 << (w as u32),
                Err(e) => e == Error::MissingCommunityPad && self.within_of(relative_pad) is None,
            },
    {
        let w = match self.gpio_within_group(relative_pad) {
            Ok(w) => w,
            Err(e) => return Err(e),
        };
        Ok(1u32 << (w as u32))
    }

    pub fn gpi_smi_sts_offset(&self, group: u32) -> (r: u32)
        requires
            self.gpi_smi_sts_reg_0 + group * 4 <= u32::MAX,
        ensures
            r == self.gpi_smi_sts_reg_0 + group * 4,
    {
        self.gpi_smi_sts_reg_0 as u32 + group * 4
    }

    pub fn gpi_smi_en_offset(&self, group: u32) -> (r: u32)
        requires
            self.gpi_smi_en_reg_0 + group * 4 <= u32::MAX,
        ensures
            r == self.gpi_smi_en_reg_0 + group * 4,
    {
        self.gpi_smi_en_reg_0 as u32 + group * 4
    }

    pub fn gpi_nmi_sts_offset(&self, group: u32) -> (r: u32)
        requires
            self.gpi_nmi_sts_reg_0 + group * 4 <= u32::MAX,
        ensures
            r == self.gpi_nmi_sts_reg_0 + group * 4,
    {
        self.gpi_nmi_sts_reg_0 as u32 + group * 4
    }

    pub fn gpi_nmi_en_offset(&self, group: u32) -> (r: u32)
        requires
            self.gpi_nmi_en_reg_0 + group * 4 <= u32::MAX,
        ensures
            r == self.gpi_nmi_en_reg_0 + group * 4,
    {
        self.gpi_nmi_en_reg_0 as u32 + group * 4
    }

    pub fn gpi_is_offset(&self, group: u32) -> (r: u32)
        requires
            self.gpi_int_sts_reg_0 + group * 4 <= u32::MAX,
        ensures
            r == self.gpi_int_sts_reg_0 + group * 4,
    {
        self.gpi_int_sts_reg_0 as u32 + group * 4
    }

    pub fn gpi_ie_offset(&self, group: u32) -> (r: u32)
        requires
            self.gpi_int_en_reg_0 + group * 4 <= u32::MAX,
        ensures
            r == self.gpi_int_en_reg_0 + group * 4,
    {
        self.gpi_int_en_reg_0 as u32 + group * 4
    }

    pub fn gpi_gpe_sts_offset(&self, group: u32) -> (r: u32)
        requires
            self.gpi_gpe_sts_reg_0 + group * 4 <= u32::MAX,
        ensures
            r == self.gpi_gpe_sts_reg_0 + group * 4,
    {
        self.gpi_gpe_sts_reg_0 as u32 + group * 4
    }

    pub fn gpi_gpe_en_offset(&self, group: u32) -> (r: u32)
        requires
            self.gpi_gpe_en_reg_0 + group * 4 <= u32::MAX,
        ensures
            r == self.gpi_gpe_en_reg_0 + group * 4,
    {
        self.gpi_gpe_en_reg_0 as u32 + group * 4
    }

    pub fn gpi_status_offset(&self) -> (r: u32)
        ensures
            r == self.gpi_status_offset,
    {
        self.gpi_status_offset as u32
    }
}

/// Index of the first community at or after `start` that holds `pad`.
pub open spec fn first_community(comms: Seq<PadCommunity>, pad: Gpio, start: int) -> Option<int>
    decreases comms.len() - start,
{
    if start < 0 || start >= comms.len() {
        None
    } else if comms[start].has_pad(pad) {
        Some(start)
    } else {
        first_community(comms, pad, start + 1)
    }
}

pub proof fn lemma_first_community_found(comms: Seq<PadCommunity>, pad: Gpio, start: int)
    requires
        0 <= start,
    ensures
        first_community(comms, pad, start) matches Some(i) ==> start <= i < comms.len()
            && comms[i].has_pad(pad),
        first_community(comms, pad, start) is None ==> forall|j: int|
            start <= j < comms.len() ==> !(#[trigger] comms[j].has_pad(pad)),
    decreases comms.len() - start,
{
    if start < comms.len() && !comms[start].has_pad(pad) {
        lemma_first_community_found(comms, pad, start + 1);
    }
}

/// The community that holds `pad`.
pub fn gpio_get_community<'a>(pad: Gpio, communities: &'a [PadCommunity]) -> (r: Result<
    &'a PadCommunity,
    Error,
>)
    ensures
        match first_community(communities@, pad, 0) {
            Some(i) => r matches Ok(c) && *c == communities@[i],
            None => r == Err::<&PadCommunity, Error>(Error::MissingCommunityPad),
        },
{
    let mut i: usize = 0;
    while i < communities.len()
        invariant
            i <= communities@.len(),
            first_community(communities@, pad, 0) == first_community(communities@, pad, i as int),
        decreases communities@.len() - i,
    {
        let comm = &communities[i];
        if pad >= comm.first_pad && pad <= comm.last_pad {
            return Ok(comm);
        }
        i = i + 1;
    }
    Err(Error::MissingCommunityPad)
}


/// Configuration of one pad: its DW0..DW3 values and how to lock it.
#[derive(Clone, Copy)]
pub struct PadConfig {
    /// Global pad number
    pub pad: Gpio,
    /// Pad config data corresponding to DW0, DW1, ...
    pub pad_config: [u32; 4],
    /// Pad lock configuration
    pub lock_action: GpioLockAction,
}

impl PadConfig {
    pub fn new() -> (c: Self)
        ensures
            c.pad == 0,
            c.pad_config@ == seq![0u32, 0u32, 0u32, 0u32],
            c.lock_action == GpioLockAction::Unlock,
    {
        PadConfig { pad: 0, pad_config: [0, 0, 0, 0], lock_action: GpioLockAction::Unlock }
    }

    pub fn create(pad: Gpio, config0: u32, config1: u32) -> (c: Self)
        ensures
            c.pad == pad,
            c.pad_config@ == seq![config0, config1, 0u32, 0u32],
            c.lock_action == GpioLockAction::Unlock,
    {
        PadConfig { pad, pad_config: [config0, config1, 0, 0], lock_action: GpioLockAction::Unlock }
    }

    pub fn create_lock(pad: Gpio, config0: u32, config1: u32, lock_action: GpioLockAction) -> (c:
        Self)
        ensures
            c.pad == pad,
            c.pad_config@ == seq![config0, config1, 0u32, 0u32],
            c.lock_action == lock_action,
    {
        PadConfig { pad, pad_config: [config0, config1, 0, 0], lock_action }
    }

    /// The first configuration in `override_cfg` for the same pad.
    pub fn gpio_get_config<'a>(&self, override_cfg: &'a [PadConfig]) -> (r: Option<&'a PadConfig>)
        ensures
            match first_override(override_cfg@, self.pad, 0) {
                Some(i) => r == Some(&override_cfg@[i]),
                None => r is None,
            },
    {
        let mut i: usize = 0;
        while i < override_cfg.len()
            invariant
                i <= override_cfg@.len(),
                first_override(override_cfg@, self.pad, 0) == first_override(
                    override_cfg@,
                    self.pad,
                    i as int,
                ),
            decreases override_cfg@.len() - i,
        {
            if self.pad == override_cfg[i].pad {
                return Some(&override_cfg[i]);
            }
            i = i + 1;
        }
        None
    }

    /// SoC hook to adjust the value written to DW`dw_reg`; this SoC keeps it.
    pub fn soc_gpio_pad_config_fixup(&self, dw_reg: i32, reg_val: u32) -> (r: u32)
        ensures
            r == reg_val,
    {
        reg_val
    }
}

/// Build-time and run-time facts about the firmware stage that the GPIO
/// driver consults.
#[derive(Clone, Copy)]
pub struct GpioEnv {
    /// Running in romstage or earlier.
    pub romstage_or_before: bool,
    /// Running in system management mode.
    pub smm: bool,
    /// Verified boot is in recovery mode.
    pub recovery_mode: bool,
    /// Pads are locked from SMM.
    pub smm_lock_gpio_pads: bool,
    /// Pads are locked by writing the lock registers through PCR.
    pub lock_using_pcr: bool,
    /// Pads are locked by sideband messages.
    pub lock_using_sbi: bool,
    /// The IA untrusted mode bit of MSR_POWER_MISC is set.
    pub untrusted_mode: bool,
    /// ITSS interrupt polarity is programmed from the pad configuration.
    pub itss_pol_cfg: bool,
}

/// Bit map of the IOAPIC IRQs that GPIO pads are routed to.
pub struct IoapicIrqsUsed {
    pub words: Vec<u32>,
}

impl IoapicIrqsUsed {
    pub open spec fn wf(&self) -> bool {
        self.words@.len() == GPIO_IOAPIC_IRQS_USED_LEN
    }

    /// No IRQ in use.
    pub fn new() -> (r: Self)
        ensures
            r.wf(),
            forall|i: int| 0 <= i < r.words@.len() ==> r.words@[i] == 0,
    {
        let mut words: Vec<u32> = Vec::new();
        let mut i: usize = 0;
        while i < GPIO_IOAPIC_IRQS_USED_LEN
            invariant
                i <= GPIO_IOAPIC_IRQS_USED_LEN,
                words@.len() == i,
                forall|j: int| 0 <= j < i ==> words@[j] == 0,
            decreases GPIO_IOAPIC_IRQS_USED_LEN - i,
        {
            words.push(0);
            i = i + 1;
        }
        IoapicIrqsUsed { words }
    }
}

/// Marks IOAPIC IRQ `irq` as used by a GPIO pad.
pub fn set_ioapic_used(irqs: &mut IoapicIrqsUsed, irq: u32)
    requires
        old(irqs).wf(),
        irq / 32 < GPIO_IOAPIC_IRQS_USED_LEN,
    ensures
        final(irqs).wf(),
        final(irqs).words@ == old(irqs).words@.update(
            (irq / 32) as int,
            old(irqs).words@[(irq / 32) as int] | (1u32 << (irq % 32)),
        ),
{
    let word_offset = irq / 32;
    let bit_offset = irq % 32;
    let w = irqs.words[word_offset as usize];
    irqs.words.set(word_offset as usize, w | (1u32 << bit_offset));
}

/// Everything the GPIO driver reads and writes.
pub struct GpioPlatform {
    /// PCR register space behind the P2SB.
    pub pcr: Mmio,
    /// PCI configuration space.
    pub pci_cfg: Mmio,
    /// IOAPIC IRQs used by GPIO pads.
    pub irqs: IoapicIrqsUsed,
    /// Sideband messages that the platform is to send, oldest first.
    pub sbi_queue: Vec<QueuedSbi>,
    pub env: GpioEnv,
}

/// A sideband transaction to send, and how many writes to the PCR space
/// and to the PCI configuration space precede it: it is sent after those
/// writes and before the ones that follow.
#[derive(Clone, Copy)]
pub struct QueuedSbi {
    pub after_pcr_writes: usize,
    pub after_cfg_writes: usize,
    pub session: SbiSession,
}

/// DW value that keeps the bits of `cur` outside `mask` and takes the
/// configured bits inside it.
pub open spec fn dw_merge(cfg: u32, cur: u32, mask: u32) -> u32 {
    (cfg & mask) | (cur & !mask)
}

/// Value written to DW`i` of a pad whose register currently holds `cur`.
pub open spec fn pad_dw_value(l: CommLayout, pc: PadConfig, i: int, cur: u32) -> u32 {
    let c = if i == 0 {
        reset_override(l.reset_map, pc.pad_config@[0], 0)
    } else {
        pc.pad_config@[i]
    };
    dw_merge(c, cur, spec_pad_dw_mask(i))
}

/// The PCR state after writing DW0 to DW(n-1) of the pad whose DW0 is at
/// offset `off`.
pub open spec fn dws_step(s: RegState, l: CommLayout, pc: PadConfig, off: int, n: nat) -> RegState
    decreases n,
{
    if n == 0 {
        s
    } else {
        let prev = dws_step(s, l, pc, off, (n - 1) as nat);
        let a = l.addr(off + 4 * (n - 1));
        st_write(prev, a, pad_dw_value(l, pc, n - 1, reg_value(prev.0, a)))
    }
}

/// IOAPIC routing: the IRQ in DW1 is marked used, and its ITSS polarity
/// follows the receive inversion bit when polarity configuration is on.
pub open spec fn itss_step(
    pcr: RegState,
    irqs: Seq<u32>,
    env: GpioEnv,
    port: u8,
    pc: PadConfig,
    off: int,
) -> (RegState, Seq<u32>) {
    if env.smm || pc.pad_config@[0] & 0x10_0000 == 0 {
        (pcr, irqs)
    } else {
        let irq = reg_value(pcr.0, spec_pcr_reg_address(port, (off + 4) as u16)) & 0xff;
        let pcr2 = if env.itss_pol_cfg {
            crate::intel::common::block::itss::itss_polarity_step(
                pcr,
                irq as i32,
                if pc.pad_config@[0] & 0x80_0000 != 0 {
                    0x80_0000i32
                } else {
                    0i32
                },
            )
        } else {
            pcr
        };
        let w = (irq / 32) as int;
        (pcr2, irqs.update(w, irqs[w] | (1u32 << (irq % 32))))
    }
}

/// Host software ownership: the pad's bit in HOSTSW_OWN follows DW1 bit 4.
pub open spec fn owner_step(s: RegState, l: CommLayout, pc: PadConfig, pin: u32) -> RegState {
    let g = l.group_of(pin)->0;
    let m = 1u32 << (l.within_of(pin)->0 as u32);
    let a = l.addr(l.host_own_reg_0 + g * 4);
    let v = reg_value(s.0, a);
    st_write(s, a, if pc.pad_config@[1] & 0x10 != 0 {
        v | m
    } else {
        v & !m
    })
}

/// SMI routing: clear the pad's SMI status and enable its SMI.
pub open spec fn smi_step(s: RegState, l: CommLayout, pc: PadConfig, group: int, pin: u32) -> RegState {
    if pc.pad_config@[0] & 0x4_0000 != 0x4_0000 {
        s
    } else {
        let m = 1u32 << (l.within_of(pin)->0 as u32);
        let s1 = st_rmw(s, l.addr(l.gpi_smi_sts_reg_0 + group * 4), m, 0);
        st_or(s1, l.addr(l.gpi_smi_en_reg_0 + group * 4), m)
    }
}

/// NMI routing, where the community has NMI registers.
pub open spec fn nmi_step(s: RegState, l: CommLayout, pc: PadConfig, group: int, pin: u32) -> RegState {
    if pc.pad_config@[0] & 0x2_0000 != 0x2_0000 || l.gpi_nmi_sts_reg_0 == 0
        || l.gpi_nmi_en_reg_0 == 0 {
        s
    } else {
        let m = 1u32 << (l.within_of(pin)->0 as u32);
        let s1 = st_rmw(s, l.addr(l.gpi_nmi_sts_reg_0 + group * 4), m, 0);
        st_or(s1, l.addr(l.gpi_nmi_en_reg_0 + group * 4), m)
    }
}

/// SCI routing: enable the pad's GPE.
pub open spec fn gpe_step(s: RegState, l: CommLayout, pc: PadConfig, group: int, pin: u32) -> RegState {
    if pc.pad_config@[0] & 0x8_0000 != 0x8_0000 {
        s
    } else {
        let m = 1u32 << (l.within_of(pin)->0 as u32);
        st_or(s, l.addr(l.gpi_gpe_en_reg_0 + group * 4), m)
    }
}

impl PadConfig {
    /// Routes the pad's interrupt to the IOAPIC: marks the IRQ of DW1 used and
    /// sets its ITSS polarity.  Nothing is done in SMM or for pads that are
    /// not routed to the IOAPIC.
    pub fn gpio_configure_itss(&self, p: &mut GpioPlatform, port: u16, pad_cfg_offset: u16)
        requires
            old(p).irqs.wf(),
            pad_cfg_offset % 4 == 0,
            pad_cfg_offset + 4 <= 0xffff,
            port < 256,
        ensures
            final(p).irqs.wf(),
            (final(p).pcr.state(), final(p).irqs.words@) == itss_step(
                old(p).pcr.state(),
                old(p).irqs.words@,
                old(p).env,
                port as u8,
                *self,
                pad_cfg_offset as int,
            ),
            final(p).pci_cfg == old(p).pci_cfg,
            final(p).sbi_queue == old(p).sbi_queue,
            final(p).env == old(p).env,
    {
        if p.env.smm {
            return;
        }
        if self.pad_config[0] & gpio_defs::PadCfg0Route::Ioapic.bits() == 0 {
            return;
        }
        let raw = pcr_read32(&p.pcr, port as u8, pad_cfg1_offset(pad_cfg_offset as u32) as u16);
        let irq = raw & gpio_defs::PadCfg1Mask::Irq.bits();
        assert(raw & 0xff <= 0xff) by (bit_vector);
        if p.env.itss_pol_cfg {
            let inv = if self.pad_config[0] & gpio_defs::PadCfg0RxPol::Invert.bits() != 0 {
                0x80_0000i32
            } else {
                0i32
            };
            crate::intel::common::block::itss::itss_set_irq_polarity(&mut p.pcr, irq as i32, inv);
        }
        set_ioapic_used(&mut p.irqs, irq);
    }
}

/// In a well-formed community, a relative pad found in a group is at most
/// 31 places into it, and the group index is below the number of groups.
pub proof fn lemma_wf_group(comm: &PadCommunity, rel: u32)
    requires
        comm.wf(),
    ensures
        comm.group_of(rel) matches Some(g) ==> 0 <= g < comm.groups@.len() && g < 8,
        comm.within_of(rel) matches Some(w) ==> 0 <= w < 32,
        comm.layout().group_of(rel) == comm.group_of(rel),
        comm.layout().within_of(rel) == comm.within_of(rel),
        forall|i: int|
            0 <= i < comm.groups@.len() ==> (#[trigger] comm.groups@[i].first_pad as u32)
                + comm.groups@[i].size <= u32::MAX && comm.groups@[i].first_pad >= 0,
{
    lemma_first_group_found(comm.groups@, rel, 0);
    assert forall|i: int| 0 <= i < comm.groups@.len() implies (
    #[trigger] comm.groups@[i].first_pad as u32) + comm.groups@[i].size <= u32::MAX
        && comm.groups@[i].first_pad >= 0 by {
        assert(comm.groups@[i].first_pad >= 0);
    }
}

impl PadConfig {
    /// Gives the pad to the GPIO driver (HOSTSW_OWN bit set) when DW1 bit 4
    /// asks for it, and to ACPI otherwise.
    pub fn gpio_configure_owner(&self, pcr: &mut Mmio, comm: &PadCommunity) -> (r: Result<(), Error>)
        requires
            comm.wf(),
            comm.first_pad <= self.pad,
            self.pad - comm.first_pad <= u32::MAX,
        ensures
            ({
                let pin = (self.pad - comm.first_pad) as u32;
                match comm.group_of(pin) {
                    Some(g) => r == Ok::<(), Error>(()) && final(pcr).state() == owner_step(
                        old(pcr).state(),
                        comm.layout(),
                        *self,
                        pin,
                    ),
                    None => r == Err::<(), Error>(Error::MissingCommunityPad) && final(pcr).state()
                        == old(pcr).state(),
                }
            }),
    {
        let pin = comm.relative_pad_in_comm(self.pad);
        proof {
            lemma_wf_group(comm, pin as u32);
        }
        let mut hostsw_own_offset = comm.host_own_reg_0;
        let scaled = match comm.gpio_group_index_scaled(pin as u32, 4) {
            Ok(v) => v,
            Err(e) => return Err(e),
        };
        hostsw_own_offset = hostsw_own_offset + scaled as u16;
        let mut hostsw_own = pcr_read32(pcr, comm.port, hostsw_own_offset);
        let mask = match comm.gpio_bitmask_within_group(pin as u32) {
            Ok(m) => m,
            Err(e) => return Err(e),
        };
        if self.pad_config[1] & gpio_defs::PAD_CFG_OWN_GPIO_DRIVER != 0 {
            hostsw_own = hostsw_own | mask;
        } else {
            hostsw_own = hostsw_own & !mask;
        }
        pcr_write32(pcr, comm.port, hostsw_own_offset, hostsw_own);
        Ok(())
    }

    /// Enables the SMI of a pad routed to SMI, clearing its status first.
    pub fn gpi_enable_smi(&self, pcr: &mut Mmio, comm: &PadCommunity, group: i32, pin: i32) -> (r:
        Result<(), Error>)
        requires
            comm.wf(),
            0 <= group < comm.groups@.len(),
            0 <= pin,
        ensures
            match comm.within_of(pin as u32) {
                Some(w) => r == Ok::<(), Error>(()) && final(pcr).state() == smi_step(
                    old(pcr).state(),
                    comm.layout(),
                    *self,
                    group as int,
                    pin as u32,
                ),
                None => (self.pad_config@[0] & 0x4_0000 != 0x4_0000 ==> r == Ok::<(), Error>(()))
                    && (self.pad_config@[0] & 0x4_0000 == 0x4_0000 ==> r == Err::<(), Error>(
                    Error::MissingCommunityPad)) && final(pcr).state() == old(pcr).state(),
            },
    {
        proof {
            lemma_wf_group(comm, pin as u32);
        }
        if self.pad_config[0] & gpio_defs::PadCfg0Route::Smi.bits()
            != gpio_defs::PadCfg0Route::Smi.bits() {
            return Ok(());
        }
        let sts_reg = comm.gpi_smi_sts_offset(group as u32);
        let en_reg = comm.gpi_smi_en_offset(group as u32);
        let en_value = match comm.gpio_bitmask_within_group(pin as u32) {
            Ok(m) => m,
            Err(e) => return Err(e),
        };
        pcr_rmw32(pcr, comm.port, sts_reg as u16, en_value, 0);
        pcr_or32(pcr, comm.port, en_reg as u16, en_value);
        Ok(())
    }

    /// Enables the NMI of a pad routed to NMI, where the community has NMI
    /// registers.
    pub fn gpi_enable_nmi(&self, pcr: &mut Mmio, comm: &PadCommunity, group: i32, pin: i32) -> (r:
        Result<(), Error>)
        requires
            comm.wf(),
            0 <= group < comm.groups@.len(),
            0 <= pin,
        ensures
            match comm.within_of(pin as u32) {
                Some(w) => r == Ok::<(), Error>(()) && final(pcr).state() == nmi_step(
                    old(pcr).state(),
                    comm.layout(),
                    *self,
                    group as int,
                    pin as u32,
                ),
                None => {
                    let skip = self.pad_config@[0] & 0x2_0000 != 0x2_0000 || comm.gpi_nmi_sts_reg_0
                        == 0 || comm.gpi_nmi_en_reg_0 == 0;
                    &&& skip ==> r == Ok::<(), Error>(())
                    &&& !skip ==> r == Err::<(), Error>(Error::MissingCommunityPad)
                    &&& final(pcr).state() == old(pcr).state()
                },
            },
    {
        proof {
            lemma_wf_group(comm, pin as u32);
        }
        if self.pad_config[0] & gpio_defs::PadCfg0Route::Nmi.bits()
            != gpio_defs::PadCfg0Route::Nmi.bits() {
            return Ok(());
        }
        if comm.gpi_nmi_sts_reg_0 == 0 || comm.gpi_nmi_en_reg_0 == 0 {
            return Ok(());
        }
        let sts_reg = comm.gpi_nmi_sts_offset(group as u32);
        let en_reg = comm.gpi_nmi_en_offset(group as u32);
        let en_value = match comm.gpio_bitmask_within_group(pin as u32) {
            Ok(m) => m,
            Err(e) => return Err(e),
        };
        pcr_rmw32(pcr, comm.port, sts_reg as u16, en_value, 0);
        pcr_or32(pcr, comm.port, en_reg as u16, en_value);
        Ok(())
    }

    /// Enables the GPE of a pad configured for SCI.
    pub fn gpi_enable_gpe(&self, pcr: &mut Mmio, comm: &PadCommunity, group: i32, pin: i32) -> (r:
        Result<(), Error>)
        requires
            comm.wf(),
            0 <= group < comm.groups@.len(),
            0 <= pin,
        ensures
            match comm.within_of(pin as u32) {
                Some(w) => r == Ok::<(), Error>(()) && final(pcr).state() == gpe_step(
                    old(pcr).state(),
                    comm.layout(),
                    *self,
                    group as int,
                    pin as u32,
                ),
                None => (self.pad_config@[0] & 0x8_0000 != 0x8_0000 ==> r == Ok::<(), Error>(()))
                    && (self.pad_config@[0] & 0x8_0000 == 0x8_0000 ==> r == Err::<(), Error>(
                    Error::MissingCommunityPad)) && final(pcr).state() == old(pcr).state(),
            },
    {
        proof {
            lemma_wf_group(comm, pin as u32);
        }
        if self.pad_config[0] & gpio_defs::PadCfg0Route::Sci.bits()
            != gpio_defs::PadCfg0Route::Sci.bits() {
            return Ok(());
        }
        let en_reg = comm.gpi_gpe_en_offset(group as u32);
        let en_value = match comm.gpio_bitmask_within_group(pin as u32) {
            Ok(m) => m,
            Err(e) => return Err(e),
        };
        pcr_or32(pcr, comm.port, en_reg as u16, en_value);
        Ok(())
    }
}

/// A pad and the lock to apply to it.
#[derive(Clone, Copy)]
pub struct GpioLockConfig {
    pub pad: Gpio,
    pub lock_action: GpioLockAction,
}

/// Sideband message that locks the configuration of the pads of `bit_mask`
/// in lock register `offset` of port `pid`.
pub open spec fn lock_msg(pid: u8, offset: u16) -> PcrSbiMsg {
    PcrSbiMsg {
        pid,
        offset: offset as u32,
        opcode: PcrSbiOpcode::GpioLockUnlock,
        is_posted: false,
        fast_byte_enable: 0xf,
        bar: 0,
        fid: 0,
    }
}

/// Outcome of locking a pad of the Gemini Lake table outside of SMM: the
/// communities define no lock register, so the lock cannot be applied.
pub open spec fn glk_non_smm_lock_result(env: GpioEnv, pad: Gpio) -> Result<(), Error> {
    if glk_comm_of(pad) is None {
        Err(Error::MissingCommunityPad)
    } else if env.untrusted_mode {
        Err(Error::UntrustedMode)
    } else {
        Err(Error::UndefinedOffset)
    }
}

/// Whether every pad of `pads` lies in a Gemini Lake community.
pub open spec fn all_glk_pads(pads: Seq<GpioLockConfig>) -> bool {
    forall|i: int| 0 <= i < pads.len() ==> glk_comm_of((#[trigger] pads[i]).pad) is Some
}

/// Configuration space and outcome of locking `pads` in SMM on Gemini Lake.
pub open spec fn glk_lock_pads_spec(cfg: RegState, env: GpioEnv, pads: Seq<GpioLockConfig>) -> (
    RegState,
    Result<(), Error>,
) {
    if !env.smm_lock_gpio_pads || !env.smm {
        (cfg, Err(Error::NoSmm))
    } else if pads.len() == 0 {
        (cfg, Err(Error::NullGpioPads))
    } else {
        let unhidden = hide_bit_step(cfg, PCH_DEV_P2SB, 0);
        if all_glk_pads(pads) {
            (hide_bit_step(unhidden, PCH_DEV_P2SB, 1), Ok(()))
        } else {
            (unhidden, Err(Error::MissingCommunityPad))
        }
    }
}

/// Configuration space and outcome of locking one pad on Gemini Lake.
pub open spec fn glk_lock_pad_spec(cfg: RegState, env: GpioEnv, pad: Gpio, action: GpioLockAction) -> (
    RegState,
    Result<(), Error>,
) {
    if env.romstage_or_before || env.recovery_mode {
        (cfg, Err(Error::SkipGpioPad))
    } else if !env.smm && !env.smm_lock_gpio_pads {
        (cfg, glk_non_smm_lock_result(env, pad))
    } else {
        glk_lock_pads_spec(cfg, env, seq![GpioLockConfig { pad, lock_action: action }])
    }
}

impl GpioLockConfig {
    /// Locks the pad by setting its bit in the lock register (configuration
    /// lock) or in the register after it (TX state lock).
    pub fn gpio_pad_config_lock_using_pcr(&self, pcr: &mut Mmio, pid: u8, offset: u16, bit_mask: u32)
        requires
            self.lock_action == GpioLockAction::LockConfig ==> offset % 4 == 0,
            self.lock_action == GpioLockAction::LockTx ==> offset % 4 == 0 && offset + 4 <= 0xffff,
        ensures
            final(pcr).state() == if self.lock_action == GpioLockAction::LockConfig {
                st_or(old(pcr).state(), spec_pcr_reg_address(pid, offset), bit_mask)
            } else if self.lock_action == GpioLockAction::LockTx {
                st_or(old(pcr).state(), spec_pcr_reg_address(pid, (offset + 4) as u16), bit_mask)
            } else {
                old(pcr).state()
            },
    {
        if self.lock_action == GpioLockAction::LockConfig {
            pcr_or32(pcr, pid, offset, bit_mask);
        }
        if self.lock_action == GpioLockAction::LockTx {
            pcr_or32(pcr, pid, offset + 4, bit_mask);
        }
    }

    /// Locks the pad's configuration with a sideband message.  The message,
    /// carrying the lock register with the pad's bit set, is queued for the
    /// platform to send once the PCR writes made so far and the first
    /// `cfg_writes` writes to the PCI configuration space are made; its
    /// outcome gives the result through `gpio_pad_config_lock_sbi_result`.
    pub fn gpio_pad_config_lock_using_sbi(
        &self,
        pcr: &Mmio,
        sbi_queue: &mut Vec<QueuedSbi>,
        cfg_writes: usize,
        pid: u8,
        offset: u16,
        bit_mask: u32,
    ) -> (r: Result<(), Error>)
        requires
            self.lock_action == GpioLockAction::LockConfig ==> offset % 4 == 0,
        ensures
            self.lock_action == GpioLockAction::Unlock ==> r == Err::<(), Error>(
                Error::MissingLockAction) && final(sbi_queue)@ == old(sbi_queue)@,
            self.lock_action == GpioLockAction::LockConfig ==> r == Ok::<(), Error>(()) && final(sbi_queue)@ == old(sbi_queue)@.push(
                QueuedSbi {
                    after_pcr_writes: pcr.writes().len() as usize,
                    after_cfg_writes: cfg_writes,
                    session: SbiSession {
                        msg: lock_msg(pid, offset),
                        data: pcr.value(spec_pcr_reg_address(pid, offset)) | bit_mask,
                        response: 0,
                        status: 0,
                        phase: crate::intel::common::block::pcr::SbiPhase::Start,
                    },
                },
            ),
            (self.lock_action == GpioLockAction::LockTx || self.lock_action
                == GpioLockAction::LockFull) ==> r == Ok::<(), Error>(()) && final(sbi_queue)@ == old(sbi_queue)@,
    {
        let msg = PcrSbiMsg {
            pid,
            offset: offset as u32,
            opcode: PcrSbiOpcode::GpioLockUnlock,
            is_posted: false,
            fast_byte_enable: 0xf,
            bar: 0,
            fid: 0,
        };
        let v = self.lock_action.value();
        assert(v <= 3 ==> (v & 3 == 0 <==> v == 0)) by (bit_vector);
        if v & GpioLockAction::LockFull.value() == 0 {
            return Err(Error::MissingLockAction);
        }
        if self.lock_action == GpioLockAction::LockConfig {
            let data = pcr_read32(pcr, pid, offset) | bit_mask;
            let after_pcr_writes = pcr.write_count();
            sbi_queue.push(QueuedSbi { after_pcr_writes, after_cfg_writes: cfg_writes, session: SbiSession::new(msg, data) });
        }
        Ok(())
    }

    /// Result of locking the pad with a sideband message, from the result
    /// `queued` of `gpio_pad_config_lock_using_sbi` and the outcome `sent` of
    /// the transaction that it queued: the error of the locking step itself
    /// where it failed, else the outcome of the transaction where one was
    /// queued (LockConfig), else success.  The transaction's response
    /// status does not count.
    pub fn gpio_pad_config_lock_sbi_result(&self, queued: Result<(), Error>, sent: Result<(), Error>) -> (r:
        Result<(), Error>)
        ensures
            r == match queued {
                Err(e) => Err(e),
                Ok(_) => if self.lock_action == GpioLockAction::LockConfig {
                    sent
                } else {
                    Ok::<(), Error>(())
                },
            },
    {
        match queued {
            Err(e) => Err(e),
            Ok(()) => if self.lock_action == GpioLockAction::LockConfig {
                sent
            } else {
                Ok(())
            },
        }
    }

    /// Locks the pad outside of SMM, by PCR writes or by a sideband message
    /// as the platform selects.
    pub fn gpio_non_smm_lock_pad(&self, p: &mut GpioPlatform) -> (r: Result<(), Error>)
        ensures
            r == glk_non_smm_lock_result(old(p).env, self.pad),
            final(p).pcr == old(p).pcr,
            final(p).pci_cfg == old(p).pci_cfg,
            final(p).irqs == old(p).irqs,
            final(p).sbi_queue == old(p).sbi_queue,
            final(p).env == old(p).env,
    {
        let community = soc_gpio_get_community();
        proof {
            lemma_glk_lookup(community@, self.pad);
        }
        let comm = match gpio_get_community(self.pad, community.as_slice()) {
            Ok(c) => c,
            Err(e) => return Err(e),
        };
        if p.env.untrusted_mode {
            return Err(Error::UntrustedMode);
        }
        let rel_pad = comm.relative_pad_in_comm(self.pad);
        let mut offset = comm.pad_cfg_lock_offset;
        if offset == 0 {
            return Err(Error::UndefinedOffset);
        }
        proof {
            lemma_wf_group(comm, rel_pad as u32);
        }
        let scaled = match comm.gpio_group_index_scaled(rel_pad as u32, 8) {
            Ok(v) => v,
            Err(e) => return Err(e),
        };
        offset = offset + scaled as u16;
        let bit_mask = match comm.gpio_bitmask_within_group(rel_pad as u32) {
            Ok(m) => m,
            Err(e) => return Err(e),
        };
        if p.env.lock_using_pcr {
            self.gpio_pad_config_lock_using_pcr(&mut p.pcr, comm.port, offset, bit_mask);
        } else if p.env.lock_using_sbi {
            let cfg_writes = p.pci_cfg.write_count();
            match self.gpio_pad_config_lock_using_sbi(&p.pcr, &mut p.sbi_queue, cfg_writes, comm.port, offset,
                bit_mask) {
                Ok(()) => {},
                Err(e) => return Err(e),
            }
        }
        Ok(())
    }
}

/// Locks a list of pads from SMM: the P2SB is made visible for the
/// sideband messages and hidden again afterwards.
pub fn gpio_lock_pads(p: &mut GpioPlatform, pad_list: &[GpioLockConfig]) -> (r: Result<(), Error>)
    ensures
        (final(p).pci_cfg.state(), r) == glk_lock_pads_spec(
            old(p).pci_cfg.state(),
            old(p).env,
            pad_list@,
        ),
        final(p).pcr == old(p).pcr,
        final(p).irqs == old(p).irqs,
        final(p).sbi_queue == old(p).sbi_queue,
        final(p).env == old(p).env,
{
    if !p.env.smm_lock_gpio_pads {
        return Err(Error::NoSmm);
    }
    if !p.env.smm {
        return Err(Error::NoSmm);
    }
    if pad_list.len() == 0 {
        return Err(Error::NullGpioPads);
    }
    p2sb_unhide(&mut p.pci_cfg);
    let ghost unhidden = p.pci_cfg.state();
    let mut i: usize = 0;
    while i < pad_list.len()
        invariant
            i <= pad_list@.len(),
            p.pci_cfg.state() == unhidden,
            unhidden == hide_bit_step(old(p).pci_cfg.state(), PCH_DEV_P2SB, 0),
            old(p).env.smm && old(p).env.smm_lock_gpio_pads && pad_list@.len() > 0,
            p.pcr == old(p).pcr,
            p.irqs == old(p).irqs,
            p.sbi_queue == old(p).sbi_queue,
            p.env == old(p).env,
            forall|j: int| 0 <= j < i ==> glk_comm_of((#[trigger] pad_list@[j]).pad) is Some,
        decreases pad_list@.len() - i,
    {
        let gpio_pad = &pad_list[i];
        let pad = gpio_pad.pad;
        let community = soc_gpio_get_community();
        proof {
            lemma_glk_lookup(community@, pad);
        }
        let comm = match gpio_get_community(pad, community.as_slice()) {
            Ok(c) => c,
            Err(e) => {
                proof {
                    assert(e == Error::MissingCommunityPad);
                    assert(glk_comm_of(pad_list@[i as int].pad) is None);
                    assert(!all_glk_pads(pad_list@));
                }
                return Err(e);
            },
        };
        let rel_pad = comm.relative_pad_in_comm(pad);
        let mut offset = comm.pad_cfg_lock_offset;
        if offset == 0 {
            i = i + 1;
            continue ;
        }
        proof {
            lemma_wf_group(comm, rel_pad as u32);
        }
        let scaled = match comm.gpio_group_index_scaled(rel_pad as u32, 8) {
            Ok(v) => v,
            Err(e) => return Err(e),
        };
        offset = offset + scaled as u16;
        let bit_mask = match comm.gpio_bitmask_within_group(rel_pad as u32) {
            Ok(m) => m,
            Err(e) => return Err(e),
        };
        let cfg_writes = p.pci_cfg.write_count();
        match gpio_pad.gpio_pad_config_lock_using_sbi(&p.pcr, &mut p.sbi_queue, cfg_writes, comm.port, offset,
            bit_mask) {
            Ok(()) => {},
            Err(e) => return Err(e),
        }
        i = i + 1;
    }
    p2sb_hide(&mut p.pci_cfg);
    Ok(())
}

/// Locks one pad, from SMM or directly as the platform allows.
pub fn gpio_lock_pad(p: &mut GpioPlatform, pad: Gpio, lock_action: GpioLockAction) -> (r: Result<
    (),
    Error,
>)
    ensures
        (final(p).pci_cfg.state(), r) == glk_lock_pad_spec(
            old(p).pci_cfg.state(),
            old(p).env,
            pad,
            lock_action,
        ),
        final(p).pcr == old(p).pcr,
        final(p).irqs == old(p).irqs,
        final(p).sbi_queue == old(p).sbi_queue,
        final(p).env == old(p).env,
{
    if p.env.romstage_or_before || p.env.recovery_mode {
        return Err(Error::SkipGpioPad);
    }
    let pads = GpioLockConfig { pad, lock_action };
    if !p.env.smm && !p.env.smm_lock_gpio_pads {
        return pads.gpio_non_smm_lock_pad(p);
    }
    let list = [pads];
    let r = gpio_lock_pads(p, &list);
    proof {
        assert(list@ =~= seq![GpioLockConfig { pad, lock_action }]);
    }
    r
}

/// Effect of configuring pad `pc` on Gemini Lake: the PCR space, the PCI
/// configuration space, the IOAPIC IRQ map, and the outcome.
pub open spec fn configure_pad_spec(
    pcr: RegState,
    cfg: RegState,
    irqs: Seq<u32>,
    env: GpioEnv,
    pc: PadConfig,
) -> (RegState, RegState, Seq<u32>, Result<(), Error>) {
    match glk_comm_of(pc.pad) {
        None => (pcr, cfg, irqs, Err(Error::MissingCommunityPad)),
        Some(c) => {
            let l = glk_layout(c);
            let pin = (pc.pad - l.first_pad) as u32;
            let off = pin * 16 + 0x600;
            let g = l.group_of(pin)->0;
            let s1 = dws_step(pcr, l, pc, off, 4);
            let (s2, irqs2) = itss_step(s1, irqs, env, l.port, pc, off);
            let s3 = owner_step(s2, l, pc, pin);
            let s4 = smi_step(s3, l, pc, g, pin);
            let s5 = nmi_step(s4, l, pc, g, pin);
            let s6 = gpe_step(s5, l, pc, g, pin);
            if pc.lock_action == GpioLockAction::Unlock {
                (s6, cfg, irqs2, Ok(()))
            } else {
                let (cfg2, r) = glk_lock_pad_spec(cfg, env, pc.pad, pc.lock_action);
                (s6, cfg2, irqs2, r)
            }
        },
    }
}

impl PadConfig {
    /// Programs the pad: DW0..DW3 (keeping the bits that the configuration
    /// does not own), IOAPIC routing, host ownership, SMI/NMI/GPE enables,
    /// and finally the requested lock.
    pub fn configure_pad(&self, p: &mut GpioPlatform) -> (r: Result<(), Error>)
        requires
            old(p).irqs.wf(),
        ensures
            final(p).irqs.wf(),
            (final(p).pcr.state(), final(p).pci_cfg.state(), final(p).irqs.words@, r)
                == configure_pad_spec(
                old(p).pcr.state(),
                old(p).pci_cfg.state(),
                old(p).irqs.words@,
                old(p).env,
                *self,
            ),
            final(p).sbi_queue == old(p).sbi_queue,
            final(p).env == old(p).env,
    {
        let community = soc_gpio_get_community();
        proof {
            lemma_glk_lookup(community@, self.pad);
        }
        let comm = match gpio_get_community(self.pad, community.as_slice()) {
            Ok(c) => c,
            Err(e) => return Err(e),
        };
        let ghost c = glk_comm_of(self.pad)->0;
        let ghost l = glk_layout(c);
        let config_offset = comm.pad_config_offset(self.pad);
        let pin = comm.relative_pad_in_comm(self.pad);
        proof {
            lemma_wf_group(comm, pin as u32);
            lemma_glk_groups_cover(c, pin as u32);
        }
        let group = match comm.gpio_group_index(pin as u32) {
            Ok(g) => g,
            Err(e) => return Err(e),
        };
        let ghost s0 = p.pcr.state();
        let mut i: usize = 0;
        while i < 4
            invariant
                i <= 4,
                comm.wf(),
                comm.layout() == l,
                config_offset == pin * 16 + 0x600,
                pin <= 134,
                p.pcr.state() == dws_step(s0, l, *self, config_offset as int, i as nat),
                p.irqs == old(p).irqs,
                p.pci_cfg == old(p).pci_cfg,
                p.sbi_queue == old(p).sbi_queue,
                p.env == old(p).env,
            decreases 4 - i,
        {
            let reg = pad_cfg_offset(config_offset as u32, i as u32) as u16;
            let pad_conf = pcr_read32(&p.pcr, comm.port, reg);
            let mut soc_pad_conf = self.pad_config[i];
            if i == 0 {
                soc_pad_conf = comm.gpio_pad_reset_config_override(soc_pad_conf);
            }
            let mask = pad_dw_mask(i);
            soc_pad_conf = soc_pad_conf & mask;
            soc_pad_conf = soc_pad_conf | (pad_conf & !mask);
            soc_pad_conf = self.soc_gpio_pad_config_fixup(i as i32, soc_pad_conf);
            pcr_write32(&mut p.pcr, comm.port, reg, soc_pad_conf);
            i = i + 1;
        }
        self.gpio_configure_itss(p, comm.port as u16, config_offset);
        let r1 = self.gpio_configure_owner(&mut p.pcr, comm);
        match r1 {
            Ok(()) => {},
            Err(e) => return Err(e),
        }
        let r2 = self.gpi_enable_smi(&mut p.pcr, comm, group as i32, pin as i32);
        match r2 {
            Ok(()) => {},
            Err(e) => return Err(e),
        }
        let r3 = self.gpi_enable_nmi(&mut p.pcr, comm, group as i32, pin as i32);
        match r3 {
            Ok(()) => {},
            Err(e) => return Err(e),
        }
        let r4 = self.gpi_enable_gpe(&mut p.pcr, comm, group as i32, pin as i32);
        match r4 {
            Ok(()) => {},
            Err(e) => return Err(e),
        }
        if self.lock_action.value() != 0 {
            return gpio_lock_pad(p, self.pad, self.lock_action);
        }
        Ok(())
    }
}

/// The state that configuring pads changes: PCR space, PCI configuration
/// space and the IOAPIC IRQ map.
pub type GpioState = (RegState, RegState, Seq<u32>);

/// Effect of configuring `pads` one after the other, stopping at the first
/// failure, and the outcome.
pub open spec fn configure_list(st: GpioState, env: GpioEnv, pads: Seq<PadConfig>) -> (
    GpioState,
    Result<(), Error>,
)
    decreases pads.len(),
{
    if pads.len() == 0 {
        (st, Ok(()))
    } else {
        let (pcr, cfg, irqs, r) = configure_pad_spec(st.0, st.1, st.2, env, pads[0]);
        if r is Err {
            ((pcr, cfg, irqs), r)
        } else {
            configure_list((pcr, cfg, irqs), env, pads.drop_first())
        }
    }
}

pub open spec fn gpio_state(p: &GpioPlatform) -> GpioState {
    (p.pcr.state(), p.pci_cfg.state(), p.irqs.words@)
}

/// Configures raw pads in order; some pads are special-function pins with
/// no GPIO number, hence this direct interface.
pub fn gpio_configure_pads(p: &mut GpioPlatform, cfg: &[PadConfig]) -> (r: Result<(), Error>)
    requires
        old(p).irqs.wf(),
    ensures
        final(p).irqs.wf(),
        (gpio_state(final(p)), r) == configure_list(gpio_state(old(p)), old(p).env, cfg@),
        final(p).sbi_queue == old(p).sbi_queue,
        final(p).env == old(p).env,
{
    let mut i: usize = 0;
    assert(cfg@.skip(0) =~= cfg@);
    while i < cfg.len()
        invariant
            i <= cfg@.len(),
            p.irqs.wf(),
            configure_list(gpio_state(old(p)), old(p).env, cfg@) == configure_list(
                gpio_state(p),
                old(p).env,
                cfg@.skip(i as int),
            ),
            p.sbi_queue == old(p).sbi_queue,
            p.env == old(p).env,
        decreases cfg@.len() - i,
    {
        let ghost before = gpio_state(p);
        let r = cfg[i].configure_pad(p);
        proof {
            assert(cfg@.skip(i as int)[0] == cfg@[i as int]);
            assert(cfg@.skip(i as int).drop_first() =~= cfg@.skip(i + 1));
        }
        match r {
            Ok(()) => {},
            Err(e) => return Err(e),
        }
        i = i + 1;
    }
    proof {
        assert(cfg@.skip(i as int).len() == 0);
    }
    Ok(())
}

/// Index of the first configuration at or after `start` for pad `pad`.
pub open spec fn first_override(ov: Seq<PadConfig>, pad: Gpio, start: int) -> Option<int>
    decreases ov.len() - start,
{
    if start < 0 || start >= ov.len() {
        None
    } else if ov[start].pad == pad {
        Some(start)
    } else {
        first_override(ov, pad, start + 1)
    }
}

/// The configuration used for `base`: the first override for its pad, or
/// `base` itself.
pub open spec fn effective_config(base: PadConfig, ov: Seq<PadConfig>) -> PadConfig {
    match first_override(ov, base.pad, 0) {
        Some(i) => ov[i],
        None => base,
    }
}

/// Configures the pads of `base_cfg`, each replaced by its override when
/// `override_cfg` has one.
pub fn gpio_configure_pads_with_override(
    p: &mut GpioPlatform,
    base_cfg: &[PadConfig],
    override_cfg: &[PadConfig],
) -> (r: Result<(), Error>)
    requires
        old(p).irqs.wf(),
    ensures
        final(p).irqs.wf(),
        (gpio_state(final(p)), r) == configure_list(
            gpio_state(old(p)),
            old(p).env,
            base_cfg@.map_values(|c: PadConfig| effective_config(c, override_cfg@)),
        ),
        final(p).sbi_queue == old(p).sbi_queue,
        final(p).env == old(p).env,
{
    let ghost eff = base_cfg@.map_values(|c: PadConfig| effective_config(c, override_cfg@));
    let mut i: usize = 0;
    assert(eff.skip(0) =~= eff);
    while i < base_cfg.len()
        invariant
            i <= base_cfg@.len(),
            eff == base_cfg@.map_values(|c: PadConfig| effective_config(c, override_cfg@)),
            p.irqs.wf(),
            configure_list(gpio_state(old(p)), old(p).env, eff) == configure_list(
                gpio_state(p),
                old(p).env,
                eff.skip(i as int),
            ),
            p.sbi_queue == old(p).sbi_queue,
            p.env == old(p).env,
        decreases base_cfg@.len() - i,
    {
        let pad = &base_cfg[i];
        let c = match pad.gpio_get_config(override_cfg) {
            Some(o) => o,
            None => pad,
        };
        let r = c.configure_pad(p);
        proof {
            assert(eff.skip(i as int)[0] == eff[i as int]);
            assert(eff.skip(i as int).drop_first() =~= eff.skip(i + 1));
        }
        match r {
            Ok(()) => {},
            Err(e) => return Err(e),
        }
        i = i + 1;
    }
    proof {
        assert(eff.skip(i as int).len() == 0);
    }
    Ok(())
}

/// Drives GPIO `gpio` as an output at level `val`.
pub fn gpio_output(p: &mut GpioPlatform, gpio: Gpio, val: u32) -> (r: Result<(), Error>)
    requires
        old(p).irqs.wf(),
    ensures
        final(p).irqs.wf(),
        ({
            let pc = PadConfig {
                pad: gpio,
                pad_config: [gpio_defs::spec_gpo_deep_dw0(val), 0, 0, 0],
                lock_action: GpioLockAction::Unlock,
            };
            (final(p).pcr.state(), final(p).pci_cfg.state(), final(p).irqs.words@, r)
                == configure_pad_spec(
                old(p).pcr.state(),
                old(p).pci_cfg.state(),
                old(p).irqs.words@,
                old(p).env,
                pc,
            )
        }),
        final(p).sbi_queue == old(p).sbi_queue,
        final(p).env == old(p).env,
{
    let cfg = gpio_defs::pad_cfg_gpo_deep(gpio, val);
    proof {
        assert(cfg.pad_config =~= [gpio_defs::spec_gpo_deep_dw0(val), 0u32, 0u32, 0u32]);
        assert(cfg == PadConfig {
            pad: gpio,
            pad_config: [gpio_defs::spec_gpo_deep_dw0(val), 0, 0, 0],
            lock_action: GpioLockAction::Unlock,
        });
    }
    cfg.configure_pad(p)
}

/// DW0 of a general-purpose input with deep reset: GPIO mode, TX disabled.
pub const GPI_DEEP_DW0: u32 = 0x4000_0100;
/// DW1 of an input with a 20k pull-down.
pub const GPI_DN20K_DW1: u32 = 0x1000;

/// Configures GPIO `gpio` as an input with a 20k pull-down; a failure is
/// ignored.
pub fn gpio_input_pulldown(p: &mut GpioPlatform, gpio: Gpio)
    requires
        old(p).irqs.wf(),
    ensures
        final(p).irqs.wf(),
        ({
            let pc = PadConfig {
                pad: gpio,
                pad_config: [GPI_DEEP_DW0, GPI_DN20K_DW1, 0, 0],
                lock_action: GpioLockAction::Unlock,
            };
            let (pcr, cfg, irqs, _r) = configure_pad_spec(
                old(p).pcr.state(),
                old(p).pci_cfg.state(),
                old(p).irqs.words@,
                old(p).env,
                pc,
            );
            final(p).pcr.state() == pcr && final(p).pci_cfg.state() == cfg && final(p).irqs.words@
                == irqs
        }),
        final(p).sbi_queue == old(p).sbi_queue,
        final(p).env == old(p).env,
{
    let dw0 = gpio_defs::PadCfg0Mode::Gpio.bits() | gpio_defs::PadCfg0LogicalReset::Deep.bits()
        | gpio_defs::PadCfg0Buf::TxDisable.bits();
    let dw1 = gpio_defs::PadCfg1Pull::Dn20k.bits() | gpio_defs::PadCfg1Iosstate::TxLastRxE.bits();
    assert(0u32 | 0x4000_0000u32 | 0x100u32 == 0x4000_0100u32 && 0x1000u32 | 0u32 == 0x1000u32)
        by (bit_vector);
    let cfg = PadConfig::create(gpio, dw0, dw1);
    proof {
        assert(cfg.pad_config =~= [GPI_DEEP_DW0, GPI_DN20K_DW1, 0u32, 0u32]);
        assert(cfg == PadConfig {
            pad: gpio,
            pad_config: [GPI_DEEP_DW0, GPI_DN20K_DW1, 0, 0],
            lock_action: GpioLockAction::Unlock,
        });
    }
    let _ = cfg.configure_pad(p);
}

/// Level of GPIO `gpio`: the RX state bit of its DW0.
pub fn gpio_get(pcr: &Mmio, gpio_num: Gpio) -> (r: Result<u32, Error>)
    ensures
        r == match glk_comm_of(gpio_num) {
            Some(c) => Ok(
                pcr.value(glk_layout(c).addr((gpio_num - glk_layout(c).first_pad) * 16 + 0x600))
                    & 1,
            ),
            None => Err(Error::MissingCommunityPad),
        },
{
    let community = soc_gpio_get_community();
    proof {
        lemma_glk_lookup(community@, gpio_num);
    }
    let comm = match gpio_get_community(gpio_num, community.as_slice()) {
        Ok(c) => c,
        Err(e) => return Err(e),
    };
    let config_offset = comm.pad_config_offset(gpio_num);
    let reg = pcr_read32(pcr, comm.port, config_offset);
    Ok(reg & gpio_defs::PadCfg0RxState::State.bits())
}

/// Storage for all GPI status registers of all communities.
pub struct GpiStatus {
    pub grp: [u32; 9],
}

impl GpiStatus {
    pub fn new() -> (r: Self)
        ensures
            forall|i: int| 0 <= i < 9 ==> r.grp@[i] == 0,
    {
        GpiStatus { grp: [0, 0, 0, 0, 0, 0, 0, 0, 0] }
    }

    /// The status bit of `pad`.
    pub fn get(&self, pad: Gpio) -> (r: Result<u32, Error>)
        ensures
            r == match glk_comm_of(pad) {
                Some(c) => {
                    let l = glk_layout(c);
                    let rel = (pad - l.first_pad) as u32;
                    Ok(
                        self.grp@[l.gpi_status_offset + l.group_of(rel)->0] & (1u32 << (l.within_of(
                            rel,
                        )->0 as u32)),
                    )
                },
                None => Err(Error::MissingCommunityPad),
            },
    {
        let community = soc_gpio_get_community();
        proof {
            lemma_glk_lookup(community@, pad);
        }
        let comm = match gpio_get_community(pad, community.as_slice()) {
            Ok(c) => c,
            Err(e) => return Err(e),
        };
        let rel = comm.relative_pad_in_comm(pad) as Gpio;
        let ghost c = glk_comm_of(pad)->0;
        proof {
            lemma_wf_group(comm, rel);
            lemma_glk_groups_cover(c, rel);
        }
        let mut sts_index = comm.gpi_status_offset() as usize;
        let g = match comm.gpio_group_index(rel) {
            Ok(g) => g,
            Err(e) => return Err(e),
        };
        proof {
            lemma_first_group_found(comm.groups@, rel, 0);
        }
        sts_index = sts_index + g;
        let m = match comm.gpio_bitmask_within_group(rel) {
            Ok(m) => m,
            Err(e) => return Err(e),
        };
        Ok(self.grp[sts_index] & m)
    }
}

/// Maps a PMC GPE group to a GPIO group.
#[derive(Clone, Copy)]
pub struct PmcToGpioRoute {
    pub pmc: i32,
    pub gpio: i32,
}

/// PCR addresses of different ports, or of different registers of one
/// port, are different.
proof fn lemma_pcr_addr_distinct(p1: u8, o1: u16, p2: u8, o2: u16)
    requires
        p1 != p2 || o1 != o2,
    ensures
        spec_pcr_reg_address(p1, o1) != spec_pcr_reg_address(p2, o2),
{
}

/// Writing DW0 to DW(n-1) of a pad leaves in its DW0 the merged value of the
/// configuration and what the register held before.
proof fn lemma_dws_dw0(s: RegState, l: CommLayout, pc: PadConfig, off: int, n: nat)
    requires
        1 <= n <= 4,
        0 <= off,
        off + 12 <= 0xffff,
    ensures
        reg_value(dws_step(s, l, pc, off, n).0, l.addr(off)) == pad_dw_value(
            l,
            pc,
            0,
            reg_value(s.0, l.addr(off)),
        ),
    decreases n,
{
    let prev = dws_step(s, l, pc, off, (n - 1) as nat);
    let a = l.addr(off + 4 * (n - 1));
    assert(dws_step(s, l, pc, off, n) == st_write(prev, a, pad_dw_value(l, pc, n - 1, reg_value(prev.0, a))));
    if n > 1 {
        lemma_dws_dw0(s, l, pc, off, (n - 1) as nat);
        lemma_pcr_addr_distinct(l.port, (off + 4 * (n - 1)) as u16, l.port, off as u16);
        assert(a != l.addr(off));
    } else {
        assert(prev == s);
        assert(a == l.addr(off));
    }
}

/// The reset field override of Gemini Lake keeps bits 12:8 and bit 0 of
/// DW0.
proof fn lemma_glk_reset_override_bit0(config: u32)
    ensures
        reset_override(crate::intel::apollolake::gpio_glk::glk_reset_map(), config, 0) & 0x1f01 == config & 0x1f01,
{
    let m = crate::intel::apollolake::gpio_glk::glk_reset_map();
    reveal_with_fuel(reset_override, 4);
    assert(((config & !0xc000_0000u32) | 0u32) & 0x1f01 == config & 0x1f01 && ((config & !0xc000_0000u32)
        | 0x4000_0000u32) & 0x1f01 == config & 0x1f01 && ((config & !0xc000_0000u32) | 0x8000_0000u32) & 0x1f01
        == config & 0x1f01) by (bit_vector);
}

/// A read gives back what was driven: after `gpio_output(gpio, val)` on a
/// Gemini Lake pad succeeds, `gpio_get(gpio)` reads bit 0 of `val`, whatever
/// the registers held before.  For `val` of 0 or 1 the pad's DW0 then has
/// TX state `val` (bit 0), TX enabled (bit 8 clear), RX disabled (bit 9
/// set) and GPIO mode (bits 12:10 clear).
pub proof fn lemma_gpio_output_then_get(pcr: RegState, cfg: RegState, irqs: Seq<u32>, env: GpioEnv, gpio: Gpio, val: u32)
    requires
        glk_comm_of(gpio) is Some,
    ensures
        ({
            let pc = PadConfig {
                pad: gpio,
                pad_config: [gpio_defs::spec_gpo_deep_dw0(val), 0, 0, 0],
                lock_action: GpioLockAction::Unlock,
            };
            let (pcr2, _cfg2, _irqs2, r) = configure_pad_spec(pcr, cfg, irqs, env, pc);
            let c = glk_comm_of(gpio)->0;
            &&& r == Ok::<(), Error>(())
            &&& reg_value(pcr2.0, glk_layout(c).addr((gpio - glk_layout(c).first_pad) * 16 + 0x600)) & 1 == val & 1
            &&& val <= 1 ==> reg_value(pcr2.0, glk_layout(c).addr((gpio - glk_layout(c).first_pad) * 16 + 0x600)) & 0x1f01
                == 0x200 | val
        }),
{
    let pc = PadConfig {
        pad: gpio,
        pad_config: [gpio_defs::spec_gpo_deep_dw0(val), 0, 0, 0],
        lock_action: GpioLockAction::Unlock,
    };
    let c = glk_comm_of(gpio)->0;
    let l = glk_layout(c);
    let pin = (gpio - l.first_pad) as u32;
    let off = pin * 16 + 0x600;
    let a = l.addr(off);
    assert(pin <= 79);
    crate::intel::apollolake::gpio_glk::lemma_glk_groups_cover(c, pin);
    lemma_first_group_found(l.groups, pin, 0);
    let g = l.group_of(pin)->0;
    assert(0 <= g < 3);
    let s1 = dws_step(pcr, l, pc, off, 4);
    lemma_dws_dw0(pcr, l, pc, off, 4);
    let cur = reg_value(pcr.0, a);
    let cfg0 = pc.pad_config@[0];
    lemma_glk_reset_override_bit0(cfg0);
    let ro = reset_override(l.reset_map, cfg0, 0);
    assert(dw_merge(ro, cur, 0xfffe_1f01u32) & 0x1f01 == ro & 0x1f01 && (ro & 0x1f01 == gpio_defs::spec_gpo_deep_dw0(val) & 0x1f01 ==> ro & 1 == val & 1)
        && (val <= 1 ==> gpio_defs::spec_gpo_deep_dw0(val) & 0x1f01 == 0x200 | val)
        && (ro & 0x1f01 == gpio_defs::spec_gpo_deep_dw0(val) & 0x1f01 ==> (dw_merge(ro, cur, 0xfffe_1f01u32) & 0x1f01 == ro & 0x1f01 ==> dw_merge(ro, cur, 0xfffe_1f01u32) & 1 == val & 1))) by (bit_vector);
    assert(reg_value(s1.0, a) & 1 == val & 1);
    assert(val <= 1 ==> reg_value(s1.0, a) & 0x1f01 == 0x200 | val);
    let (s2, irqs2) = itss_step(s1, irqs, env, l.port, pc, off);
    if !(env.smm || cfg0 & 0x10_0000 == 0) {
        let irq = reg_value(s1.0, spec_pcr_reg_address(l.port, (off + 4) as u16)) & 0xff;
        if env.itss_pol_cfg && 0 <= irq <= 119 {
            let reg = (0x3200 + 4 * (irq as i32 / 32)) as u16;
            lemma_pcr_addr_distinct(0xd0, reg, l.port, off as u16);
        }
    }
    assert(reg_value(s2.0, a) == reg_value(s1.0, a));
    let s3 = owner_step(s2, l, pc, pin);
    lemma_pcr_addr_distinct(l.port, (0xb0 + g * 4) as u16, l.port, off as u16);
    assert(reg_value(s3.0, a) == reg_value(s2.0, a));
    let s4 = smi_step(s3, l, pc, g, pin);
    lemma_pcr_addr_distinct(l.port, (0x170 + g * 4) as u16, l.port, off as u16);
    lemma_pcr_addr_distinct(l.port, (0x190 + g * 4) as u16, l.port, off as u16);
    assert(reg_value(s4.0, a) == reg_value(s3.0, a));
    let s5 = nmi_step(s4, l, pc, g, pin);
    assert(s5 == s4);
    let s6 = gpe_step(s5, l, pc, g, pin);
    lemma_pcr_addr_distinct(l.port, (g * 4) as u16, l.port, off as u16);
    assert(reg_value(s6.0, a) == reg_value(s5.0, a));
}

/// Setting bit `w` of `v` when bit 4 of `own` is set, clearing it
/// otherwise, leaves bit 4 of `own` in bit `w` and keeps every other bit.
proof fn lemma_owner_bit(v: u32, w: u32, own: u32)
    requires
        w < 32,
    ensures
        (own & 0x10 != 0) == ((own >> 4u32) & 1 == 1),
        ((own >> 4u32) & 1 == 0) || ((own >> 4u32) & 1 == 1),
        ((v | (1u32 << w)) >> w) & 1 == 1,
        ((v & !(1u32 << w)) >> w) & 1 == 0,
        forall|i: u32| i < 32 && i != w ==> (#[trigger] ((v | (1u32 << w)) >> i)) & 1 == (v >> i) & 1,
        forall|i: u32| i < 32 && i != w ==> (#[trigger] ((v & !(1u32 << w)) >> i)) & 1 == (v >> i) & 1,
{
    assert(w < 32 ==> ((own & 0x10 != 0) == ((own >> 4u32) & 1 == 1)
        && (((own >> 4u32) & 1 == 0) || ((own >> 4u32) & 1 == 1))
        && ((v | (1u32 << w)) >> w) & 1 == 1
        && ((v & !(1u32 << w)) >> w) & 1 == 0
        && (forall|i: u32| i < 32 && i != w ==> (#[trigger] ((v | (1u32 << w)) >> i)) & 1 == (v >> i) & 1)
        && (forall|i: u32| i < 32 && i != w ==> (#[trigger] ((v & !(1u32 << w)) >> i)) & 1 == (v >> i) & 1)))
        by (bit_vector);
}

/// Writing DW0 to DW(n-1) of a pad leaves every other register as it was.
proof fn lemma_dws_frame(s: RegState, l: CommLayout, pc: PadConfig, off: int, n: nat, a: u64)
    requires
        n <= 4,
        0 <= off,
        off + 12 <= 0xffff,
        forall|k: int| 0 <= k < n ==> a != #[trigger] l.addr(off + 4 * k),
    ensures
        reg_value(dws_step(s, l, pc, off, n).0, a) == reg_value(s.0, a),
    decreases n,
{
    if n > 0 {
        lemma_dws_frame(s, l, pc, off, (n - 1) as nat, a);
        assert(a != l.addr(off + 4 * (n - 1)));
    }
}

/// Host software ownership follows the configuration: once a Gemini Lake
/// pad is configured, bit `w` (the pad's position in its group `g`) of the
/// group's HOSTSW_OWN register is set exactly when DW1 bit 4
/// (PAD_CFG_OWN_GPIO_DRIVER) of the configuration is set, so the GPIO
/// driver owns the pad, and clear otherwise, so ACPI owns it; every other
/// bit of that register keeps the value it had before.
pub proof fn lemma_configure_pad_host_ownership(pcr: RegState, cfg: RegState, irqs: Seq<u32>, env: GpioEnv, pc: PadConfig)
    requires
        glk_comm_of(pc.pad) is Some,
    ensures
        ({
            let l = glk_layout(glk_comm_of(pc.pad)->0);
            let pin = (pc.pad - l.first_pad) as u32;
            let g = l.group_of(pin)->0;
            let w = (pin - l.groups[g].first_pad) as u32;
            let a = spec_pcr_reg_address(l.port, (0xb0 + 4 * g) as u16);
            let v = reg_value(configure_pad_spec(pcr, cfg, irqs, env, pc).0.0, a);
            &&& l.group_of(pin) is Some
            &&& 0 <= g < 3
            &&& w < 32
            &&& (v >> w) & 1 == (pc.pad_config@[1] >> 4u32) & 1
            &&& forall|i: u32| i < 32 && i != w ==> (#[trigger] (v >> i)) & 1 == (reg_value(pcr.0, a) >> i) & 1
        }),
{
    let c = glk_comm_of(pc.pad)->0;
    let l = glk_layout(c);
    let pin = (pc.pad - l.first_pad) as u32;
    assert(pin <= 79);
    crate::intel::apollolake::gpio_glk::lemma_glk_groups_cover(c, pin);
    lemma_first_group_found(l.groups, pin, 0);
    let g = l.group_of(pin)->0;
    assert(0 <= g < 3);
    let w = (pin - l.groups[g].first_pad) as u32;
    let off = pin * 16 + 0x600;
    let a = l.addr(l.host_own_reg_0 + g * 4);
    assert(a == spec_pcr_reg_address(l.port, (0xb0 + 4 * g) as u16));
    let s1 = dws_step(pcr, l, pc, off, 4);
    assert forall|k: int| 0 <= k < 4 implies a != #[trigger] l.addr(off + 4 * k) by {
        lemma_pcr_addr_distinct(l.port, (0xb0 + 4 * g) as u16, l.port, (off + 4 * k) as u16);
    }
    lemma_dws_frame(pcr, l, pc, off, 4, a);
    assert(reg_value(s1.0, a) == reg_value(pcr.0, a));
    let s2 = itss_step(s1, irqs, env, l.port, pc, off).0;
    if !(env.smm || pc.pad_config@[0] & 0x10_0000 == 0) {
        let irq = reg_value(s1.0, spec_pcr_reg_address(l.port, (off + 4) as u16)) & 0xff;
        if env.itss_pol_cfg && 0 <= irq <= 119 {
            let reg = (0x3200 + 4 * (irq as i32 / 32)) as u16;
            lemma_pcr_addr_distinct(0xd0, reg, l.port, (0xb0 + 4 * g) as u16);
        }
    }
    assert(reg_value(s2.0, a) == reg_value(pcr.0, a));
    let s3 = owner_step(s2, l, pc, pin);
    lemma_owner_bit(reg_value(s2.0, a), w, pc.pad_config@[1]);
    let s4 = smi_step(s3, l, pc, g, pin);
    lemma_pcr_addr_distinct(l.port, (0x170 + g * 4) as u16, l.port, (0xb0 + 4 * g) as u16);
    lemma_pcr_addr_distinct(l.port, (0x190 + g * 4) as u16, l.port, (0xb0 + 4 * g) as u16);
    assert(reg_value(s4.0, a) == reg_value(s3.0, a));
    let s5 = nmi_step(s4, l, pc, g, pin);
    assert(s5 == s4);
    let s6 = gpe_step(s5, l, pc, g, pin);
    lemma_pcr_addr_distinct(l.port, (g * 4) as u16, l.port, (0xb0 + 4 * g) as u16);
    assert(reg_value(s6.0, a) == reg_value(s5.0, a));
}

} // verus!
