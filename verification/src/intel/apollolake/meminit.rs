//! LPDDR4 helper routines for configuring the memory UPD for LPDDR4
//! operation.  There are 4 physical LPDDR4 channels each 32-bits wide.
//! There are 2 logical channels using 2 physical channels together to form a
//! 64-bit interface to memory for each logical channel.
#![allow(non_snake_case)]
use vstd::prelude::*;

verus! {

pub const GIB: usize = 1024 * 1024 * 1024;
pub const MIB: usize = 1024 * 1024;

/// The memory-init UPD fields that LPDDR4 configuration sets.
#[derive(Clone, Copy)]
pub struct FspMConfig {
    pub Package: u8,
    pub Profile: u8,
    pub MemoryDown: u8,
    pub DDR3LPageSize: u8,
    pub DDR3LASR: u8,
    pub ScramblerSupport: u8,
    pub ChannelHashMask: u16,
    pub SliceHashMask: u16,
    pub InterleavedMode: u8,
    pub ChannelsSlicesEnable: u8,
    pub MinRefRate2xEnable: u8,
    pub DualRankSupportEnable: u8,
    pub MemorySizeLimit: u16,
    pub LowMemoryMaxValue: u16,
    pub HighMemoryMaxValue: u16,
    pub DisableFastBoot: u8,
    pub DIMM0SPDAddress: u8,
    pub DIMM1SPDAddress: u8,
    pub Ch0_RankEnable: u8,
    pub Ch0_DeviceWidth: u8,
    pub Ch0_DramDensity: u8,
    pub Ch0_Option: u8,
    pub Ch0_OdtConfig: u8,
    pub Ch1_RankEnable: u8,
    pub Ch1_DeviceWidth: u8,
    pub Ch1_DramDensity: u8,
    pub Ch1_Option: u8,
    pub Ch1_OdtConfig: u8,
    pub Ch2_RankEnable: u8,
    pub Ch2_DeviceWidth: u8,
    pub Ch2_DramDensity: u8,
    pub Ch2_Option: u8,
    pub Ch2_OdtConfig: u8,
    pub Ch3_RankEnable: u8,
    pub Ch3_DeviceWidth: u8,
    pub Ch3_DramDensity: u8,
    pub Ch3_Option: u8,
    pub Ch3_OdtConfig: u8,
    pub Ch0_Bit_swizzling: [u8; 32],
    pub Ch1_Bit_swizzling: [u8; 32],
    pub Ch2_Bit_swizzling: [u8; 32],
    pub Ch3_Bit_swizzling: [u8; 32],
    pub PeriodicRetrainingDisable: u8,
}

impl Default for FspMConfig {
    /// All fields zero.
    fn default() -> (r: Self)
        ensures
            r.Package == 0,
            r.Profile == 0,
            r.MemoryDown == 0,
            r.DDR3LPageSize == 0,
            r.DDR3LASR == 0,
            r.ScramblerSupport == 0,
            r.ChannelHashMask == 0,
            r.SliceHashMask == 0,
            r.InterleavedMode == 0,
            r.ChannelsSlicesEnable == 0,
            r.MinRefRate2xEnable == 0,
            r.DualRankSupportEnable == 0,
            r.MemorySizeLimit == 0,
            r.LowMemoryMaxValue == 0,
            r.HighMemoryMaxValue == 0,
            r.DisableFastBoot == 0,
            r.DIMM0SPDAddress == 0,
            r.DIMM1SPDAddress == 0,
            r.Ch0_RankEnable == 0,
            r.Ch0_DeviceWidth == 0,
            r.Ch0_DramDensity == 0,
            r.Ch0_Option == 0,
            r.Ch0_OdtConfig == 0,
            r.Ch1_RankEnable == 0,
            r.Ch1_DeviceWidth == 0,
            r.Ch1_DramDensity == 0,
            r.Ch1_Option == 0,
            r.Ch1_OdtConfig == 0,
            r.Ch2_RankEnable == 0,
            r.Ch2_DeviceWidth == 0,
            r.Ch2_DramDensity == 0,
            r.Ch2_Option == 0,
            r.Ch2_OdtConfig == 0,
            r.Ch3_RankEnable == 0,
            r.Ch3_DeviceWidth == 0,
            r.Ch3_DramDensity == 0,
            r.Ch3_Option == 0,
            r.Ch3_OdtConfig == 0,
            forall|i: int| 0 <= i < 32 ==> r.Ch0_Bit_swizzling@[i] == 0,
            forall|i: int| 0 <= i < 32 ==> r.Ch1_Bit_swizzling@[i] == 0,
            forall|i: int| 0 <= i < 32 ==> r.Ch2_Bit_swizzling@[i] == 0,
            forall|i: int| 0 <= i < 32 ==> r.Ch3_Bit_swizzling@[i] == 0,
            r.PeriodicRetrainingDisable == 0,
    {
        FspMConfig {
            Package: 0,
            Profile: 0,
            MemoryDown: 0,
            DDR3LPageSize: 0,
            DDR3LASR: 0,
            ScramblerSupport: 0,
            ChannelHashMask: 0,
            SliceHashMask: 0,
            InterleavedMode: 0,
            ChannelsSlicesEnable: 0,
            MinRefRate2xEnable: 0,
            DualRankSupportEnable: 0,
            MemorySizeLimit: 0,
            LowMemoryMaxValue: 0,
            HighMemoryMaxValue: 0,
            DisableFastBoot: 0,
            DIMM0SPDAddress: 0,
            DIMM1SPDAddress: 0,
            Ch0_RankEnable: 0,
            Ch0_DeviceWidth: 0,
            Ch0_DramDensity: 0,
            Ch0_Option: 0,
            Ch0_OdtConfig: 0,
            Ch1_RankEnable: 0,
            Ch1_DeviceWidth: 0,
            Ch1_DramDensity: 0,
            Ch1_Option: 0,
            Ch1_OdtConfig: 0,
            Ch2_RankEnable: 0,
            Ch2_DeviceWidth: 0,
            Ch2_DramDensity: 0,
            Ch2_Option: 0,
            Ch2_OdtConfig: 0,
            Ch3_RankEnable: 0,
            Ch3_DeviceWidth: 0,
            Ch3_DramDensity: 0,
            Ch3_Option: 0,
            Ch3_OdtConfig: 0,
            Ch0_Bit_swizzling: [0u8; 32],
            Ch1_Bit_swizzling: [0u8; 32],
            Ch2_Bit_swizzling: [0u8; 32],
            Ch3_Bit_swizzling: [0u8; 32],
            PeriodicRetrainingDisable: 0,
        }
    }
}


/// Total memory found so far, in MiB.
pub struct MemoryTotals {
    pub size_in_mib: usize,
}

pub fn memory_in_system_in_mib(totals: &MemoryTotals) -> (r: usize)
    ensures
        r == totals.size_in_mib,
{
    totals.size_in_mib
}

/// MiB of a logical channel: two x32 DRAMs, two ranks when dual rank.
pub open spec fn spec_channel_mib(density: Lpddr4Density, dual_rank: i32) -> int {
    density.spec_gb() * 2 * (if dual_rank != 0 {
        2int
    } else {
        1int
    }) * 1024
}

/// Adds the memory of one logical channel (two DRAM parts of `density`
/// gigabits, one or two ranks) to the running total.
pub fn accumulate_channel_memory(totals: &mut MemoryTotals, density: Lpddr4Density, dual_rank: i32)
    requires
        old(totals).size_in_mib + spec_channel_mib(density, dual_rank) <= usize::MAX,
    ensures
        final(totals).size_in_mib == old(totals).size_in_mib + spec_channel_mib(density, dual_rank),
{
    let mut sz: usize = density.gb() as usize;
    sz = sz * 2;
    if dual_rank != 0 {
        sz = sz * 2;
    }
    sz = sz * (GIB / MIB);
    totals.size_in_mib = totals.size_in_mib + sz;
}

/// Size of the I/O hole below 4 GiB, in MiB.
pub fn iohole_in_mib() -> (r: usize)
    ensures
        r == 2048,
{
    2 * (GIB / MIB)
}

/// `cfg` with every field that LPDDR4 defaults cover set to its default.
pub open spec fn spec_lpddr4_defaults(cfg: FspMConfig) -> FspMConfig {
    FspMConfig {
        Package: 1,
        MemoryDown: 1,
        ScramblerSupport: 1,
        ChannelHashMask: 0x36,
        SliceHashMask: 0x9,
        InterleavedMode: 2,
        ChannelsSlicesEnable: 0,
        MinRefRate2xEnable: 0,
        DualRankSupportEnable: 1,
        MemorySizeLimit: 0,
        LowMemoryMaxValue: 2048,
        HighMemoryMaxValue: 0,
        DisableFastBoot: 0,
        DIMM0SPDAddress: 0,
        DIMM1SPDAddress: 0,
        Ch0_RankEnable: 0,
        Ch1_RankEnable: 0,
        Ch2_RankEnable: 0,
        Ch3_RankEnable: 0,
        Ch0_DeviceWidth: 1,
        Ch1_DeviceWidth: 1,
        Ch2_DeviceWidth: 1,
        Ch3_DeviceWidth: 1,
        Ch0_Option: 3,
        Ch1_Option: 3,
        Ch2_Option: 3,
        Ch3_Option: 3,
        Ch0_OdtConfig: 2,
        Ch1_OdtConfig: 2,
        Ch2_OdtConfig: 2,
        Ch3_OdtConfig: 2,
        ..cfg
    }
}

/// Sets the LPDDR4 defaults: memory down BGA, scrambling, hashing and
/// interleaving, dual rank support, no size limits, fast boot, x16 device
/// width, bank hashing with rank interleaving, and ODT pulled high.
pub fn set_lpddr4_defaults(cfg: &mut FspMConfig)
    ensures
        *final(cfg) == spec_lpddr4_defaults(*old(cfg)),
{
    cfg.Package = 1;
    cfg.MemoryDown = 1;
    cfg.ScramblerSupport = 1;
    cfg.ChannelHashMask = 0x36;
    cfg.SliceHashMask = 0x9;
    cfg.InterleavedMode = 2;
    cfg.ChannelsSlicesEnable = 0;
    cfg.MinRefRate2xEnable = 0;
    cfg.DualRankSupportEnable = 1;
    cfg.MemorySizeLimit = 0;
    cfg.LowMemoryMaxValue = iohole_in_mib() as u16;
    cfg.HighMemoryMaxValue = 0;
    cfg.DisableFastBoot = 0;
    cfg.DIMM0SPDAddress = 0;
    cfg.DIMM1SPDAddress = 0;
    cfg.Ch0_RankEnable = 0x0;
    cfg.Ch1_RankEnable = 0x0;
    cfg.Ch2_RankEnable = 0x0;
    cfg.Ch3_RankEnable = 0x0;
    cfg.Ch0_DeviceWidth = 0x1;
    cfg.Ch1_DeviceWidth = 0x1;
    cfg.Ch2_DeviceWidth = 0x1;
    cfg.Ch3_DeviceWidth = 0x1;
    cfg.Ch0_Option = 0x3;
    cfg.Ch1_Option = 0x3;
    cfg.Ch2_Option = 0x3;
    cfg.Ch3_Option = 0x3;
    let odt_config = OdtSettings::OdtAbHighHigh.value();
    cfg.Ch0_OdtConfig = odt_config;
    cfg.Ch1_OdtConfig = odt_config;
    cfg.Ch2_OdtConfig = odt_config;
    cfg.Ch3_OdtConfig = odt_config;
}

/// Link between a DRAM speed and its FSP profile number.
#[derive(Clone, Copy)]
pub struct SpeedMapping {
    pub logical: Lpddr4Speed,
    pub fsp_value: i32,
}

impl SpeedMapping {
    pub fn create(logical: Lpddr4Speed, fsp_value: i32) -> (r: Self)
        ensures
            r.logical == logical,
            r.fsp_value == fsp_value,
    {
        SpeedMapping { logical, fsp_value }
    }

    pub fn logical(&self) -> (r: Lpddr4Speed)
        ensures
            r == self.logical,
    {
        self.logical
    }

    pub fn fsp_value(&self) -> (r: i32)
        ensures
            r == self.fsp_value,
    {
        self.fsp_value
    }
}

/// The FSP profile numbers of the supported speeds.
pub struct FspSpeedProfiles {
    mappings: Vec<SpeedMapping>,
}

impl FspSpeedProfiles {
    pub closed spec fn view(&self) -> Seq<SpeedMapping> {
        self.mappings@
    }

    pub fn create(mappings: Vec<SpeedMapping>) -> (r: Self)
        ensures
            r.view() == mappings@,
    {
        FspSpeedProfiles { mappings }
    }

    pub fn mappings(&self) -> (r: &[SpeedMapping])
        ensures
            r@ == self.view(),
    {
        self.mappings.as_slice()
    }
}

/// FSP profile of `speed`: 1600, 2133 and 2400 MT/s map to 0x9, 0xa, 0xb on
/// Apollo Lake and to 0x4, 0x6, 0x7 on Gemini Lake.
pub open spec fn spec_profile_of(speed: Lpddr4Speed, geminilake: bool) -> Option<i32> {
    match speed {
        Lpddr4Speed::Speed0 => None,
        Lpddr4Speed::Speed1600 => Some(if geminilake { 0x4i32 } else { 0x9i32 }),
        Lpddr4Speed::Speed2133 => Some(if geminilake { 0x6i32 } else { 0xai32 }),
        Lpddr4Speed::Speed2400 => Some(if geminilake { 0x7i32 } else { 0xbi32 }),
    }
}

pub open spec fn spec_profile_table(geminilake: bool) -> Seq<SpeedMapping> {
    seq![
        SpeedMapping { logical: Lpddr4Speed::Speed1600, fsp_value: if geminilake { 0x4 } else { 0x9 } },
        SpeedMapping { logical: Lpddr4Speed::Speed2133, fsp_value: if geminilake { 0x6 } else { 0xa } },
        SpeedMapping { logical: Lpddr4Speed::Speed2400, fsp_value: if geminilake { 0x7 } else { 0xb } },
    ]
}

/// The speed profile table of the SoC (Gemini Lake or Apollo Lake).
pub fn get_fsp_profile(geminilake: bool) -> (r: FspSpeedProfiles)
    ensures
        r.view() == spec_profile_table(geminilake),
{
    let mut v: Vec<SpeedMapping> = Vec::new();
    if geminilake {
        v.push(SpeedMapping::create(Lpddr4Speed::Speed1600, 0x4));
        v.push(SpeedMapping::create(Lpddr4Speed::Speed2133, 0x6));
        v.push(SpeedMapping::create(Lpddr4Speed::Speed2400, 0x7));
    } else {
        v.push(SpeedMapping::create(Lpddr4Speed::Speed1600, 0x9));
        v.push(SpeedMapping::create(Lpddr4Speed::Speed2133, 0xa));
        v.push(SpeedMapping::create(Lpddr4Speed::Speed2400, 0xb));
    }
    assert(v@ =~= spec_profile_table(geminilake));
    FspSpeedProfiles::create(v)
}

/// Physical channels.
#[derive(Clone, Copy, PartialEq, Eq, Structural)]
pub enum Lpddr4Phys {
    Ch0A,
    Ch0B,
    Ch1A,
    Ch1B,
    NumPhysChannels,
}

/// Logical channel identification.
#[derive(Clone, Copy, PartialEq, Eq, Structural)]
pub enum LogicalId {
    Ch0,
    Ch1,
}

/// The DQs within a physical channel can be bit-swizzled within each byte.
/// Within a channel the bytes can be swapped, but the DQs need to be routed
/// with the corresponding DQS (strobe).
#[derive(Clone, Copy, PartialEq, Eq, Structural)]
pub enum Lpddr4Dqs {
    Dqs0,
    Dqs1,
    Dqs2,
    Dqs3,
    NumByteLanes,
    DqBitsPerDqs,
}

impl Lpddr4Dqs {
    pub fn value(self) -> (v: usize)
        ensures
            v == match self {
                Lpddr4Dqs::Dqs0 => 0usize,
                Lpddr4Dqs::Dqs1 => 1,
                Lpddr4Dqs::Dqs2 => 2,
                Lpddr4Dqs::Dqs3 => 3,
                Lpddr4Dqs::NumByteLanes => 4,
                Lpddr4Dqs::DqBitsPerDqs => 8,
            },
    {
        match self {
            Lpddr4Dqs::Dqs0 => 0,
            Lpddr4Dqs::Dqs1 => 1,
            Lpddr4Dqs::Dqs2 => 2,
            Lpddr4Dqs::Dqs3 => 3,
            Lpddr4Dqs::NumByteLanes => 4,
            Lpddr4Dqs::DqBitsPerDqs => 8,
        }
    }
}

/// RL-tRCD-tRP
#[derive(Clone, Copy, PartialEq, Eq, Structural)]
pub enum Lpddr4Speed {
    /// 0 speed indicates disabled channel
    Speed0,
    /// 14-15-15
    Speed1600,
    /// 20-20-20
    Speed2133,
    /// 24-22-22
    Speed2400,
}

impl Lpddr4Speed {
    /// Speed in MT/s.
    pub fn mts(self) -> (v: i32)
        ensures
            v == match self {
                Lpddr4Speed::Speed0 => 0i32,
                Lpddr4Speed::Speed1600 => 1600,
                Lpddr4Speed::Speed2133 => 2133,
                Lpddr4Speed::Speed2400 => 2400,
            },
    {
        match self {
            Lpddr4Speed::Speed0 => 0,
            Lpddr4Speed::Speed1600 => 1600,
            Lpddr4Speed::Speed2133 => 2133,
            Lpddr4Speed::Speed2400 => 2400,
        }
    }

    /// Whether the SoC's profile table lists this speed.
    pub fn validate(&self, geminilake: bool) -> (r: bool)
        ensures
            r == spec_profile_of(*self, geminilake) is Some,
    {
        let fsp_profile = get_fsp_profile(geminilake);
        let mappings = fsp_profile.mappings();
        let mut i: usize = 0;
        while i < mappings.len()
            invariant
                mappings@ == spec_profile_table(geminilake),
                i <= mappings@.len(),
                forall|j: int| 0 <= j < i ==> mappings@[j].logical != *self,
            decreases mappings@.len() - i,
        {
            if mappings[i].logical() == *self {
                return true;
            }
            i = i + 1;
        }
        false
    }

    /// Selects the speed's FSP profile and applies the LPDDR4 defaults.
    pub fn meminit_lpddr4(&self, cfg: &mut FspMConfig, geminilake: bool)
        ensures
            *final(cfg) == spec_lpddr4_defaults(
                FspMConfig {
                    Profile: match spec_profile_of(*self, geminilake) {
                        Some(v) => v as u8,
                        None => 0xff,
                    },
                    ..*old(cfg)
                },
            ),
    {
        let _valid = self.validate(geminilake);
        let profile = self.fsp_memory_profile(geminilake);
        assert(profile == -1i32 ==> profile as u8 == 0xffu8) by (bit_vector);
        cfg.Profile = profile as u8;
        set_lpddr4_defaults(cfg);
    }

    /// FSP profile number of this speed, or -1 when the table lacks it.
    pub fn fsp_memory_profile(&self, geminilake: bool) -> (r: i32)
        ensures
            r == match spec_profile_of(*self, geminilake) {
                Some(v) => v,
                None => -1i32,
            },
    {
        let fsp_profile = get_fsp_profile(geminilake);
        let mappings = fsp_profile.mappings();
        let mut i: usize = 0;
        while i < mappings.len()
            invariant
                mappings@ == spec_profile_table(geminilake),
                i <= mappings@.len(),
                forall|j: int| 0 <= j < i ==> mappings@[j].logical != *self,
            decreases mappings@.len() - i,
        {
            if mappings[i].logical() == *self {
                return mappings[i].fsp_value();
            }
            i = i + 1;
        }
        -1
    }
}

/// LPDDR4 module density in bits.
#[derive(Clone, Copy, PartialEq, Eq, Structural)]
pub enum Lpddr4Density {
    /// 0Gb indicates disabled channel
    Density0Gb,
    Density4Gb,
    Density6Gb,
    Density8Gb,
    Density12Gb,
    Density16Gb,
}

impl Lpddr4Density {
    pub open spec fn spec_gb(self) -> u8 {
        match self {
            Lpddr4Density::Density0Gb => 0,
            Lpddr4Density::Density4Gb => 4,
            Lpddr4Density::Density6Gb => 6,
            Lpddr4Density::Density8Gb => 8,
            Lpddr4Density::Density12Gb => 12,
            Lpddr4Density::Density16Gb => 16,
        }
    }

    /// Density in gigabits.
    pub fn gb(self) -> (v: u8)
        ensures
            v == self.spec_gb(),
    {
        match self {
            Lpddr4Density::Density0Gb => 0,
            Lpddr4Density::Density4Gb => 4,
            Lpddr4Density::Density6Gb => 6,
            Lpddr4Density::Density8Gb => 8,
            Lpddr4Density::Density12Gb => 12,
            Lpddr4Density::Density16Gb => 16,
        }
    }
}

/// ODT settings: if the ODT pin to the LP4 DRAM is pulled high for ODT_A and
/// high for ODT_B, choose `OdtAbHighHigh`; high for ODT_A and low for ODT_B,
/// choose `OdtAbHighLow`.  The values are those of the Ch[3:0]_OdtConfig
/// UPD fields.
#[derive(Clone, Copy, PartialEq, Eq, Structural)]
pub enum OdtSettings {
    OdtAbHighLow,
    OdtAbHighHigh,
    Nwr24,
}

impl OdtSettings {
    pub fn value(self) -> (v: u8)
        ensures
            v == match self {
                OdtSettings::OdtAbHighLow => 0u8,
                OdtSettings::OdtAbHighHigh => 2,
                OdtSettings::Nwr24 => 0x20,
            },
    {
        match self {
            OdtSettings::OdtAbHighLow => 0,
            OdtSettings::OdtAbHighHigh => 2,
            OdtSettings::Nwr24 => 0x20,
        }
    }
}

/// Bit swizzling per DQS of one physical channel.
#[derive(Clone, Copy)]
pub struct Lpddr4ChanSwizzleCfg {
    pub dqs: [[u8; 8]; 4],
}

/// Bit swizzling of all physical channels.
#[derive(Clone, Copy)]
pub struct Lpddr4SwizzleCfg {
    pub phys: [Lpddr4ChanSwizzleCfg; 4],
}

/// Swizzle field of a logical channel's DQB half: byte lanes 1, 0, 3, 2.
pub open spec fn swizzle_dqb(chan: Lpddr4ChanSwizzleCfg) -> Seq<u8> {
    chan.dqs[1]@ + chan.dqs[0]@ + chan.dqs[3]@ + chan.dqs[2]@
}

/// Swizzle field of a logical channel's DQA half: byte lanes 0, 1, 2, 3.
pub open spec fn swizzle_dqa(chan: Lpddr4ChanSwizzleCfg) -> Seq<u8> {
    chan.dqs[0]@ + chan.dqs[1]@ + chan.dqs[2]@ + chan.dqs[3]@
}

/// Rank enable mask: both ranks when dual rank, else rank 0.
pub open spec fn spec_rank_mask(dual_rank: i32) -> u8 {
    if dual_rank != 0 {
        3
    } else {
        1
    }
}

/// Copies byte lane `lane` into bytes `at..at + 8` of a swizzle field.
fn copy_lane(dst: &mut [u8; 32], at: usize, lane: &[u8; 8])
    requires
        at + 8 <= 32,
    ensures
        forall|k: int| 0 <= k < 8 ==> final(dst)@[at + k] == lane@[k],
        forall|k: int| 0 <= k < 32 && !(at <= k < at + 8) ==> final(dst)@[k] == old(dst)@[k],
{
    let mut k: usize = 0;
    while k < 8
        invariant
            k <= 8,
            at + 8 <= 32,
            forall|j: int| 0 <= j < k ==> dst@[at + j] == lane@[j],
            forall|j: int| 0 <= j < 32 && !(at <= j < at + k) ==> dst@[j] == old(dst)@[j],
        decreases 8 - k,
    {
        dst[at + k] = lane[k];
        k = k + 1;
    }
}

/// Fills a swizzle field with the lanes `l0, l1, l2, l3` of `chan`.
fn fill_swizzle(dst: &mut [u8; 32], chan: &Lpddr4ChanSwizzleCfg, l0: usize, l1: usize, l2: usize, l3: usize)
    requires
        l0 < 4 && l1 < 4 && l2 < 4 && l3 < 4,
    ensures
        final(dst)@ == chan.dqs[l0 as int]@ + chan.dqs[l1 as int]@ + chan.dqs[l2 as int]@ + chan.dqs[l3 as int]@,
{
    copy_lane(dst, 0, &chan.dqs[l0]);
    copy_lane(dst, 8, &chan.dqs[l1]);
    copy_lane(dst, 16, &chan.dqs[l2]);
    copy_lane(dst, 24, &chan.dqs[l3]);
    assert(dst@ =~= chan.dqs[l0 as int]@ + chan.dqs[l1 as int]@ + chan.dqs[l2 as int]@ + chan.dqs[l3 as int]@);
}

impl Lpddr4SwizzleCfg {
    /// Logical channel 0 is physical channels 0 and 1: channel 0 carries the
    /// CH0_DQB signals, channel 1 the CH0_DQA signals.
    pub fn enable_logical_chan0(&self, cfg: &mut FspMConfig, rank_density: Lpddr4Density, dual_rank: i32)
        ensures
            final(cfg).Ch0_DramDensity == rank_density.spec_gb(),
            final(cfg).Ch1_DramDensity == rank_density.spec_gb(),
            final(cfg).Ch0_RankEnable == spec_rank_mask(dual_rank),
            final(cfg).Ch1_RankEnable == spec_rank_mask(dual_rank),
            final(cfg).Ch0_Bit_swizzling@ == swizzle_dqb(self.phys[1]),
            final(cfg).Ch1_Bit_swizzling@ == swizzle_dqa(self.phys[0]),
            *final(cfg) == (FspMConfig {
                Ch0_DramDensity: final(cfg).Ch0_DramDensity,
                Ch1_DramDensity: final(cfg).Ch1_DramDensity,
                Ch0_RankEnable: final(cfg).Ch0_RankEnable,
                Ch1_RankEnable: final(cfg).Ch1_RankEnable,
                Ch0_Bit_swizzling: final(cfg).Ch0_Bit_swizzling,
                Ch1_Bit_swizzling: final(cfg).Ch1_Bit_swizzling,
                ..*old(cfg)
            }),
    {
        cfg.Ch0_DramDensity = rank_density.gb();
        cfg.Ch1_DramDensity = rank_density.gb();
        let rank_mask: u8 = if dual_rank != 0 { 0x3 } else { 0x1 };
        cfg.Ch0_RankEnable = rank_mask;
        cfg.Ch1_RankEnable = rank_mask;
        let chan = &self.phys[1];
        fill_swizzle(&mut cfg.Ch0_Bit_swizzling, chan, 1, 0, 3, 2);
        let chan = &self.phys[0];
        fill_swizzle(&mut cfg.Ch1_Bit_swizzling, chan, 0, 1, 2, 3);
    }

    /// Logical channel 1 is physical channels 2 and 3: channel 2 carries the
    /// CH1_DQB signals, channel 3 the CH1_DQA signals.
    pub fn enable_logical_chan1(&self, cfg: &mut FspMConfig, rank_density: Lpddr4Density, dual_rank: i32)
        ensures
            final(cfg).Ch2_DramDensity == rank_density.spec_gb(),
            final(cfg).Ch3_DramDensity == rank_density.spec_gb(),
            final(cfg).Ch2_RankEnable == spec_rank_mask(dual_rank),
            final(cfg).Ch3_RankEnable == spec_rank_mask(dual_rank),
            final(cfg).Ch2_Bit_swizzling@ == swizzle_dqb(self.phys[3]),
            final(cfg).Ch3_Bit_swizzling@ == swizzle_dqa(self.phys[2]),
            *final(cfg) == (FspMConfig {
                Ch2_DramDensity: final(cfg).Ch2_DramDensity,
                Ch3_DramDensity: final(cfg).Ch3_DramDensity,
                Ch2_RankEnable: final(cfg).Ch2_RankEnable,
                Ch3_RankEnable: final(cfg).Ch3_RankEnable,
                Ch2_Bit_swizzling: final(cfg).Ch2_Bit_swizzling,
                Ch3_Bit_swizzling: final(cfg).Ch3_Bit_swizzling,
                ..*old(cfg)
            }),
    {
        cfg.Ch2_DramDensity = rank_density.gb();
        cfg.Ch3_DramDensity = rank_density.gb();
        let rank_mask: u8 = if dual_rank != 0 { 0x3 } else { 0x1 };
        cfg.Ch2_RankEnable = rank_mask;
        cfg.Ch3_RankEnable = rank_mask;
        let chan = &self.phys[3];
        fill_swizzle(&mut cfg.Ch2_Bit_swizzling, chan, 1, 0, 3, 2);
        let chan = &self.phys[2];
        fill_swizzle(&mut cfg.Ch3_Bit_swizzling, chan, 0, 1, 2, 3);
    }
}


impl Lpddr4SwizzleCfg {
    /// Enables logical channel `logical_chan` with `rank_density_gb` parts
    /// and counts its memory; a 0 Gb density leaves everything unchanged.
    pub fn meminit_lpddr4_enable_channel(
        &self,
        cfg: &mut FspMConfig,
        totals: &mut MemoryTotals,
        logical_chan: LogicalId,
        rank_density_gb: Lpddr4Density,
        dual_rank: i32,
    )
        requires
            old(totals).size_in_mib + spec_channel_mib(rank_density_gb, dual_rank) <= usize::MAX,
        ensures
            rank_density_gb == Lpddr4Density::Density0Gb ==> *final(cfg) == *old(cfg)
                && final(totals).size_in_mib == old(totals).size_in_mib,
            rank_density_gb != Lpddr4Density::Density0Gb ==> {
                &&& *final(cfg) == spec_enable_channel(*self, *old(cfg), logical_chan, rank_density_gb, dual_rank)
                &&& final(totals).size_in_mib == old(totals).size_in_mib + spec_channel_mib(
                    rank_density_gb,
                    dual_rank,
                )
            },
    {
        if rank_density_gb == Lpddr4Density::Density0Gb {
            return;
        }
        match logical_chan {
            LogicalId::Ch0 => {
                self.enable_logical_chan0(cfg, rank_density_gb, dual_rank);
                proof {
                    lemma_seq_to_array32(cfg.Ch0_Bit_swizzling, swizzle_dqb(self.phys[1]));
                    lemma_seq_to_array32(cfg.Ch1_Bit_swizzling, swizzle_dqa(self.phys[0]));
                }
            },
            LogicalId::Ch1 => {
                self.enable_logical_chan1(cfg, rank_density_gb, dual_rank);
                proof {
                    lemma_seq_to_array32(cfg.Ch2_Bit_swizzling, swizzle_dqb(self.phys[3]));
                    lemma_seq_to_array32(cfg.Ch3_Bit_swizzling, swizzle_dqa(self.phys[2]));
                }
            },
        }
        accumulate_channel_memory(totals, rank_density_gb, dual_rank);
    }
}

/// `cfg` after enabling logical channel `chan`.
pub open spec fn spec_enable_channel(
    sw: Lpddr4SwizzleCfg,
    cfg: FspMConfig,
    chan: LogicalId,
    density: Lpddr4Density,
    dual_rank: i32,
) -> FspMConfig {
    match chan {
        LogicalId::Ch0 => FspMConfig {
            Ch0_DramDensity: density.spec_gb(),
            Ch1_DramDensity: density.spec_gb(),
            Ch0_RankEnable: spec_rank_mask(dual_rank),
            Ch1_RankEnable: spec_rank_mask(dual_rank),
            Ch0_Bit_swizzling: seq_to_array32(swizzle_dqb(sw.phys[1])),
            Ch1_Bit_swizzling: seq_to_array32(swizzle_dqa(sw.phys[0])),
            ..cfg
        },
        LogicalId::Ch1 => FspMConfig {
            Ch2_DramDensity: density.spec_gb(),
            Ch3_DramDensity: density.spec_gb(),
            Ch2_RankEnable: spec_rank_mask(dual_rank),
            Ch3_RankEnable: spec_rank_mask(dual_rank),
            Ch2_Bit_swizzling: seq_to_array32(swizzle_dqb(sw.phys[3])),
            Ch3_Bit_swizzling: seq_to_array32(swizzle_dqa(sw.phys[2])),
            ..cfg
        },
    }
}

/// The 32-byte array whose contents are `s`.
pub open spec fn seq_to_array32(s: Seq<u8>) -> [u8; 32] {
    choose|a: [u8; 32]| a@ == s
}

pub proof fn lemma_seq_to_array32(a: [u8; 32], s: Seq<u8>)
    requires
        a@ == s,
    ensures
        seq_to_array32(s) == a,
{
    let b = seq_to_array32(s);
    assert(b@ == s);
    assert(forall|i: int| 0 <= i < 32 ==> b[i] == b@[i] && a[i] == a@[i]);
    assert(b =~= a);
}

/// Memory part of one board SKU.
#[derive(Clone, Copy)]
pub struct Lpddr4Sku {
    pub speed: Lpddr4Speed,
    pub ch0_rank_density: Lpddr4Density,
    pub ch1_rank_density: Lpddr4Density,
    pub ch0_dual_rank: i32,
    pub ch1_dual_rank: i32,
    pub part_num: &'static str,
    pub disable_periodic_retraining: bool,
}

impl Lpddr4Sku {
    pub fn speed(&self) -> (r: Lpddr4Speed)
        ensures
            r == self.speed,
    {
        self.speed
    }

    pub fn speed_mut(&mut self) -> (r: &mut Lpddr4Speed)
        ensures
            *r == old(self).speed,
            *final(self) == (Lpddr4Sku { speed: *final(r), ..*old(self) }),
    {
        &mut self.speed
    }

    pub fn ch0_rank_density(&self) -> (r: Lpddr4Density)
        ensures
            r == self.ch0_rank_density,
    {
        self.ch0_rank_density
    }

    pub fn ch1_rank_density(&self) -> (r: Lpddr4Density)
        ensures
            r == self.ch1_rank_density,
    {
        self.ch1_rank_density
    }

    pub fn ch0_dual_rank(&self) -> (r: i32)
        ensures
            r == self.ch0_dual_rank,
    {
        self.ch0_dual_rank
    }

    pub fn ch1_dual_rank(&self) -> (r: i32)
        ensures
            r == self.ch1_dual_rank,
    {
        self.ch1_dual_rank
    }

    pub fn part_num(&self) -> (r: &'static str)
        ensures
            r == self.part_num,
    {
        self.part_num
    }

    pub fn disable_periodic_retraining(&self) -> (r: bool)
        ensures
            r == self.disable_periodic_retraining,
    {
        self.disable_periodic_retraining
    }
}

/// Memory configuration of a board: its SKUs and the channel swizzling.
pub struct Lpddr4Cfg {
    pub skus: Vec<Lpddr4Sku>,
    pub swizzle_config: Lpddr4SwizzleCfg,
}

/// `cfg` and the memory total after configuring `sku`.
pub open spec fn spec_meminit_by_sku(
    sw: Lpddr4SwizzleCfg,
    cfg: FspMConfig,
    total: int,
    sku: Lpddr4Sku,
    geminilake: bool,
) -> (FspMConfig, int) {
    let c1 = spec_lpddr4_defaults(
        FspMConfig {
            Profile: match spec_profile_of(sku.speed, geminilake) {
                Some(v) => v as u8,
                None => 0xff,
            },
            ..cfg
        },
    );
    let (c2, t2) = if sku.ch0_rank_density != Lpddr4Density::Density0Gb {
        (
            spec_enable_channel(sw, c1, LogicalId::Ch0, sku.ch0_rank_density, sku.ch0_dual_rank),
            total + spec_channel_mib(sku.ch0_rank_density, sku.ch0_dual_rank),
        )
    } else {
        (c1, total)
    };
    let (c3, t3) = if sku.ch1_rank_density != Lpddr4Density::Density0Gb {
        (
            spec_enable_channel(sw, c2, LogicalId::Ch1, sku.ch1_rank_density, sku.ch1_dual_rank),
            t2 + spec_channel_mib(sku.ch1_rank_density, sku.ch1_dual_rank),
        )
    } else {
        (c2, t2)
    };
    (FspMConfig { PeriodicRetrainingDisable: if sku.disable_periodic_retraining { 1 } else { 0 }, ..c3 }, t3)
}

impl Lpddr4Cfg {
    /// Configures memory for SKU `sku_id`: speed profile, defaults, the
    /// populated logical channels and periodic retraining.  An unknown SKU
    /// leaves everything unchanged.
    pub fn meminit_lpddr4_by_sku(
        &mut self,
        cfg: &mut FspMConfig,
        totals: &mut MemoryTotals,
        sku_id: usize,
        geminilake: bool,
    )
        requires
            old(totals).size_in_mib + 2 * 16 * 2 * 2 * 1024 <= usize::MAX,
        ensures
            final(self).skus@ == old(self).skus@,
            final(self).swizzle_config == old(self).swizzle_config,
            sku_id >= old(self).skus@.len() ==> *final(cfg) == *old(cfg) && final(totals).size_in_mib
                == old(totals).size_in_mib,
            sku_id < old(self).skus@.len() ==> ({
                let (c, t) = spec_meminit_by_sku(
                    old(self).swizzle_config,
                    *old(cfg),
                    old(totals).size_in_mib as int,
                    old(self).skus@[sku_id as int],
                    geminilake,
                );
                *final(cfg) == c && final(totals).size_in_mib == t
            }),
    {
        if sku_id >= self.skus.len() {
            return;
        }
        let sku = self.skus[sku_id];
        sku.speed().meminit_lpddr4(cfg, geminilake);
        if sku.ch0_rank_density != Lpddr4Density::Density0Gb {
            self.swizzle_config.meminit_lpddr4_enable_channel(
                cfg,
                totals,
                LogicalId::Ch0,
                sku.ch0_rank_density,
                sku.ch0_dual_rank,
            );
        }
        if sku.ch1_rank_density != Lpddr4Density::Density0Gb {
            self.swizzle_config.meminit_lpddr4_enable_channel(
                cfg,
                totals,
                LogicalId::Ch1,
                sku.ch1_rank_density,
                sku.ch1_dual_rank,
            );
        }
        cfg.PeriodicRetrainingDisable = if sku.disable_periodic_retraining { 1 } else { 0 };
    }
}

} // verus!
