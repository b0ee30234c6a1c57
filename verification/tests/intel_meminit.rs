use soc::intel::apollolake::meminit::{
    accumulate_channel_memory, get_fsp_profile, iohole_in_mib, memory_in_system_in_mib,
    set_lpddr4_defaults, FspMConfig, Lpddr4Cfg, Lpddr4ChanSwizzleCfg, Lpddr4Density, Lpddr4Sku,
    Lpddr4Speed, Lpddr4SwizzleCfg, MemoryTotals,
};
use soc::intel::apollolake::meminit_glk::save_lpddr4_dimm_info;

#[test]
fn lpddr4_defaults() {
    let mut cfg = FspMConfig::default();
    cfg.Profile = 9;
    set_lpddr4_defaults(&mut cfg);
    assert_eq!(cfg.Package, 1);
    assert_eq!(cfg.MemoryDown, 1);
    assert_eq!(cfg.ChannelHashMask, 0x36);
    assert_eq!(cfg.SliceHashMask, 0x9);
    assert_eq!(cfg.InterleavedMode, 2);
    assert_eq!(cfg.LowMemoryMaxValue, 2048);
    assert_eq!(cfg.Ch3_DeviceWidth, 1);
    assert_eq!(cfg.Ch2_Option, 3);
    // fields outside the defaults are kept
    assert_eq!(cfg.Profile, 9);
    assert_eq!(iohole_in_mib(), 2048);
}

#[test]
fn speed_profiles() {
    assert_eq!(Lpddr4Speed::Speed2400.mts(), 2400);
    assert!(Lpddr4Speed::Speed1600.validate(true));
    assert!(!Lpddr4Speed::Speed0.validate(true));
    assert_eq!(Lpddr4Speed::Speed2133.fsp_memory_profile(true), 6);
    assert_eq!(Lpddr4Speed::Speed2133.fsp_memory_profile(false), 0xa);
    assert_eq!(Lpddr4Speed::Speed0.fsp_memory_profile(false), -1);
    assert_eq!(get_fsp_profile(true).mappings().len(), 3);
}

#[test]
fn memory_totals_accumulate() {
    let mut t = MemoryTotals { size_in_mib: 0 };
    accumulate_channel_memory(&mut t, Lpddr4Density::Density8Gb, 1);
    assert_eq!(memory_in_system_in_mib(&t), 8 * 2 * 2 * 1024);
    accumulate_channel_memory(&mut t, Lpddr4Density::Density4Gb, 0);
    assert_eq!(memory_in_system_in_mib(&t), 8 * 2 * 2 * 1024 + 4 * 2 * 1024);
}

#[test]
fn sku_programs_channels_swizzle_and_totals() {
    let chan = |base: u8| Lpddr4ChanSwizzleCfg {
        dqs: [
            [base, base + 1, base + 2, base + 3, base + 4, base + 5, base + 6, base + 7],
            [base + 8, base + 9, base + 10, base + 11, base + 12, base + 13, base + 14, base + 15],
            [base + 16, base + 17, base + 18, base + 19, base + 20, base + 21, base + 22, base + 23],
            [base + 24, base + 25, base + 26, base + 27, base + 28, base + 29, base + 30, base + 31],
        ],
    };
    let sku = Lpddr4Sku {
        speed: Lpddr4Speed::Speed2400,
        ch0_rank_density: Lpddr4Density::Density8Gb,
        ch1_rank_density: Lpddr4Density::Density0Gb,
        ch0_dual_rank: 0,
        ch1_dual_rank: 0,
        part_num: "K4F8E3S4HBMHCJ",
        disable_periodic_retraining: true,
    };
    let mut lp = Lpddr4Cfg {
        skus: vec![sku],
        swizzle_config: Lpddr4SwizzleCfg { phys: [chan(0), chan(32), chan(64), chan(96)] },
    };
    let mut cfg = FspMConfig::default();
    let mut totals = MemoryTotals { size_in_mib: 0 };
    lp.meminit_lpddr4_by_sku(&mut cfg, &mut totals, 0, true);
    assert_eq!(cfg.Profile, 7);
    assert_eq!(cfg.Ch0_DramDensity, 8);
    assert_eq!(cfg.Ch0_RankEnable, 1);
    assert_eq!(cfg.Ch2_RankEnable, 0);
    // DQB half of channel 0 from physical channel 1: lanes 1, 0, 3, 2
    assert_eq!(&cfg.Ch0_Bit_swizzling[0..8], &[40, 41, 42, 43, 44, 45, 46, 47]);
    assert_eq!(&cfg.Ch0_Bit_swizzling[8..16], &[32, 33, 34, 35, 36, 37, 38, 39]);
    // DQA half from physical channel 0: lanes in order
    assert_eq!(cfg.Ch1_Bit_swizzling[17], 17);
    assert_eq!(cfg.PeriodicRetrainingDisable, 1);
    assert_eq!(memory_in_system_in_mib(&totals), 8 * 2 * 1024);
    assert_eq!(save_lpddr4_dimm_info(&lp, 0), "K4F8E3S4HBMHCJ");
    assert_eq!(save_lpddr4_dimm_info(&lp, 3), "");
    // an unknown SKU leaves everything as it was
    let before = cfg.Profile;
    lp.meminit_lpddr4_by_sku(&mut cfg, &mut totals, 5, true);
    assert_eq!(cfg.Profile, before);
    assert_eq!(memory_in_system_in_mib(&totals), 8 * 2 * 1024);
}
