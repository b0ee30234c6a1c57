use soc::amd::pci::PciAddress;
use soc::amd::rome::SOC;
use soc::mmio::{BusWrite, Mmio};
use soc::sifive::ux00::{
    peek, phy_reset, poke, poke64, ux00ddr_bus_blocker_value, ux00ddr_getdramclass,
    ux00ddr_phy_fixup, ux00ddr_setuprangeprotection, ux00ddr_start, ux00ddr_writeregmap, CTL_REGS,
    DDR_CTRL, DDR_PHY, PHY_REGS,
};
use soc::mmio::RegOp;

#[test]
fn amd_mmio_config_address() {
    let a = PciAddress { segment: 1, bus: 2, device: 3, function: 4, offset: 5 };
    assert_eq!(a.mmio_config_address(), 0xf021_c005);
    let b = PciAddress { segment: 0, bus: 0, device: 0, function: 0, offset: 0 };
    assert_eq!(b.mmio_config_address(), 0xe000_0000);
}

#[test]
fn rome_mailboxes() {
    let soc = SOC::new();
    let m = soc.mailboxes();
    assert_eq!(m.len(), 4);
    assert_eq!(m[0].message_addr, 0x3B1_0520);
    assert_eq!(m[3].argument_addr, 0x3B1_09C4);
    assert_eq!(m[2].num_args, 8);
}

#[test]
fn poke_and_peek_words() {
    let mut m = Mmio::new();
    poke(&mut m, DDR_CTRL, 3, 0xabcd);
    assert_eq!(peek(&m, DDR_CTRL, 3), 0xabcd);
    assert_eq!(m.read32(DDR_CTRL as u64 + 12), 0xabcd);
    poke64(&mut m, DDR_CTRL, 10, 0x1122_3344_5566_7788);
    assert_eq!(m.write_count(), 2);
    assert_eq!(m.write_at(1), BusWrite { addr: DDR_CTRL as u64 + 40, value: 0x1122_3344_5566_7788, width: 8 });
    assert_eq!(peek(&m, DDR_CTRL, 10), 0x5566_7788);
    assert_eq!(peek(&m, DDR_CTRL, 11), 0x1122_3344);
}

#[test]
fn ddr_controller_steps() {
    let mut m = Mmio::new();
    m.load32(DDR_CTRL as u64, 0xa00);
    assert_eq!(ux00ddr_getdramclass(&m), 0xa);
    assert_eq!(ux00ddr_bus_blocker_value(0x1_0000_0000), 0x0f00_0000_4000_0000);
    let mut ops = Vec::new();
    ux00ddr_start(0x100b_8000, 0x1_0000_0000, &mut ops);
    assert_eq!(
        ops,
        vec![
            RegOp::Modify { addr: DDR_CTRL as u64, and_mask: 0xffff_ffff, or_mask: 1 },
            RegOp::WaitSet { addr: DDR_CTRL as u64 + 132 * 4, mask: 0x100 },
            RegOp::Write64 { addr: 0x100b_8000, value: 0x0f00_0000_4000_0000 },
        ]
    );
    ux00ddr_setuprangeprotection(&mut m, 0x2_0000_0000);
    // (8 GiB / 16 KiB) - 1
    assert_eq!(peek(&m, DDR_CTRL, 210), 0x7_ffff);
    assert_eq!(ux00ddr_phy_fixup(&m), 0);
}

#[test]
fn register_maps_are_loaded_in_order() {
    let ctl: Vec<u32> = (0..CTL_REGS as u32).collect();
    let phy: Vec<u32> = (0..PHY_REGS as u32).map(|i| 0x10000 + i).collect();
    let mut m = Mmio::new();
    phy_reset(&mut m, &phy);
    // entries 1152 and up come first
    assert_eq!(m.write_at(0), BusWrite { addr: DDR_PHY as u64 + 1152 * 4, value: 0x10000 + 1152, width: 4 });
    assert_eq!(m.write_at(PHY_REGS - 1152), BusWrite { addr: DDR_PHY as u64, value: 0x10000, width: 4 });
    let mut m = Mmio::new();
    ux00ddr_writeregmap(&mut m, &ctl, &phy);
    assert_eq!(peek(&m, DDR_CTRL, 5), 5);
    assert_eq!(peek(&m, DDR_PHY, 7), 0x10007);
}

#[test]
fn phy_fixup_reports_failed_lanes() {
    let mut m = Mmio::new();
    // slice 0, word 34, lane 0: down 0, up saturated
    m.load32(DDR_PHY as u64 + 34 * 4, 0x0000_0fc0);
    // slice 2, word 35, lane 1: down saturated, up 0
    m.load32(DDR_PHY as u64 + (2 * 128 + 35) * 4, 0x003f_0000);
    // slice 5, word 36: both lanes at mid-range, no failure
    m.load32(DDR_PHY as u64 + (5 * 128 + 36) * 4, 0x0820_0820);
    assert_eq!(ux00ddr_phy_fixup(&m), 1 | (1 << 19));
}
