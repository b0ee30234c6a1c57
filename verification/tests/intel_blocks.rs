use soc::intel::apollolake::cpu::cpu_soc_is_in_untrusted_mode;
use soc::intel::apollolake::pci_devs::{pch_dev, pch_devfn, PchDevSlot, PCH_DEVFN_CNVI, PCH_DEV_LPC};
use soc::intel::common::block::gpmr::gpmr_write32;
use soc::intel::common::block::itss::itss_set_irq_polarity;
use soc::intel::common::block::lpc::{lpc_enable_fixed_io_ranges, lpc_open_mmio_window};
use soc::intel::common::block::p2sb::{p2sb_dev_is_hidden, p2sb_hide, p2sb_unhide, PCH_DEV_P2SB};
use soc::intel::common::block::pcr::{
    __pcr_reg_address, pcr_or32, pcr_wait_step, pcr_read32, pcr_rmw32, pcr_write32, sbi_addr, sbi_is_busy,
    sbi_response, sbi_rid, sbi_status, PcrSbiMsg, PcrSbiOpcode, SbiAction, SbiEvent, SbiSession,
};
use soc::intel::common::block::pmc::{enable_pm1_control, poweroff, read_pm1_control, write_pm1_control};
use soc::intel::Error;
use soc::mmio::{BusWrite, Mmio};
use soc::pci::{pci_dev, pci_devfn, pci_read_config16, pci_read_config8, pci_write_config16, pci_write_config8};

fn msg(opcode: PcrSbiOpcode) -> PcrSbiMsg {
    PcrSbiMsg { pid: 0xc4, offset: 0x1234, opcode, is_posted: false, fast_byte_enable: 0xf, bar: 0, fid: 0 }
}

#[test]
fn pcr_addresses_and_accesses() {
    assert_eq!(__pcr_reg_address(0xc4, 0x600), 0xd0c4_0600);
    let mut pcr = Mmio::new();
    pcr_write32(&mut pcr, 0xc4, 0x600, 0x1234_5678);
    assert_eq!(pcr_read32(&pcr, 0xc4, 0x600), 0x1234_5678);
    pcr_rmw32(&mut pcr, 0xc4, 0x600, 0xffff_0000, 0x9);
    assert_eq!(pcr_read32(&pcr, 0xc4, 0x600), 0x1234_0009);
    pcr_or32(&mut pcr, 0xc4, 0x600, 0x10);
    assert_eq!(pcr_read32(&pcr, 0xc4, 0x600), 0x1234_0019);
    assert_eq!(pcr.read32(0xd0c4_0600), 0x1234_0019);
}

#[test]
fn sbi_register_values() {
    let m = msg(PcrSbiOpcode::PcrWrite);
    assert_eq!(PcrSbiOpcode::GpioLockUnlock.code(), 0x13);
    assert_eq!(sbi_addr(&m), 0xc400_1234);
    assert_eq!(sbi_status(0xffff, &m), 0x077f);
    assert_eq!(sbi_status(0, &PcrSbiMsg { is_posted: true, ..m }), 0x0780);
    assert_eq!(sbi_rid(&m), 0xf000);
    assert_eq!(sbi_response(0b110), 3);
    assert_eq!(sbi_response(0b001), 0);
    assert!(sbi_is_busy(1));
    assert!(!sbi_is_busy(0xfffe));
}

#[test]
fn sbi_write_transaction_sequence() {
    let mut s = SbiSession::new(msg(PcrSbiOpcode::PcrWrite), 0xdead_beef);
    assert_eq!(s.step(SbiEvent::Written), SbiAction::ReadConfig16(0));
    assert_eq!(s.step(SbiEvent::Value16(0x8086)), SbiAction::WaitForCompletion);
    assert_eq!(s.step(SbiEvent::Completed(true)), SbiAction::WriteConfig32(0xd0, 0xc400_1234));
    assert_eq!(s.step(SbiEvent::Written), SbiAction::WriteConfig32(0xdc, 0));
    assert_eq!(s.step(SbiEvent::Written), SbiAction::ReadConfig16(0xd8));
    assert_eq!(s.step(SbiEvent::Value16(0)), SbiAction::WriteConfig16(0xd8, 0x0700));
    assert_eq!(s.step(SbiEvent::Written), SbiAction::WriteConfig16(0xda, 0xf000));
    assert_eq!(s.step(SbiEvent::Written), SbiAction::WriteConfig32(0xd4, 0xdead_beef));
    assert_eq!(s.step(SbiEvent::Written), SbiAction::ReadConfig16(0xd8));
    assert_eq!(s.step(SbiEvent::Value16(0x0700)), SbiAction::WriteConfig16(0xd8, 0x0701));
    assert_eq!(s.step(SbiEvent::Written), SbiAction::WaitForCompletion);
    assert_eq!(s.step(SbiEvent::Completed(true)), SbiAction::Finish(Ok(())));
    assert_eq!(s.response, 0);
}

#[test]
fn sbi_read_returns_data_and_failures_are_reported() {
    let mut s = SbiSession::new(msg(PcrSbiOpcode::PcrRead), 0);
    s.step(SbiEvent::Written);
    s.step(SbiEvent::Value16(0x8086));
    s.step(SbiEvent::Completed(true));
    s.step(SbiEvent::Written);
    s.step(SbiEvent::Written);
    s.step(SbiEvent::Value16(0));
    s.step(SbiEvent::Written);
    assert_eq!(s.step(SbiEvent::Written), SbiAction::WriteConfig32(0xd4, 0));
    s.step(SbiEvent::Written);
    s.step(SbiEvent::Value16(0x0600));
    s.step(SbiEvent::Written);
    assert_eq!(s.step(SbiEvent::Completed(true)), SbiAction::ReadConfig32(0xd4));
    assert_eq!(s.step(SbiEvent::Value32(0x55aa)), SbiAction::Finish(Ok(())));
    assert_eq!(s.data, 0x55aa);

    // memory reads are not carried
    let mut s = SbiSession::new(msg(PcrSbiOpcode::MemRead), 0);
    assert_eq!(s.step(SbiEvent::Written), SbiAction::Finish(Err(Error::SbiFailure)));
    // hidden P2SB
    let mut s = SbiSession::new(msg(PcrSbiOpcode::PcrWrite), 0);
    s.step(SbiEvent::Written);
    assert_eq!(s.step(SbiEvent::Value16(0xffff)), SbiAction::Finish(Err(Error::SbiFailure)));
    // time-out
    let mut s = SbiSession::new(msg(PcrSbiOpcode::PcrWrite), 0);
    s.step(SbiEvent::Written);
    s.step(SbiEvent::Value16(0x8086));
    assert_eq!(s.step(SbiEvent::Completed(false)), SbiAction::Finish(Err(Error::SbiFailure)));
}

#[test]
fn pci_config_accesses() {
    assert_eq!(pci_devfn(0x0c, 0), 0x60);
    assert_eq!(pci_dev(0, 0x1f, 1), 0xf9000);
    let mut cfg = Mmio::new();
    let dev = pci_dev(0, 0x1f, 0);
    pci_write_config16(&mut cfg, dev, 0x82, 0xabcd);
    pci_write_config8(&mut cfg, dev, 0x81, 0x12);
    assert_eq!(pci_read_config16(&cfg, dev, 0x82), 0xabcd);
    assert_eq!(pci_read_config8(&cfg, dev, 0x81), 0x12);
    assert_eq!(pci_read_config8(&cfg, dev, 0x83), 0xab);
    // each access is logged at its own byte address and width
    assert_eq!(cfg.write_at(0), BusWrite { addr: dev as u64 + 0x82, value: 0xabcd, width: 2 });
    assert_eq!(cfg.write_at(1), BusWrite { addr: dev as u64 + 0x81, value: 0x12, width: 1 });
}

#[test]
fn p2sb_hide_and_unhide_flip_the_hide_bit() {
    let mut cfg = Mmio::new();
    pci_write_config8(&mut cfg, PCH_DEV_P2SB, 0xe1, 0xf0);
    p2sb_hide(&mut cfg);
    assert_eq!(pci_read_config8(&cfg, PCH_DEV_P2SB, 0xe1), 0xf1);
    assert_eq!(cfg.write_at(1), BusWrite { addr: PCH_DEV_P2SB as u64 + 0xe1, value: 0xf1, width: 1 });
    p2sb_unhide(&mut cfg);
    assert_eq!(pci_read_config8(&cfg, PCH_DEV_P2SB, 0xe1), 0xf0);
    assert!(p2sb_dev_is_hidden(&cfg, PCH_DEV_P2SB));
    pci_write_config16(&mut cfg, PCH_DEV_P2SB, 0, 0x8086);
    assert!(!p2sb_dev_is_hidden(&cfg, PCH_DEV_P2SB));
}

#[test]
fn lpc_ranges_and_window() {
    let mut cfg = Mmio::new();
    let mut pcr = Mmio::new();
    pci_write_config16(&mut cfg, PCH_DEV_LPC, 0x82, 0x0100);
    assert_eq!(lpc_enable_fixed_io_ranges(&mut cfg, &mut pcr, true, 0x0c00), 0x0d00);
    assert_eq!(pci_read_config16(&cfg, PCH_DEV_LPC, 0x82), 0x0d00);
    assert!(lpc_open_mmio_window(&mut cfg, &mut pcr, true, 0xfe00_0000, 0x1_0000));
    assert_eq!(cfg.read32(PCH_DEV_LPC as u64 + 0x98), 0xfe00_0001);
    // a second window is not opened
    assert!(!lpc_open_mmio_window(&mut cfg, &mut pcr, true, 0xfd00_0000, 0x1_0000));
    assert_eq!(cfg.read32(PCH_DEV_LPC as u64 + 0x98), 0xfe00_0001);
}

#[test]
fn pm1_control_and_poweroff() {
    let mut io = Mmio::new();
    write_pm1_control(&mut io, 0x1);
    enable_pm1_control(&mut io, 0x4);
    assert_eq!(read_pm1_control(&io), 0x5);
    poweroff(&mut io);
    assert_eq!(read_pm1_control(&io), 0x3c05);
}

#[test]
fn itss_polarity_and_gpmr() {
    let mut pcr = Mmio::new();
    itss_set_irq_polarity(&mut pcr, 33, 1);
    assert_eq!(pcr_read32(&pcr, 0xd0, 0x3204), 0x2);
    itss_set_irq_polarity(&mut pcr, 33, 0);
    assert_eq!(pcr_read32(&pcr, 0xd0, 0x3204), 0);
    let before = pcr.write_count();
    itss_set_irq_polarity(&mut pcr, 120, 1);
    assert_eq!(pcr.write_count(), before);
    gpmr_write32(&mut pcr, 0x2740, 7);
    assert_eq!(pcr.write_count(), before + 1);
}

#[test]
fn pch_devices_and_untrusted_mode() {
    assert_eq!(pch_dev(PchDevSlot::Lpc, 0), PCH_DEV_LPC);
    assert_eq!(pch_devfn(PchDevSlot::Cnvi, 0), PCH_DEVFN_CNVI);
    assert!(cpu_soc_is_in_untrusted_mode(0x40));
    assert!(!cpu_soc_is_in_untrusted_mode(0xbf));
}

#[test]
fn sideband_wait_ends_when_idle_or_after_the_timeout() {
    assert_eq!(pcr_wait_step(0, 1), None);
    assert_eq!(pcr_wait_step(9, 1), None);
    assert_eq!(pcr_wait_step(3, 0), Some(Ok(())));
    assert_eq!(pcr_wait_step(10, 1), Some(Err(Error::PcrTimeout)));
    assert_eq!(pcr_wait_step(10, 0), Some(Err(Error::PcrTimeout)));
}
