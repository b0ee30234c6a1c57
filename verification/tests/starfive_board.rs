use soc::mmio::Mmio;
use soc::starfive::jh7100::clock::{
    Clock, _DIVIDE_CLOCK_clk_audio_root_, _GET_CLOCK_DIVIDE_STATUS_clk_audio_root_,
    _GET_CLOCK_SOURCE_STATUS_clk_cpundbus_root_, clk_audio_root_ctrl_REG_ADDR as CLK_AUDIO_ROOT_CTRL,
    clk_cpundbus_root_ctrl_REG_ADDR as CLK_CPUNDBUS_ROOT_CTRL, clk_dsp_root_ctrl_REG_ADDR as CLK_DSP_ROOT_CTRL,
    clk_perh0_root_ctrl_REG_ADDR as CLK_PERH0_ROOT_CTRL,
};
use soc::starfive::jh7100::iopadctl::{
    IOpadctl, syscon_iopad_ctrl_register104_REG_ADDR as SCFG_IO_PADSHARE_SEL,
    syscon_iopad_ctrl_register50_REG_ADDR as SCFG_FUNCSHARE_PAD_CTRL_18,
};
use soc::starfive::jh7100::rstgen::{
    RSTgen, _READ_RESET_STATUS_rstgen_rstn_x2c_axi_,
    rstgen_Software_RESET_assert1_REG_ADDR as RSTGEN_SOFTWARE_RESET_ASSERT1,
    rstgen_Software_RESET_assert3_REG_ADDR as RSTGEN_SOFTWARE_RESET_ASSERT3,
    rstgen_Software_RESET_status1_REG_ADDR as RSTGEN_SOFTWARE_RESET_STATUS1,
};
use soc::starfive::jh7100::syscon::{
    Syscon, _SET_SYSCON_REG_SCFG_pll0_pwrdn, syscon_sysmain_ctrl_SCFG_pll0_REG_ADDR as SCFG_PLL0,
    syscon_sysmain_ctrl_register69_REG_ADDR as SYSCON_CORE1_EN,
};
use soc::starfive::jh7100::DriverError;
use soc::sunxi::board::ccu::{DriverError as CcuError, CCU};
use soc::sunxi::board::reg::{CCU_BASE_ADDR, CCU_UART_BGR};

#[test]
fn clock_on_switches_root_sources() {
    let mut bus = Mmio::new();
    bus.load32(CLK_CPUNDBUS_ROOT_CTRL as u64, 0x0300_0005);
    bus.load32(CLK_PERH0_ROOT_CTRL as u64, 0);
    let mut clk = Clock::new();
    assert_eq!(clk.ptr(), 0);
    assert_eq!(clk.init(), Ok(()));
    assert_eq!(clk.pread(&mut [0u8; 4], 0), Err(DriverError::NotImplemented));
    assert_eq!(clk.pwrite(&mut bus, false, b"off", 0), Ok(0));
    assert_eq!(bus.write_count(), 0);
    assert_eq!(clk.pwrite(&mut bus, false, b"on", 0), Ok(1));
    assert_eq!(bus.read32(CLK_CPUNDBUS_ROOT_CTRL as u64), 0x0100_0005);
    assert_eq!(bus.read32(CLK_DSP_ROOT_CTRL as u64), 0x0300_0000);
    assert_eq!(bus.read32(CLK_PERH0_ROOT_CTRL as u64), 0x0100_0000);
    // nothing under QEMU
    let mut q = Mmio::new();
    assert_eq!(clk.pwrite(&mut q, true, b"on", 0), Ok(1));
    assert_eq!(q.write_count(), 0);
}

#[test]
fn rstgen_on_releases_resets() {
    let mut bus = Mmio::new();
    bus.load32(RSTGEN_SOFTWARE_RESET_ASSERT1 as u64, 0xffff_ffff);
    bus.load32(RSTGEN_SOFTWARE_RESET_ASSERT3 as u64, 0xffff_ffff);
    let mut r = RSTgen::new();
    assert_eq!(r.pwrite(&mut bus, b"early", 0), Ok(0));
    assert_eq!(bus.write_count(), 0);
    assert_eq!(r.pwrite(&mut bus, b"on", 0), Ok(1));
    assert_eq!(bus.read32(RSTGEN_SOFTWARE_RESET_ASSERT1 as u64), !(0x40 | 0x4 | 0x200 | 0x4000 | 0x100));
    assert_eq!(bus.read32(RSTGEN_SOFTWARE_RESET_ASSERT3 as u64), !0x4000);
    assert_eq!(bus.write_count(), 10);
}

#[test]
fn iopadctl_early_and_on() {
    let mut bus = Mmio::new();
    let mut p = IOpadctl::new();
    assert_eq!(p.pwrite(&mut bus, b"early", 0), Ok(1));
    assert_eq!(bus.read32(SCFG_FUNCSHARE_PAD_CTRL_18 as u64), 0x00c0_00c0);
    bus.load32(SCFG_IO_PADSHARE_SEL as u64, 0xf0);
    assert_eq!(p.pwrite(&mut bus, b"on", 0), Ok(1));
    assert_eq!(bus.read32(SCFG_IO_PADSHARE_SEL as u64), 0xf6);
    assert_eq!(bus.write_count(), 8);
}

#[test]
fn syscon_finish_enables_core1() {
    let mut bus = Mmio::new();
    let mut s = Syscon::new();
    assert_eq!(s.pwrite(b"on", 0), Ok(1));
    assert_eq!(s.pwrite(b"no", 0), Ok(0));
    s.finish(&mut bus);
    assert_eq!(bus.read32(SYSCON_CORE1_EN as u64), 1);
}

#[test]
fn board_ccu_driver() {
    let mut c = CCU::default();
    assert_eq!(c.ptr(), CCU_BASE_ADDR as usize);
    assert_eq!(c.bgr_addr(), CCU_UART_BGR as usize);
    assert_eq!(c.init(), Ok(()));
    assert_eq!(c.pread(&mut [0u8; 3], 0), Ok(3));
    assert_eq!(c.pwrite(&[1, 2], 0), Ok(2));
    assert_eq!(c.ctl(), Err(CcuError::NotImplemented));
    assert_eq!(c.stat(&mut [0u8; 1]), Err(CcuError::NotImplemented));
    c.shutdown();
}

#[test]
fn jh7100_field_accessors() {
    let mut bus = Mmio::new();
    bus.load32(CLK_AUDIO_ROOT_CTRL as u64, 0x8000_0000);
    _DIVIDE_CLOCK_clk_audio_root_(&mut bus, 0x13);
    assert_eq!(_GET_CLOCK_DIVIDE_STATUS_clk_audio_root_(&bus), 0x3);
    assert_eq!(bus.read32(CLK_AUDIO_ROOT_CTRL as u64), 0x8000_0003);
    bus.load32(CLK_CPUNDBUS_ROOT_CTRL as u64, 0x0200_0000);
    assert_eq!(_GET_CLOCK_SOURCE_STATUS_clk_cpundbus_root_(&bus), 2);
    bus.load32(RSTGEN_SOFTWARE_RESET_STATUS1 as u64, 1 << 9);
    assert_eq!(_READ_RESET_STATUS_rstgen_rstn_x2c_axi_(&bus), 1);
    bus.load32(SCFG_PLL0 as u64, 0);
    _SET_SYSCON_REG_SCFG_pll0_pwrdn(&mut bus, 3);
    assert_eq!(bus.read32(SCFG_PLL0 as u64), 0x2);
}
