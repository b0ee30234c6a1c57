//! Clock generator: the clock control fields and the driver.
#![allow(non_snake_case)]
#![allow(non_upper_case_globals)]
use vstd::prelude::*;
use crate::mmio::{Mmio, RegState, reg_value};
use crate::starfive::jh7100::{field_step, set_field, cmd_is_on, is_on, DriverError};

verus! {

pub const CLKGEN_BASE_ADDR: u32 = 0x1180_0000;
pub const DENALI_CTL_00_DATA: u32 = 0x00000a00;
pub const clk_cpundbus_root_ctrl_REG_ADDR: u32 = CLKGEN_BASE_ADDR + 0x0;
pub const clk_dla_root_ctrl_REG_ADDR: u32 = CLKGEN_BASE_ADDR + 0x4;
pub const clk_dsp_root_ctrl_REG_ADDR: u32 = CLKGEN_BASE_ADDR + 0x8;
pub const clk_gmacusb_root_ctrl_REG_ADDR: u32 = CLKGEN_BASE_ADDR + 0xC;
pub const clk_perh0_root_ctrl_REG_ADDR: u32 = CLKGEN_BASE_ADDR + 0x10;
pub const clk_perh1_root_ctrl_REG_ADDR: u32 = CLKGEN_BASE_ADDR + 0x14;
pub const clk_vin_root_ctrl_REG_ADDR: u32 = CLKGEN_BASE_ADDR + 0x18;
pub const clk_vout_root_ctrl_REG_ADDR: u32 = CLKGEN_BASE_ADDR + 0x1C;
pub const clk_audio_root_ctrl_REG_ADDR: u32 = CLKGEN_BASE_ADDR + 0x20;
pub const clk_cdechifi4_root_ctrl_REG_ADDR: u32 = CLKGEN_BASE_ADDR + 0x24;
pub const clk_cdec_root_ctrl_REG_ADDR: u32 = CLKGEN_BASE_ADDR + 0x28;
pub const clk_voutbus_root_ctrl_REG_ADDR: u32 = CLKGEN_BASE_ADDR + 0x2C;
pub const clk_cpunbus_root_div_ctrl_REG_ADDR: u32 = CLKGEN_BASE_ADDR + 0x30;
pub const clk_dsp_root_div_ctrl_REG_ADDR: u32 = CLKGEN_BASE_ADDR + 0x34;
pub const clk_perh0_src_ctrl_REG_ADDR: u32 = CLKGEN_BASE_ADDR + 0x38;
pub const clk_perh1_src_ctrl_REG_ADDR: u32 = CLKGEN_BASE_ADDR + 0x3C;
pub const clk_pll0_testout_ctrl_REG_ADDR: u32 = CLKGEN_BASE_ADDR + 0x40;
pub const clk_pll1_testout_ctrl_REG_ADDR: u32 = CLKGEN_BASE_ADDR + 0x44;
pub const clk_pll2_testout_ctrl_REG_ADDR: u32 = CLKGEN_BASE_ADDR + 0x48;
pub const clk_pll2_refclk_ctrl_REG_ADDR: u32 = CLKGEN_BASE_ADDR + 0x4C;
pub const clk_cpu_core_ctrl_REG_ADDR: u32 = CLKGEN_BASE_ADDR + 0x50;
pub const clk_cpu_axi_ctrl_REG_ADDR: u32 = CLKGEN_BASE_ADDR + 0x54;
pub const clk_ahb_bus_ctrl_REG_ADDR: u32 = CLKGEN_BASE_ADDR + 0x58;
pub const clk_apb1_bus_ctrl_REG_ADDR: u32 = CLKGEN_BASE_ADDR + 0x5C;
pub const clk_apb2_bus_ctrl_REG_ADDR: u32 = CLKGEN_BASE_ADDR + 0x60;
pub const clk_dom3ahb_bus_ctrl_REG_ADDR: u32 = CLKGEN_BASE_ADDR + 0x64;
pub const clk_dom7ahb_bus_ctrl_REG_ADDR: u32 = CLKGEN_BASE_ADDR + 0x68;
pub const clk_u74_core0_ctrl_REG_ADDR: u32 = CLKGEN_BASE_ADDR + 0x6C;
pub const clk_u74_core1_ctrl_REG_ADDR: u32 = CLKGEN_BASE_ADDR + 0x70;
pub const clk_u74_axi_ctrl_REG_ADDR: u32 = CLKGEN_BASE_ADDR + 0x74;
pub const clk_u74rtc_toggle_ctrl_REG_ADDR: u32 = CLKGEN_BASE_ADDR + 0x78;
pub const clk_sgdma2p_axi_ctrl_REG_ADDR: u32 = CLKGEN_BASE_ADDR + 0x7C;
pub const clk_dma2pnoc_axi_ctrl_REG_ADDR: u32 = CLKGEN_BASE_ADDR + 0x80;
pub const clk_sgdma2p_ahb_ctrl_REG_ADDR: u32 = CLKGEN_BASE_ADDR + 0x84;
pub const clk_dla_bus_ctrl_REG_ADDR: u32 = CLKGEN_BASE_ADDR + 0x88;
pub const clk_dla_axi_ctrl_REG_ADDR: u32 = CLKGEN_BASE_ADDR + 0x8C;
pub const clk_dlanoc_axi_ctrl_REG_ADDR: u32 = CLKGEN_BASE_ADDR + 0x90;
pub const clk_dla_apb_ctrl_REG_ADDR: u32 = CLKGEN_BASE_ADDR + 0x94;
pub const clk_vp6_core_ctrl_REG_ADDR: u32 = CLKGEN_BASE_ADDR + 0x98;
pub const clk_vp6bus_src_ctrl_REG_ADDR: u32 = CLKGEN_BASE_ADDR + 0x9C;
pub const clk_vp6_axi_ctrl_REG_ADDR: u32 = CLKGEN_BASE_ADDR + 0xA0;
pub const clk_vcdecbus_src_ctrl_REG_ADDR: u32 = CLKGEN_BASE_ADDR + 0xA4;
pub const clk_vdec_bus_ctrl_REG_ADDR: u32 = CLKGEN_BASE_ADDR + 0xA8;
pub const clk_vdec_axi_ctrl_REG_ADDR: u32 = CLKGEN_BASE_ADDR + 0xAC;
pub const clk_vdecbrg_mainclk_ctrl_REG_ADDR: u32 = CLKGEN_BASE_ADDR + 0xB0;
pub const clk_vdec_bclk_ctrl_REG_ADDR: u32 = CLKGEN_BASE_ADDR + 0xB4;
pub const clk_vdec_cclk_ctrl_REG_ADDR: u32 = CLKGEN_BASE_ADDR + 0xB8;
pub const clk_vdec_apb_ctrl_REG_ADDR: u32 = CLKGEN_BASE_ADDR + 0xBC;
pub const clk_jpeg_axi_ctrl_REG_ADDR: u32 = CLKGEN_BASE_ADDR + 0xC0;
pub const clk_jpeg_cclk_ctrl_REG_ADDR: u32 = CLKGEN_BASE_ADDR + 0xC4;
pub const clk_jpeg_apb_ctrl_REG_ADDR: u32 = CLKGEN_BASE_ADDR + 0xC8;
pub const clk_gc300_2x_ctrl_REG_ADDR: u32 = CLKGEN_BASE_ADDR + 0xCC;
pub const clk_gc300_ahb_ctrl_REG_ADDR: u32 = CLKGEN_BASE_ADDR + 0xD0;
pub const clk_jpcgc300_axibus_ctrl_REG_ADDR: u32 = CLKGEN_BASE_ADDR + 0xD4;
pub const clk_gc300_axi_ctrl_REG_ADDR: u32 = CLKGEN_BASE_ADDR + 0xD8;
pub const clk_jpcgc300_mainclk_ctrl_REG_ADDR: u32 = CLKGEN_BASE_ADDR + 0xDC;
pub const clk_venc_bus_ctrl_REG_ADDR: u32 = CLKGEN_BASE_ADDR + 0xE0;
pub const clk_venc_axi_ctrl_REG_ADDR: u32 = CLKGEN_BASE_ADDR + 0xE4;
pub const clk_vencbrg_mainclk_ctrl_REG_ADDR: u32 = CLKGEN_BASE_ADDR + 0xE8;
pub const clk_venc_bclk_ctrl_REG_ADDR: u32 = CLKGEN_BASE_ADDR + 0xEC;
pub const clk_venc_cclk_ctrl_REG_ADDR: u32 = CLKGEN_BASE_ADDR + 0xF0;
pub const clk_venc_apb_ctrl_REG_ADDR: u32 = CLKGEN_BASE_ADDR + 0xF4;
pub const clk_ddrpll_div2_ctrl_REG_ADDR: u32 = CLKGEN_BASE_ADDR + 0xF8;
pub const clk_ddrpll_div4_ctrl_REG_ADDR: u32 = CLKGEN_BASE_ADDR + 0xFC;
pub const clk_ddrpll_div8_ctrl_REG_ADDR: u32 = CLKGEN_BASE_ADDR + 0x100;
pub const clk_ddrosc_div2_ctrl_REG_ADDR: u32 = CLKGEN_BASE_ADDR + 0x104;
pub const clk_ddrc0_ctrl_REG_ADDR: u32 = CLKGEN_BASE_ADDR + 0x108;
pub const clk_ddrc1_ctrl_REG_ADDR: u32 = CLKGEN_BASE_ADDR + 0x10C;
pub const clk_ddrphy_apb_ctrl_REG_ADDR: u32 = CLKGEN_BASE_ADDR + 0x110;
pub const clk_noc_rob_ctrl_REG_ADDR: u32 = CLKGEN_BASE_ADDR + 0x114;
pub const clk_noc_cog_ctrl_REG_ADDR: u32 = CLKGEN_BASE_ADDR + 0x118;
pub const clk_nne_ahb_ctrl_REG_ADDR: u32 = CLKGEN_BASE_ADDR + 0x11C;
pub const clk_nnebus_src1_ctrl_REG_ADDR: u32 = CLKGEN_BASE_ADDR + 0x120;
pub const clk_nne_bus_ctrl_REG_ADDR: u32 = CLKGEN_BASE_ADDR + 0x124;
pub const clk_nne_axi_ctrl_REG_ADDR: u32 = CLKGEN_BASE_ADDR + 0x128;
pub const clk_nnenoc_axi_ctrl_REG_ADDR: u32 = CLKGEN_BASE_ADDR + 0x12C;
pub const clk_dlaslv_axi_ctrl_REG_ADDR: u32 = CLKGEN_BASE_ADDR + 0x130;
pub const clk_dspx2c_axi_ctrl_REG_ADDR: u32 = CLKGEN_BASE_ADDR + 0x134;
pub const clk_hifi4_src_ctrl_REG_ADDR: u32 = CLKGEN_BASE_ADDR + 0x138;
pub const clk_hifi4_corefree_ctrl_REG_ADDR: u32 = CLKGEN_BASE_ADDR + 0x13C;
pub const clk_hifi4_core_ctrl_REG_ADDR: u32 = CLKGEN_BASE_ADDR + 0x140;
pub const clk_hifi4_bus_ctrl_REG_ADDR: u32 = CLKGEN_BASE_ADDR + 0x144;
pub const clk_hifi4_axi_ctrl_REG_ADDR: u32 = CLKGEN_BASE_ADDR + 0x148;
pub const clk_hifi4noc_axi_ctrl_REG_ADDR: u32 = CLKGEN_BASE_ADDR + 0x14C;
pub const clk_sgdma1p_bus_ctrl_REG_ADDR: u32 = CLKGEN_BASE_ADDR + 0x150;
pub const clk_sgdma1p_axi_ctrl_REG_ADDR: u32 = CLKGEN_BASE_ADDR + 0x154;
pub const clk_dma1p_axi_ctrl_REG_ADDR: u32 = CLKGEN_BASE_ADDR + 0x158;
pub const clk_x2c_axi_ctrl_REG_ADDR: u32 = CLKGEN_BASE_ADDR + 0x15C;
pub const clk_usb_bus_ctrl_REG_ADDR: u32 = CLKGEN_BASE_ADDR + 0x160;
pub const clk_usb_axi_ctrl_REG_ADDR: u32 = CLKGEN_BASE_ADDR + 0x164;
pub const clk_usbnoc_axi_ctrl_REG_ADDR: u32 = CLKGEN_BASE_ADDR + 0x168;
pub const clk_usbphy_rootdiv_ctrl_REG_ADDR: u32 = CLKGEN_BASE_ADDR + 0x16C;
pub const clk_usbphy_125m_ctrl_REG_ADDR: u32 = CLKGEN_BASE_ADDR + 0x170;
pub const clk_usbphy_plldiv25m_ctrl_REG_ADDR: u32 = CLKGEN_BASE_ADDR + 0x174;
pub const clk_usbphy_25m_ctrl_REG_ADDR: u32 = CLKGEN_BASE_ADDR + 0x178;
pub const clk_audio_div_ctrl_REG_ADDR: u32 = CLKGEN_BASE_ADDR + 0x17C;
pub const clk_audio_src_ctrl_REG_ADDR: u32 = CLKGEN_BASE_ADDR + 0x180;
pub const clk_audio_12288_ctrl_REG_ADDR: u32 = CLKGEN_BASE_ADDR + 0x184;
pub const clk_vin_src_ctrl_REG_ADDR: u32 = CLKGEN_BASE_ADDR + 0x188;
pub const clk_isp0_bus_ctrl_REG_ADDR: u32 = CLKGEN_BASE_ADDR + 0x18C;
pub const clk_isp0_axi_ctrl_REG_ADDR: u32 = CLKGEN_BASE_ADDR + 0x190;
pub const clk_isp0noc_axi_ctrl_REG_ADDR: u32 = CLKGEN_BASE_ADDR + 0x194;
pub const clk_ispslv_axi_ctrl_REG_ADDR: u32 = CLKGEN_BASE_ADDR + 0x198;
pub const clk_isp1_bus_ctrl_REG_ADDR: u32 = CLKGEN_BASE_ADDR + 0x19C;
pub const clk_isp1_axi_ctrl_REG_ADDR: u32 = CLKGEN_BASE_ADDR + 0x1A0;
pub const clk_isp1noc_axi_ctrl_REG_ADDR: u32 = CLKGEN_BASE_ADDR + 0x1A4;
pub const clk_vin_bus_ctrl_REG_ADDR: u32 = CLKGEN_BASE_ADDR + 0x1A8;
pub const clk_vin_axi_ctrl_REG_ADDR: u32 = CLKGEN_BASE_ADDR + 0x1AC;
pub const clk_vinnoc_axi_ctrl_REG_ADDR: u32 = CLKGEN_BASE_ADDR + 0x1B0;
pub const clk_vout_src_ctrl_REG_ADDR: u32 = CLKGEN_BASE_ADDR + 0x1B4;
pub const clk_dispbus_src_ctrl_REG_ADDR: u32 = CLKGEN_BASE_ADDR + 0x1B8;
pub const clk_disp_bus_ctrl_REG_ADDR: u32 = CLKGEN_BASE_ADDR + 0x1BC;
pub const clk_disp_axi_ctrl_REG_ADDR: u32 = CLKGEN_BASE_ADDR + 0x1C0;
pub const clk_dispnoc_axi_ctrl_REG_ADDR: u32 = CLKGEN_BASE_ADDR + 0x1C4;
pub const clk_sdio0_ahb_ctrl_REG_ADDR: u32 = CLKGEN_BASE_ADDR + 0x1C8;
pub const clk_sdio0_cclkint_ctrl_REG_ADDR: u32 = CLKGEN_BASE_ADDR + 0x1CC;
pub const clk_sdio0_cclkint_inv_ctrl_REG_ADDR: u32 = CLKGEN_BASE_ADDR + 0x1D0;
pub const clk_sdio1_ahb_ctrl_REG_ADDR: u32 = CLKGEN_BASE_ADDR + 0x1D4;
pub const clk_sdio1_cclkint_ctrl_REG_ADDR: u32 = CLKGEN_BASE_ADDR + 0x1D8;
pub const clk_sdio1_cclkint_inv_ctrl_REG_ADDR: u32 = CLKGEN_BASE_ADDR + 0x1DC;
pub const clk_gmac_ahb_ctrl_REG_ADDR: u32 = CLKGEN_BASE_ADDR + 0x1E0;
pub const clk_gmac_root_div_ctrl_REG_ADDR: u32 = CLKGEN_BASE_ADDR + 0x1E4;
pub const clk_gmac_ptp_refclk_ctrl_REG_ADDR: u32 = CLKGEN_BASE_ADDR + 0x1E8;
pub const clk_gmac_gtxclk_ctrl_REG_ADDR: u32 = CLKGEN_BASE_ADDR + 0x1EC;
pub const clk_gmac_rmii_txclk_ctrl_REG_ADDR: u32 = CLKGEN_BASE_ADDR + 0x1F0;
pub const clk_gmac_rmii_rxclk_ctrl_REG_ADDR: u32 = CLKGEN_BASE_ADDR + 0x1F4;
pub const clk_gmac_tx_ctrl_REG_ADDR: u32 = CLKGEN_BASE_ADDR + 0x1F8;
pub const clk_gmac_tx_inv_ctrl_REG_ADDR: u32 = CLKGEN_BASE_ADDR + 0x1FC;
pub const clk_gmac_rx_pre_ctrl_REG_ADDR: u32 = CLKGEN_BASE_ADDR + 0x200;
pub const clk_gmac_rx_inv_ctrl_REG_ADDR: u32 = CLKGEN_BASE_ADDR + 0x204;
pub const clk_gmac_rmii_ctrl_REG_ADDR: u32 = CLKGEN_BASE_ADDR + 0x208;
pub const clk_gmac_tophyref_ctrl_REG_ADDR: u32 = CLKGEN_BASE_ADDR + 0x20C;
pub const clk_spi2ahb_ahb_ctrl_REG_ADDR: u32 = CLKGEN_BASE_ADDR + 0x210;
pub const clk_spi2ahb_core_ctrl_REG_ADDR: u32 = CLKGEN_BASE_ADDR + 0x214;
pub const clk_ezmaster_ahb_ctrl_REG_ADDR: u32 = CLKGEN_BASE_ADDR + 0x218;
pub const clk_e24_ahb_ctrl_REG_ADDR: u32 = CLKGEN_BASE_ADDR + 0x21C;
pub const clk_e24rtc_toggle_ctrl_REG_ADDR: u32 = CLKGEN_BASE_ADDR + 0x220;
pub const clk_qspi_ahb_ctrl_REG_ADDR: u32 = CLKGEN_BASE_ADDR + 0x224;
pub const clk_qspi_apb_ctrl_REG_ADDR: u32 = CLKGEN_BASE_ADDR + 0x228;
pub const clk_qspi_refclk_ctrl_REG_ADDR: u32 = CLKGEN_BASE_ADDR + 0x22C;
pub const clk_sec_ahb_ctrl_REG_ADDR: u32 = CLKGEN_BASE_ADDR + 0x230;
pub const clk_aes_clk_ctrl_REG_ADDR: u32 = CLKGEN_BASE_ADDR + 0x234;
pub const clk_sha_clk_ctrl_REG_ADDR: u32 = CLKGEN_BASE_ADDR + 0x238;
pub const clk_pka_clk_ctrl_REG_ADDR: u32 = CLKGEN_BASE_ADDR + 0x23C;
pub const clk_trng_apb_ctrl_REG_ADDR: u32 = CLKGEN_BASE_ADDR + 0x240;
pub const clk_otp_apb_ctrl_REG_ADDR: u32 = CLKGEN_BASE_ADDR + 0x244;
pub const clk_uart0_apb_ctrl_REG_ADDR: u32 = CLKGEN_BASE_ADDR + 0x248;
pub const clk_uart0_core_ctrl_REG_ADDR: u32 = CLKGEN_BASE_ADDR + 0x24C;
pub const clk_uart1_apb_ctrl_REG_ADDR: u32 = CLKGEN_BASE_ADDR + 0x250;
pub const clk_uart1_core_ctrl_REG_ADDR: u32 = CLKGEN_BASE_ADDR + 0x254;
pub const clk_spi0_apb_ctrl_REG_ADDR: u32 = CLKGEN_BASE_ADDR + 0x258;
pub const clk_spi0_core_ctrl_REG_ADDR: u32 = CLKGEN_BASE_ADDR + 0x25C;
pub const clk_spi1_apb_ctrl_REG_ADDR: u32 = CLKGEN_BASE_ADDR + 0x260;
pub const clk_spi1_core_ctrl_REG_ADDR: u32 = CLKGEN_BASE_ADDR + 0x264;
pub const clk_i2c0_apb_ctrl_REG_ADDR: u32 = CLKGEN_BASE_ADDR + 0x268;
pub const clk_i2c0_core_ctrl_REG_ADDR: u32 = CLKGEN_BASE_ADDR + 0x26C;
pub const clk_i2c1_apb_ctrl_REG_ADDR: u32 = CLKGEN_BASE_ADDR + 0x270;
pub const clk_i2c1_core_ctrl_REG_ADDR: u32 = CLKGEN_BASE_ADDR + 0x274;
pub const clk_gpio_apb_ctrl_REG_ADDR: u32 = CLKGEN_BASE_ADDR + 0x278;
pub const clk_uart2_apb_ctrl_REG_ADDR: u32 = CLKGEN_BASE_ADDR + 0x27C;
pub const clk_uart2_core_ctrl_REG_ADDR: u32 = CLKGEN_BASE_ADDR + 0x280;
pub const clk_uart3_apb_ctrl_REG_ADDR: u32 = CLKGEN_BASE_ADDR + 0x284;
pub const clk_uart3_core_ctrl_REG_ADDR: u32 = CLKGEN_BASE_ADDR + 0x288;
pub const clk_spi2_apb_ctrl_REG_ADDR: u32 = CLKGEN_BASE_ADDR + 0x28C;
pub const clk_spi2_core_ctrl_REG_ADDR: u32 = CLKGEN_BASE_ADDR + 0x290;
pub const clk_spi3_apb_ctrl_REG_ADDR: u32 = CLKGEN_BASE_ADDR + 0x294;
pub const clk_spi3_core_ctrl_REG_ADDR: u32 = CLKGEN_BASE_ADDR + 0x298;
pub const clk_i2c2_apb_ctrl_REG_ADDR: u32 = CLKGEN_BASE_ADDR + 0x29C;
pub const clk_i2c2_core_ctrl_REG_ADDR: u32 = CLKGEN_BASE_ADDR + 0x2A0;
pub const clk_i2c3_apb_ctrl_REG_ADDR: u32 = CLKGEN_BASE_ADDR + 0x2A4;
pub const clk_i2c3_core_ctrl_REG_ADDR: u32 = CLKGEN_BASE_ADDR + 0x2A8;
pub const clk_wdtimer_apb_ctrl_REG_ADDR: u32 = CLKGEN_BASE_ADDR + 0x2AC;
pub const clk_wdt_coreclk_ctrl_REG_ADDR: u32 = CLKGEN_BASE_ADDR + 0x2B0;
pub const clk_timer0_coreclk_ctrl_REG_ADDR: u32 = CLKGEN_BASE_ADDR + 0x2B4;
pub const clk_timer1_coreclk_ctrl_REG_ADDR: u32 = CLKGEN_BASE_ADDR + 0x2B8;
pub const clk_timer2_coreclk_ctrl_REG_ADDR: u32 = CLKGEN_BASE_ADDR + 0x2BC;
pub const clk_timer3_coreclk_ctrl_REG_ADDR: u32 = CLKGEN_BASE_ADDR + 0x2C0;
pub const clk_timer4_coreclk_ctrl_REG_ADDR: u32 = CLKGEN_BASE_ADDR + 0x2C4;
pub const clk_timer5_coreclk_ctrl_REG_ADDR: u32 = CLKGEN_BASE_ADDR + 0x2C8;
pub const clk_timer6_coreclk_ctrl_REG_ADDR: u32 = CLKGEN_BASE_ADDR + 0x2CC;
pub const clk_vp6intc_apb_ctrl_REG_ADDR: u32 = CLKGEN_BASE_ADDR + 0x2D0;
pub const clk_pwm_apb_ctrl_REG_ADDR: u32 = CLKGEN_BASE_ADDR + 0x2D4;
pub const clk_msi_apb_ctrl_REG_ADDR: u32 = CLKGEN_BASE_ADDR + 0x2D8;
pub const clk_temp_apb_ctrl_REG_ADDR: u32 = CLKGEN_BASE_ADDR + 0x2DC;
pub const clk_temp_sense_ctrl_REG_ADDR: u32 = CLKGEN_BASE_ADDR + 0x2E0;
pub const clk_syserr_apb_ctrl_REG_ADDR: u32 = CLKGEN_BASE_ADDR + 0x2E4;

/// Root clock sources: CPU/NBUS from PLL0, DLA from PLL1, DSP from PLL2,
/// peripheral 0 from PLL0.
pub open spec fn coreclk_state(s: RegState) -> RegState {
    let s1 = field_step(s, clk_cpundbus_root_ctrl_REG_ADDR, 0x3000000, 0x1000000);
    let s2 = field_step(s1, clk_dla_root_ctrl_REG_ADDR, 0x3000000, 0x1000000);
    let s3 = field_step(s2, clk_dsp_root_ctrl_REG_ADDR, 0x3000000, 0x3000000);
    field_step(s3, clk_perh0_root_ctrl_REG_ADDR, 0x1000000, 0x1000000)
}

/// Bit `i` of `v`.
pub open spec fn bit_of(v: u32, i: u32) -> u32 {
    (v >> i) & 1
}

proof fn lemma_root_source_field(v: u32)
    ensures
        (((v & !0x3000000u32) | (0x1000000u32 & 0x3000000u32)) >> 24u32) & 3 == 1,
        (((v & !0x3000000u32) | (0x3000000u32 & 0x3000000u32)) >> 24u32) & 3 == 3,
        (((v & !0x1000000u32) | (0x1000000u32 & 0x1000000u32)) >> 24u32) & 1 == 1,
        forall|i: u32|
            i < 32 && i != 24 && i != 25 ==> (#[trigger] (((v & !0x3000000u32) | (0x1000000u32 & 0x3000000u32)) >> i)) & 1
                == (v >> i) & 1,
        forall|i: u32|
            i < 32 && i != 24 && i != 25 ==> (#[trigger] (((v & !0x3000000u32) | (0x3000000u32 & 0x3000000u32)) >> i)) & 1
                == (v >> i) & 1,
        forall|i: u32|
            i < 32 && i != 24 ==> (#[trigger] (((v & !0x1000000u32) | (0x1000000u32 & 0x1000000u32)) >> i)) & 1
                == (v >> i) & 1,
{
    assert((((v & !0x3000000u32) | (0x1000000u32 & 0x3000000u32)) >> 24u32) & 3 == 1
        && (((v & !0x3000000u32) | (0x3000000u32 & 0x3000000u32)) >> 24u32) & 3 == 3
        && (((v & !0x1000000u32) | (0x1000000u32 & 0x1000000u32)) >> 24u32) & 1 == 1
        && (forall|i: u32|
            i < 32 && i != 24 && i != 25 ==> (#[trigger] (((v & !0x3000000u32) | (0x1000000u32 & 0x3000000u32)) >> i)) & 1
                == (v >> i) & 1)
        && (forall|i: u32|
            i < 32 && i != 24 && i != 25 ==> (#[trigger] (((v & !0x3000000u32) | (0x3000000u32 & 0x3000000u32)) >> i)) & 1
                == (v >> i) & 1)
        && (forall|i: u32|
            i < 32 && i != 24 ==> (#[trigger] (((v & !0x1000000u32) | (0x1000000u32 & 0x1000000u32)) >> i)) & 1
                == (v >> i) & 1)) by (bit_vector);
}

/// Bringing the clocks up switches the root clock sources, in bits 25:24
/// of each root control register: the CPU/bus root to PLL0 (source 1), the
/// DLA root to PLL1 (source 1), the DSP root to PLL2 (source 3), and the
/// peripheral-0 root to PLL0 (bit 24 set); every other bit of those four
/// registers, and every other register, keeps its value.
pub proof fn lemma_coreclk_sources(s: RegState)
    ensures
        ({
            let t = coreclk_state(s);
            let cpu = clk_cpundbus_root_ctrl_REG_ADDR as u64;
            let dla = clk_dla_root_ctrl_REG_ADDR as u64;
            let dsp = clk_dsp_root_ctrl_REG_ADDR as u64;
            let perh0 = clk_perh0_root_ctrl_REG_ADDR as u64;
            &&& (reg_value(t.0, cpu) >> 24u32) & 3 == 1
            &&& (reg_value(t.0, dla) >> 24u32) & 3 == 1
            &&& (reg_value(t.0, dsp) >> 24u32) & 3 == 3
            &&& (reg_value(t.0, perh0) >> 24u32) & 1 == 1
            &&& forall|i: u32| i < 32 && i != 24 && i != 25 ==> #[trigger] bit_of(reg_value(t.0, cpu), i) == bit_of(reg_value(s.0, cpu), i)
            &&& forall|i: u32| i < 32 && i != 24 && i != 25 ==> #[trigger] bit_of(reg_value(t.0, dla), i) == bit_of(reg_value(s.0, dla), i)
            &&& forall|i: u32| i < 32 && i != 24 && i != 25 ==> #[trigger] bit_of(reg_value(t.0, dsp), i) == bit_of(reg_value(s.0, dsp), i)
            &&& forall|i: u32| i < 32 && i != 24 ==> #[trigger] bit_of(reg_value(t.0, perh0), i) == bit_of(reg_value(s.0, perh0), i)
            &&& forall|a: u64| a != cpu && a != dla && a != dsp && a != perh0 ==> #[trigger] reg_value(t.0, a) == reg_value(s.0, a)
        }),
{
    let cpu = clk_cpundbus_root_ctrl_REG_ADDR as u64;
    let dla = clk_dla_root_ctrl_REG_ADDR as u64;
    let dsp = clk_dsp_root_ctrl_REG_ADDR as u64;
    let perh0 = clk_perh0_root_ctrl_REG_ADDR as u64;
    let t = coreclk_state(s);
    let v0 = reg_value(s.0, cpu);
    let v1 = reg_value(s.0, dla);
    let v2 = reg_value(s.0, dsp);
    let v3 = reg_value(s.0, perh0);
    assert(reg_value(t.0, cpu) == (v0 & !0x3000000u32) | (0x1000000u32 & 0x3000000u32));
    assert(reg_value(t.0, dla) == (v1 & !0x3000000u32) | (0x1000000u32 & 0x3000000u32));
    assert(reg_value(t.0, dsp) == (v2 & !0x3000000u32) | (0x3000000u32 & 0x3000000u32));
    assert(reg_value(t.0, perh0) == (v3 & !0x1000000u32) | (0x1000000u32 & 0x1000000u32));
    lemma_root_source_field(v0);
    lemma_root_source_field(v1);
    lemma_root_source_field(v2);
    lemma_root_source_field(v3);
}

/// The clock generator.
pub struct Clock {
    base: usize,
}

impl Clock {
    pub closed spec fn spec_base(&self) -> usize {
        self.base
    }

    pub fn new() -> (c: Clock)
        ensures
            c.spec_base() == 0,
    {
        Clock { base: 0 }
    }

    /// Returns a pointer to the register block
    pub fn ptr(&self) -> (r: usize)
        ensures
            r == self.spec_base(),
    {
        self.base
    }

    /// Nothing to do.
    pub fn init(&mut self) -> (r: Result<(), DriverError>)
        ensures
            r is Ok,
    {
        Ok(())
    }

    pub fn pread(&self, _data: &mut [u8], _offset: usize) -> (r: Result<usize, DriverError>)
        ensures
            r == Err::<usize, DriverError>(DriverError::NotImplemented),
    {
        Err(DriverError::NotImplemented)
    }

    /// `on` initialises the clocks (where not running under QEMU) and
    /// answers 1; anything else does nothing and answers 0.
    pub fn pwrite(&mut self, bus: &mut Mmio, is_qemu: bool, data: &[u8], _offset: usize) -> (r: Result<usize, DriverError>)
        ensures
            is_on(data@) ==> r == Ok::<usize, DriverError>(1) && final(bus).state() == if is_qemu {
                old(bus).state()
            } else {
                coreclk_state(old(bus).state())
            },
            !is_on(data@) ==> r == Ok::<usize, DriverError>(0) && final(bus).state() == old(bus).state(),
    {
        if cmd_is_on(data) {
            self.clock_init(bus, is_qemu);
            Ok(1)
        } else {
            Ok(0)
        }
    }

    fn init_coreclk(&self, bus: &mut Mmio)
        ensures
            final(bus).state() == coreclk_state(old(bus).state()),
    {
        _SWITCH_CLOCK_clk_cpundbus_root_SOURCE_clk_pll0_out_(bus);
        _SWITCH_CLOCK_clk_dla_root_SOURCE_clk_pll1_out_(bus);
        _SWITCH_CLOCK_clk_dsp_root_SOURCE_clk_pll2_out_(bus);
        _SWITCH_CLOCK_clk_perh0_root_SOURCE_clk_pll0_out_(bus);
    }

    fn init_pll_ge(&self) {
    }

    /// Clock initialization should only be done in romstage.
    fn clock_init(&mut self, bus: &mut Mmio, is_qemu: bool)
        ensures
            final(bus).state() == if is_qemu {
                old(bus).state()
            } else {
                coreclk_state(old(bus).state())
            },
    {
        if is_qemu {
            return;
        }
        self.init_coreclk(bus);
        self.init_pll_ge();
    }
}

pub fn _ENABLE_CLOCK_clk_cpundbus_root_() {
}

pub fn _SWITCH_CLOCK_clk_cpundbus_root_SOURCE_clk_osc_sys_(bus: &mut Mmio)
    ensures
        final(bus).state() == field_step(old(bus).state(), clk_cpundbus_root_ctrl_REG_ADDR, 0x3000000, 0x0),
{
    set_field(bus, clk_cpundbus_root_ctrl_REG_ADDR, 0x3000000, 0x0);
}

pub fn _SWITCH_CLOCK_clk_cpundbus_root_SOURCE_clk_pll0_out_(bus: &mut Mmio)
    ensures
        final(bus).state() == field_step(old(bus).state(), clk_cpundbus_root_ctrl_REG_ADDR, 0x3000000, 0x1000000),
{
    set_field(bus, clk_cpundbus_root_ctrl_REG_ADDR, 0x3000000, 0x1000000);
}

pub fn _SWITCH_CLOCK_clk_cpundbus_root_SOURCE_clk_pll1_out_(bus: &mut Mmio)
    ensures
        final(bus).state() == field_step(old(bus).state(), clk_cpundbus_root_ctrl_REG_ADDR, 0x3000000, 0x2000000),
{
    set_field(bus, clk_cpundbus_root_ctrl_REG_ADDR, 0x3000000, 0x2000000);
}

pub fn _SWITCH_CLOCK_clk_cpundbus_root_SOURCE_clk_pll2_out_(bus: &mut Mmio)
    ensures
        final(bus).state() == field_step(old(bus).state(), clk_cpundbus_root_ctrl_REG_ADDR, 0x3000000, 0x3000000),
{
    set_field(bus, clk_cpundbus_root_ctrl_REG_ADDR, 0x3000000, 0x3000000);
}

pub fn _GET_CLOCK_SOURCE_STATUS_clk_cpundbus_root_(bus: &Mmio) -> (r: u32)
    ensures
        r == (bus.value(clk_cpundbus_root_ctrl_REG_ADDR as u64) >> 24u32) & 0x3,
{
    (bus.read32(clk_cpundbus_root_ctrl_REG_ADDR as u64) >> 24u32) & 0x3
}

pub fn _ENABLE_CLOCK_clk_dla_root_() {
}

pub fn _SWITCH_CLOCK_clk_dla_root_SOURCE_clk_osc_sys_(bus: &mut Mmio)
    ensures
        final(bus).state() == field_step(old(bus).state(), clk_dla_root_ctrl_REG_ADDR, 0x3000000, 0x0),
{
    set_field(bus, clk_dla_root_ctrl_REG_ADDR, 0x3000000, 0x0);
}

pub fn _SWITCH_CLOCK_clk_dla_root_SOURCE_clk_pll1_out_(bus: &mut Mmio)
    ensures
        final(bus).state() == field_step(old(bus).state(), clk_dla_root_ctrl_REG_ADDR, 0x3000000, 0x1000000),
{
    set_field(bus, clk_dla_root_ctrl_REG_ADDR, 0x3000000, 0x1000000);
}

pub fn _SWITCH_CLOCK_clk_dla_root_SOURCE_clk_pll2_out_(bus: &mut Mmio)
    ensures
        final(bus).state() == field_step(old(bus).state(), clk_dla_root_ctrl_REG_ADDR, 0x3000000, 0x2000000),
{
    set_field(bus, clk_dla_root_ctrl_REG_ADDR, 0x3000000, 0x2000000);
}

pub fn _GET_CLOCK_SOURCE_STATUS_clk_dla_root_(bus: &Mmio) -> (r: u32)
    ensures
        r == (bus.value(clk_dla_root_ctrl_REG_ADDR as u64) >> 24u32) & 0x3,
{
    (bus.read32(clk_dla_root_ctrl_REG_ADDR as u64) >> 24u32) & 0x3
}

pub fn _ENABLE_CLOCK_clk_dsp_root_() {
}

pub fn _SWITCH_CLOCK_clk_dsp_root_SOURCE_clk_osc_sys_(bus: &mut Mmio)
    ensures
        final(bus).state() == field_step(old(bus).state(), clk_dsp_root_ctrl_REG_ADDR, 0x3000000, 0x0),
{
    set_field(bus, clk_dsp_root_ctrl_REG_ADDR, 0x3000000, 0x0);
}

pub fn _SWITCH_CLOCK_clk_dsp_root_SOURCE_clk_pll0_out_(bus: &mut Mmio)
    ensures
        final(bus).state() == field_step(old(bus).state(), clk_dsp_root_ctrl_REG_ADDR, 0x3000000, 0x1000000),
{
    set_field(bus, clk_dsp_root_ctrl_REG_ADDR, 0x3000000, 0x1000000);
}

pub fn _SWITCH_CLOCK_clk_dsp_root_SOURCE_clk_pll1_out_(bus: &mut Mmio)
    ensures
        final(bus).state() == field_step(old(bus).state(), clk_dsp_root_ctrl_REG_ADDR, 0x3000000, 0x2000000),
{
    set_field(bus, clk_dsp_root_ctrl_REG_ADDR, 0x3000000, 0x2000000);
}

pub fn _SWITCH_CLOCK_clk_dsp_root_SOURCE_clk_pll2_out_(bus: &mut Mmio)
    ensures
        final(bus).state() == field_step(old(bus).state(), clk_dsp_root_ctrl_REG_ADDR, 0x3000000, 0x3000000),
{
    set_field(bus, clk_dsp_root_ctrl_REG_ADDR, 0x3000000, 0x3000000);
}

pub fn _GET_CLOCK_SOURCE_STATUS_clk_dsp_root_(bus: &Mmio) -> (r: u32)
    ensures
        r == (bus.value(clk_dsp_root_ctrl_REG_ADDR as u64) >> 24u32) & 0x3,
{
    (bus.read32(clk_dsp_root_ctrl_REG_ADDR as u64) >> 24u32) & 0x3
}

pub fn _ENABLE_CLOCK_clk_gmacusb_root_() {
}

pub fn _SWITCH_CLOCK_clk_gmacusb_root_SOURCE_clk_osc_sys_(bus: &mut Mmio)
    ensures
        final(bus).state() == field_step(old(bus).state(), clk_gmacusb_root_ctrl_REG_ADDR, 0x3000000, 0x0),
{
    set_field(bus, clk_gmacusb_root_ctrl_REG_ADDR, 0x3000000, 0x0);
}

pub fn _SWITCH_CLOCK_clk_gmacusb_root_SOURCE_clk_pll0_out_(bus: &mut Mmio)
    ensures
        final(bus).state() == field_step(old(bus).state(), clk_gmacusb_root_ctrl_REG_ADDR, 0x3000000, 0x1000000),
{
    set_field(bus, clk_gmacusb_root_ctrl_REG_ADDR, 0x3000000, 0x1000000);
}

pub fn _SWITCH_CLOCK_clk_gmacusb_root_SOURCE_clk_pll2_out_(bus: &mut Mmio)
    ensures
        final(bus).state() == field_step(old(bus).state(), clk_gmacusb_root_ctrl_REG_ADDR, 0x3000000, 0x2000000),
{
    set_field(bus, clk_gmacusb_root_ctrl_REG_ADDR, 0x3000000, 0x2000000);
}

pub fn _GET_CLOCK_SOURCE_STATUS_clk_gmacusb_root_(bus: &Mmio) -> (r: u32)
    ensures
        r == (bus.value(clk_gmacusb_root_ctrl_REG_ADDR as u64) >> 24u32) & 0x3,
{
    (bus.read32(clk_gmacusb_root_ctrl_REG_ADDR as u64) >> 24u32) & 0x3
}

pub fn _ENABLE_CLOCK_clk_perh0_root_() {
}

pub fn _SWITCH_CLOCK_clk_perh0_root_SOURCE_clk_osc_sys_(bus: &mut Mmio)
    ensures
        final(bus).state() == field_step(old(bus).state(), clk_perh0_root_ctrl_REG_ADDR, 0x1000000, 0x0),
{
    set_field(bus, clk_perh0_root_ctrl_REG_ADDR, 0x1000000, 0x0);
}

pub fn _SWITCH_CLOCK_clk_perh0_root_SOURCE_clk_pll0_out_(bus: &mut Mmio)
    ensures
        final(bus).state() == field_step(old(bus).state(), clk_perh0_root_ctrl_REG_ADDR, 0x1000000, 0x1000000),
{
    set_field(bus, clk_perh0_root_ctrl_REG_ADDR, 0x1000000, 0x1000000);
}

pub fn _GET_CLOCK_SOURCE_STATUS_clk_perh0_root_(bus: &Mmio) -> (r: u32)
    ensures
        r == (bus.value(clk_perh0_root_ctrl_REG_ADDR as u64) >> 24u32) & 0x1,
{
    (bus.read32(clk_perh0_root_ctrl_REG_ADDR as u64) >> 24u32) & 0x1
}

pub fn _ENABLE_CLOCK_clk_perh1_root_() {
}

pub fn _SWITCH_CLOCK_clk_perh1_root_SOURCE_clk_osc_sys_(bus: &mut Mmio)
    ensures
        final(bus).state() == field_step(old(bus).state(), clk_perh1_root_ctrl_REG_ADDR, 0x1000000, 0x0),
{
    set_field(bus, clk_perh1_root_ctrl_REG_ADDR, 0x1000000, 0x0);
}

pub fn _SWITCH_CLOCK_clk_perh1_root_SOURCE_clk_pll2_out_(bus: &mut Mmio)
    ensures
        final(bus).state() == field_step(old(bus).state(), clk_perh1_root_ctrl_REG_ADDR, 0x1000000, 0x1000000),
{
    set_field(bus, clk_perh1_root_ctrl_REG_ADDR, 0x1000000, 0x1000000);
}

pub fn _GET_CLOCK_SOURCE_STATUS_clk_perh1_root_(bus: &Mmio) -> (r: u32)
    ensures
        r == (bus.value(clk_perh1_root_ctrl_REG_ADDR as u64) >> 24u32) & 0x1,
{
    (bus.read32(clk_perh1_root_ctrl_REG_ADDR as u64) >> 24u32) & 0x1
}

pub fn _ENABLE_CLOCK_clk_vin_root_() {
}

pub fn _SWITCH_CLOCK_clk_vin_root_SOURCE_clk_osc_sys_(bus: &mut Mmio)
    ensures
        final(bus).state() == field_step(old(bus).state(), clk_vin_root_ctrl_REG_ADDR, 0x3000000, 0x0),
{
    set_field(bus, clk_vin_root_ctrl_REG_ADDR, 0x3000000, 0x0);
}

pub fn _SWITCH_CLOCK_clk_vin_root_SOURCE_clk_pll1_out_(bus: &mut Mmio)
    ensures
        final(bus).state() == field_step(old(bus).state(), clk_vin_root_ctrl_REG_ADDR, 0x3000000, 0x1000000),
{
    set_field(bus, clk_vin_root_ctrl_REG_ADDR, 0x3000000, 0x1000000);
}

pub fn _SWITCH_CLOCK_clk_vin_root_SOURCE_clk_pll2_out_(bus: &mut Mmio)
    ensures
        final(bus).state() == field_step(old(bus).state(), clk_vin_root_ctrl_REG_ADDR, 0x3000000, 0x2000000),
{
    set_field(bus, clk_vin_root_ctrl_REG_ADDR, 0x3000000, 0x2000000);
}

pub fn _GET_CLOCK_SOURCE_STATUS_clk_vin_root_(bus: &Mmio) -> (r: u32)
    ensures
        r == (bus.value(clk_vin_root_ctrl_REG_ADDR as u64) >> 24u32) & 0x3,
{
    (bus.read32(clk_vin_root_ctrl_REG_ADDR as u64) >> 24u32) & 0x3
}

pub fn _ENABLE_CLOCK_clk_vout_root_() {
}

pub fn _SWITCH_CLOCK_clk_vout_root_SOURCE_clk_osc_aud_(bus: &mut Mmio)
    ensures
        final(bus).state() == field_step(old(bus).state(), clk_vout_root_ctrl_REG_ADDR, 0x3000000, 0x0),
{
    set_field(bus, clk_vout_root_ctrl_REG_ADDR, 0x3000000, 0x0);
}

pub fn _SWITCH_CLOCK_clk_vout_root_SOURCE_clk_pll0_out_(bus: &mut Mmio)
    ensures
        final(bus).state() == field_step(old(bus).state(), clk_vout_root_ctrl_REG_ADDR, 0x3000000, 0x1000000),
{
    set_field(bus, clk_vout_root_ctrl_REG_ADDR, 0x3000000, 0x1000000);
}

pub fn _SWITCH_CLOCK_clk_vout_root_SOURCE_clk_pll2_out_(bus: &mut Mmio)
    ensures
        final(bus).state() == field_step(old(bus).state(), clk_vout_root_ctrl_REG_ADDR, 0x3000000, 0x2000000),
{
    set_field(bus, clk_vout_root_ctrl_REG_ADDR, 0x3000000, 0x2000000);
}

pub fn _GET_CLOCK_SOURCE_STATUS_clk_vout_root_(bus: &Mmio) -> (r: u32)
    ensures
        r == (bus.value(clk_vout_root_ctrl_REG_ADDR as u64) >> 24u32) & 0x3,
{
    (bus.read32(clk_vout_root_ctrl_REG_ADDR as u64) >> 24u32) & 0x3
}

pub fn _ENABLE_CLOCK_clk_audio_root_(bus: &mut Mmio)
    ensures
        final(bus).state() == field_step(old(bus).state(), clk_audio_root_ctrl_REG_ADDR, 0x80000000, 0x80000000),
{
    set_field(bus, clk_audio_root_ctrl_REG_ADDR, 0x80000000, 0x80000000);
}

pub fn _DISABLE_CLOCK_clk_audio_root_(bus: &mut Mmio)
    ensures
        final(bus).state() == field_step(old(bus).state(), clk_audio_root_ctrl_REG_ADDR, 0x80000000, 0x0),
{
    set_field(bus, clk_audio_root_ctrl_REG_ADDR, 0x80000000, 0x0);
}

pub fn _GET_CLOCK_ENABLE_STATUS_clk_audio_root_(bus: &Mmio) -> (r: u32)
    ensures
        r == (bus.value(clk_audio_root_ctrl_REG_ADDR as u64) >> 31u32) & 0x1,
{
    (bus.read32(clk_audio_root_ctrl_REG_ADDR as u64) >> 31u32) & 0x1
}

pub fn _DIVIDE_CLOCK_clk_audio_root_(bus: &mut Mmio, div: u32)
    ensures
        final(bus).state() == field_step(old(bus).state(), clk_audio_root_ctrl_REG_ADDR, 0xf, div & 0xf),
{
    set_field(bus, clk_audio_root_ctrl_REG_ADDR, 0xf, div & 0xf);
}

pub fn _GET_CLOCK_DIVIDE_STATUS_clk_audio_root_(bus: &Mmio) -> (r: u32)
    ensures
        r == bus.value(clk_audio_root_ctrl_REG_ADDR as u64) & 0xf,
{
    bus.read32(clk_audio_root_ctrl_REG_ADDR as u64) & 0xf
}

pub fn _ENABLE_CLOCK_clk_cdechifi4_root_() {
}

pub fn _SWITCH_CLOCK_clk_cdechifi4_root_SOURCE_clk_osc_sys_(bus: &mut Mmio)
    ensures
        final(bus).state() == field_step(old(bus).state(), clk_cdechifi4_root_ctrl_REG_ADDR, 0x3000000, 0x0),
{
    set_field(bus, clk_cdechifi4_root_ctrl_REG_ADDR, 0x3000000, 0x0);
}

pub fn _SWITCH_CLOCK_clk_cdechifi4_root_SOURCE_clk_pll1_out_(bus: &mut Mmio)
    ensures
        final(bus).state() == field_step(old(bus).state(), clk_cdechifi4_root_ctrl_REG_ADDR, 0x3000000, 0x1000000),
{
    set_field(bus, clk_cdechifi4_root_ctrl_REG_ADDR, 0x3000000, 0x1000000);
}

pub fn _SWITCH_CLOCK_clk_cdechifi4_root_SOURCE_clk_pll2_out_(bus: &mut Mmio)
    ensures
        final(bus).state() == field_step(old(bus).state(), clk_cdechifi4_root_ctrl_REG_ADDR, 0x3000000, 0x2000000),
{
    set_field(bus, clk_cdechifi4_root_ctrl_REG_ADDR, 0x3000000, 0x2000000);
}

pub fn _GET_CLOCK_SOURCE_STATUS_clk_cdechifi4_root_(bus: &Mmio) -> (r: u32)
    ensures
        r == (bus.value(clk_cdechifi4_root_ctrl_REG_ADDR as u64) >> 24u32) & 0x3,
{
    (bus.read32(clk_cdechifi4_root_ctrl_REG_ADDR as u64) >> 24u32) & 0x3
}

pub fn _ENABLE_CLOCK_clk_cdec_root_() {
}

pub fn _SWITCH_CLOCK_clk_cdec_root_SOURCE_clk_osc_sys_(bus: &mut Mmio)
    ensures
        final(bus).state() == field_step(old(bus).state(), clk_cdec_root_ctrl_REG_ADDR, 0x3000000, 0x0),
{
    set_field(bus, clk_cdec_root_ctrl_REG_ADDR, 0x3000000, 0x0);
}

pub fn _SWITCH_CLOCK_clk_cdec_root_SOURCE_clk_pll0_out_(bus: &mut Mmio)
    ensures
        final(bus).state() == field_step(old(bus).state(), clk_cdec_root_ctrl_REG_ADDR, 0x3000000, 0x1000000),
{
    set_field(bus, clk_cdec_root_ctrl_REG_ADDR, 0x3000000, 0x1000000);
}

pub fn _SWITCH_CLOCK_clk_cdec_root_SOURCE_clk_pll1_out_(bus: &mut Mmio)
    ensures
        final(bus).state() == field_step(old(bus).state(), clk_cdec_root_ctrl_REG_ADDR, 0x3000000, 0x2000000),
{
    set_field(bus, clk_cdec_root_ctrl_REG_ADDR, 0x3000000, 0x2000000);
}

pub fn _GET_CLOCK_SOURCE_STATUS_clk_cdec_root_(bus: &Mmio) -> (r: u32)
    ensures
        r == (bus.value(clk_cdec_root_ctrl_REG_ADDR as u64) >> 24u32) & 0x3,
{
    (bus.read32(clk_cdec_root_ctrl_REG_ADDR as u64) >> 24u32) & 0x3
}

pub fn _ENABLE_CLOCK_clk_voutbus_root_() {
}

pub fn _SWITCH_CLOCK_clk_voutbus_root_SOURCE_clk_osc_aud_(bus: &mut Mmio)
    ensures
        final(bus).state() == field_step(old(bus).state(), clk_voutbus_root_ctrl_REG_ADDR, 0x3000000, 0x0),
{
    set_field(bus, clk_voutbus_root_ctrl_REG_ADDR, 0x3000000, 0x0);
}

pub fn _SWITCH_CLOCK_clk_voutbus_root_SOURCE_clk_pll0_out_(bus: &mut Mmio)
    ensures
        final(bus).state() == field_step(old(bus).state(), clk_voutbus_root_ctrl_REG_ADDR, 0x3000000, 0x1000000),
{
    set_field(bus, clk_voutbus_root_ctrl_REG_ADDR, 0x3000000, 0x1000000);
}

pub fn _SWITCH_CLOCK_clk_voutbus_root_SOURCE_clk_pll2_out_(bus: &mut Mmio)
    ensures
        final(bus).state() == field_step(old(bus).state(), clk_voutbus_root_ctrl_REG_ADDR, 0x3000000, 0x2000000),
{
    set_field(bus, clk_voutbus_root_ctrl_REG_ADDR, 0x3000000, 0x2000000);
}

pub fn _GET_CLOCK_SOURCE_STATUS_clk_voutbus_root_(bus: &Mmio) -> (r: u32)
    ensures
        r == (bus.value(clk_voutbus_root_ctrl_REG_ADDR as u64) >> 24u32) & 0x3,
{
    (bus.read32(clk_voutbus_root_ctrl_REG_ADDR as u64) >> 24u32) & 0x3
}

pub fn _ENABLE_CLOCK_clk_cpunbus_root_div_() {
}

pub fn _DIVIDE_CLOCK_clk_cpunbus_root_div_(bus: &mut Mmio, div: u32)
    ensures
        final(bus).state() == field_step(old(bus).state(), clk_cpunbus_root_div_ctrl_REG_ADDR, 0x3, div & 0x3),
{
    set_field(bus, clk_cpunbus_root_div_ctrl_REG_ADDR, 0x3, div & 0x3);
}

pub fn _GET_CLOCK_DIVIDE_STATUS_clk_cpunbus_root_div_(bus: &Mmio) -> (r: u32)
    ensures
        r == bus.value(clk_cpunbus_root_div_ctrl_REG_ADDR as u64) & 0x3,
{
    bus.read32(clk_cpunbus_root_div_ctrl_REG_ADDR as u64) & 0x3
}

pub fn _ENABLE_CLOCK_clk_dsp_root_div_() {
}

pub fn _DIVIDE_CLOCK_clk_dsp_root_div_(bus: &mut Mmio, div: u32)
    ensures
        final(bus).state() == field_step(old(bus).state(), clk_dsp_root_div_ctrl_REG_ADDR, 0x7, div & 0x7),
{
    set_field(bus, clk_dsp_root_div_ctrl_REG_ADDR, 0x7, div & 0x7);
}

pub fn _GET_CLOCK_DIVIDE_STATUS_clk_dsp_root_div_(bus: &Mmio) -> (r: u32)
    ensures
        r == bus.value(clk_dsp_root_div_ctrl_REG_ADDR as u64) & 0x7,
{
    bus.read32(clk_dsp_root_div_ctrl_REG_ADDR as u64) & 0x7
}

pub fn _ENABLE_CLOCK_clk_perh0_src_() {
}

pub fn _DIVIDE_CLOCK_clk_perh0_src_(bus: &mut Mmio, div: u32)
    ensures
        final(bus).state() == field_step(old(bus).state(), clk_perh0_src_ctrl_REG_ADDR, 0x7, div & 0x7),
{
    set_field(bus, clk_perh0_src_ctrl_REG_ADDR, 0x7, div & 0x7);
}

pub fn _GET_CLOCK_DIVIDE_STATUS_clk_perh0_src_(bus: &Mmio) -> (r: u32)
    ensures
        r == bus.value(clk_perh0_src_ctrl_REG_ADDR as u64) & 0x7,
{
    bus.read32(clk_perh0_src_ctrl_REG_ADDR as u64) & 0x7
}

pub fn _ENABLE_CLOCK_clk_perh1_src_() {
}

pub fn _DIVIDE_CLOCK_clk_perh1_src_(bus: &mut Mmio, div: u32)
    ensures
        final(bus).state() == field_step(old(bus).state(), clk_perh1_src_ctrl_REG_ADDR, 0x7, div & 0x7),
{
    set_field(bus, clk_perh1_src_ctrl_REG_ADDR, 0x7, div & 0x7);
}

pub fn _GET_CLOCK_DIVIDE_STATUS_clk_perh1_src_(bus: &Mmio) -> (r: u32)
    ensures
        r == bus.value(clk_perh1_src_ctrl_REG_ADDR as u64) & 0x7,
{
    bus.read32(clk_perh1_src_ctrl_REG_ADDR as u64) & 0x7
}

pub fn _ENABLE_CLOCK_clk_pll0_testout_(bus: &mut Mmio)
    ensures
        final(bus).state() == field_step(old(bus).state(), clk_pll0_testout_ctrl_REG_ADDR, 0x80000000, 0x80000000),
{
    set_field(bus, clk_pll0_testout_ctrl_REG_ADDR, 0x80000000, 0x80000000);
}

pub fn _DISABLE_CLOCK_clk_pll0_testout_(bus: &mut Mmio)
    ensures
        final(bus).state() == field_step(old(bus).state(), clk_pll0_testout_ctrl_REG_ADDR, 0x80000000, 0x0),
{
    set_field(bus, clk_pll0_testout_ctrl_REG_ADDR, 0x80000000, 0x0);
}

pub fn _GET_CLOCK_ENABLE_STATUS_clk_pll0_testout_(bus: &Mmio) -> (r: u32)
    ensures
        r == (bus.value(clk_pll0_testout_ctrl_REG_ADDR as u64) >> 31u32) & 0x1,
{
    (bus.read32(clk_pll0_testout_ctrl_REG_ADDR as u64) >> 31u32) & 0x1
}

pub fn _DIVIDE_CLOCK_clk_pll0_testout_(bus: &mut Mmio, div: u32)
    ensures
        final(bus).state() == field_step(old(bus).state(), clk_pll0_testout_ctrl_REG_ADDR, 0x1f, div & 0x1f),
{
    set_field(bus, clk_pll0_testout_ctrl_REG_ADDR, 0x1f, div & 0x1f);
}

pub fn _GET_CLOCK_DIVIDE_STATUS_clk_pll0_testout_(bus: &Mmio) -> (r: u32)
    ensures
        r == bus.value(clk_pll0_testout_ctrl_REG_ADDR as u64) & 0x1f,
{
    bus.read32(clk_pll0_testout_ctrl_REG_ADDR as u64) & 0x1f
}

pub fn _ENABLE_CLOCK_clk_pll1_testout_(bus: &mut Mmio)
    ensures
        final(bus).state() == field_step(old(bus).state(), clk_pll1_testout_ctrl_REG_ADDR, 0x80000000, 0x80000000),
{
    set_field(bus, clk_pll1_testout_ctrl_REG_ADDR, 0x80000000, 0x80000000);
}

pub fn _DISABLE_CLOCK_clk_pll1_testout_(bus: &mut Mmio)
    ensures
        final(bus).state() == field_step(old(bus).state(), clk_pll1_testout_ctrl_REG_ADDR, 0x80000000, 0x0),
{
    set_field(bus, clk_pll1_testout_ctrl_REG_ADDR, 0x80000000, 0x0);
}

pub fn _GET_CLOCK_ENABLE_STATUS_clk_pll1_testout_(bus: &Mmio) -> (r: u32)
    ensures
        r == (bus.value(clk_pll1_testout_ctrl_REG_ADDR as u64) >> 31u32) & 0x1,
{
    (bus.read32(clk_pll1_testout_ctrl_REG_ADDR as u64) >> 31u32) & 0x1
}

pub fn _DIVIDE_CLOCK_clk_pll1_testout_(bus: &mut Mmio, div: u32)
    ensures
        final(bus).state() == field_step(old(bus).state(), clk_pll1_testout_ctrl_REG_ADDR, 0x1f, div & 0x1f),
{
    set_field(bus, clk_pll1_testout_ctrl_REG_ADDR, 0x1f, div & 0x1f);
}

pub fn _GET_CLOCK_DIVIDE_STATUS_clk_pll1_testout_(bus: &Mmio) -> (r: u32)
    ensures
        r == bus.value(clk_pll1_testout_ctrl_REG_ADDR as u64) & 0x1f,
{
    bus.read32(clk_pll1_testout_ctrl_REG_ADDR as u64) & 0x1f
}

pub fn _ENABLE_CLOCK_clk_pll2_testout_(bus: &mut Mmio)
    ensures
        final(bus).state() == field_step(old(bus).state(), clk_pll2_testout_ctrl_REG_ADDR, 0x80000000, 0x80000000),
{
    set_field(bus, clk_pll2_testout_ctrl_REG_ADDR, 0x80000000, 0x80000000);
}

pub fn _DISABLE_CLOCK_clk_pll2_testout_(bus: &mut Mmio)
    ensures
        final(bus).state() == field_step(old(bus).state(), clk_pll2_testout_ctrl_REG_ADDR, 0x80000000, 0x0),
{
    set_field(bus, clk_pll2_testout_ctrl_REG_ADDR, 0x80000000, 0x0);
}

pub fn _GET_CLOCK_ENABLE_STATUS_clk_pll2_testout_(bus: &Mmio) -> (r: u32)
    ensures
        r == (bus.value(clk_pll2_testout_ctrl_REG_ADDR as u64) >> 31u32) & 0x1,
{
    (bus.read32(clk_pll2_testout_ctrl_REG_ADDR as u64) >> 31u32) & 0x1
}

pub fn _DIVIDE_CLOCK_clk_pll2_testout_(bus: &mut Mmio, div: u32)
    ensures
        final(bus).state() == field_step(old(bus).state(), clk_pll2_testout_ctrl_REG_ADDR, 0x1f, div & 0x1f),
{
    set_field(bus, clk_pll2_testout_ctrl_REG_ADDR, 0x1f, div & 0x1f);
}

pub fn _GET_CLOCK_DIVIDE_STATUS_clk_pll2_testout_(bus: &Mmio) -> (r: u32)
    ensures
        r == bus.value(clk_pll2_testout_ctrl_REG_ADDR as u64) & 0x1f,
{
    bus.read32(clk_pll2_testout_ctrl_REG_ADDR as u64) & 0x1f
}

pub fn _ENABLE_CLOCK_clk_pll2_refclk_() {
}

pub fn _SWITCH_CLOCK_clk_pll2_refclk_SOURCE_clk_osc_sys_(bus: &mut Mmio)
    ensures
        final(bus).state() == field_step(old(bus).state(), clk_pll2_refclk_ctrl_REG_ADDR, 0x1000000, 0x0),
{
    set_field(bus, clk_pll2_refclk_ctrl_REG_ADDR, 0x1000000, 0x0);
}

pub fn _SWITCH_CLOCK_clk_pll2_refclk_SOURCE_clk_osc_aud_(bus: &mut Mmio)
    ensures
        final(bus).state() == field_step(old(bus).state(), clk_pll2_refclk_ctrl_REG_ADDR, 0x1000000, 0x1000000),
{
    set_field(bus, clk_pll2_refclk_ctrl_REG_ADDR, 0x1000000, 0x1000000);
}

pub fn _GET_CLOCK_SOURCE_STATUS_clk_pll2_refclk_(bus: &Mmio) -> (r: u32)
    ensures
        r == (bus.value(clk_pll2_refclk_ctrl_REG_ADDR as u64) >> 24u32) & 0x1,
{
    (bus.read32(clk_pll2_refclk_ctrl_REG_ADDR as u64) >> 24u32) & 0x1
}

pub fn _ENABLE_CLOCK_clk_cpu_core_() {
}

pub fn _DIVIDE_CLOCK_clk_cpu_core_(bus: &mut Mmio, div: u32)
    ensures
        final(bus).state() == field_step(old(bus).state(), clk_cpu_core_ctrl_REG_ADDR, 0xf, div & 0xf),
{
    set_field(bus, clk_cpu_core_ctrl_REG_ADDR, 0xf, div & 0xf);
}

pub fn _GET_CLOCK_DIVIDE_STATUS_clk_cpu_core_(bus: &Mmio) -> (r: u32)
    ensures
        r == bus.value(clk_cpu_core_ctrl_REG_ADDR as u64) & 0xf,
{
    bus.read32(clk_cpu_core_ctrl_REG_ADDR as u64) & 0xf
}

pub fn _ENABLE_CLOCK_clk_cpu_axi_() {
}

pub fn _DIVIDE_CLOCK_clk_cpu_axi_(bus: &mut Mmio, div: u32)
    ensures
        final(bus).state() == field_step(old(bus).state(), clk_cpu_axi_ctrl_REG_ADDR, 0xf, div & 0xf),
{
    set_field(bus, clk_cpu_axi_ctrl_REG_ADDR, 0xf, div & 0xf);
}

pub fn _GET_CLOCK_DIVIDE_STATUS_clk_cpu_axi_(bus: &Mmio) -> (r: u32)
    ensures
        r == bus.value(clk_cpu_axi_ctrl_REG_ADDR as u64) & 0xf,
{
    bus.read32(clk_cpu_axi_ctrl_REG_ADDR as u64) & 0xf
}

pub fn _ENABLE_CLOCK_clk_ahb_bus_() {
}

pub fn _DIVIDE_CLOCK_clk_ahb_bus_(bus: &mut Mmio, div: u32)
    ensures
        final(bus).state() == field_step(old(bus).state(), clk_ahb_bus_ctrl_REG_ADDR, 0xf, div & 0xf),
{
    set_field(bus, clk_ahb_bus_ctrl_REG_ADDR, 0xf, div & 0xf);
}

pub fn _GET_CLOCK_DIVIDE_STATUS_clk_ahb_bus_(bus: &Mmio) -> (r: u32)
    ensures
        r == bus.value(clk_ahb_bus_ctrl_REG_ADDR as u64) & 0xf,
{
    bus.read32(clk_ahb_bus_ctrl_REG_ADDR as u64) & 0xf
}

pub fn _ENABLE_CLOCK_clk_apb1_bus_() {
}

pub fn _DIVIDE_CLOCK_clk_apb1_bus_(bus: &mut Mmio, div: u32)
    ensures
        final(bus).state() == field_step(old(bus).state(), clk_apb1_bus_ctrl_REG_ADDR, 0xf, div & 0xf),
{
    set_field(bus, clk_apb1_bus_ctrl_REG_ADDR, 0xf, div & 0xf);
}

pub fn _GET_CLOCK_DIVIDE_STATUS_clk_apb1_bus_(bus: &Mmio) -> (r: u32)
    ensures
        r == bus.value(clk_apb1_bus_ctrl_REG_ADDR as u64) & 0xf,
{
    bus.read32(clk_apb1_bus_ctrl_REG_ADDR as u64) & 0xf
}

pub fn _ENABLE_CLOCK_clk_apb2_bus_() {
}

pub fn _DIVIDE_CLOCK_clk_apb2_bus_(bus: &mut Mmio, div: u32)
    ensures
        final(bus).state() == field_step(old(bus).state(), clk_apb2_bus_ctrl_REG_ADDR, 0xf, div & 0xf),
{
    set_field(bus, clk_apb2_bus_ctrl_REG_ADDR, 0xf, div & 0xf);
}

pub fn _GET_CLOCK_DIVIDE_STATUS_clk_apb2_bus_(bus: &Mmio) -> (r: u32)
    ensures
        r == bus.value(clk_apb2_bus_ctrl_REG_ADDR as u64) & 0xf,
{
    bus.read32(clk_apb2_bus_ctrl_REG_ADDR as u64) & 0xf
}

pub fn _ENABLE_CLOCK_clk_dom3ahb_bus_(bus: &mut Mmio)
    ensures
        final(bus).state() == field_step(old(bus).state(), clk_dom3ahb_bus_ctrl_REG_ADDR, 0x80000000, 0x80000000),
{
    set_field(bus, clk_dom3ahb_bus_ctrl_REG_ADDR, 0x80000000, 0x80000000);
}

pub fn _DISABLE_CLOCK_clk_dom3ahb_bus_(bus: &mut Mmio)
    ensures
        final(bus).state() == field_step(old(bus).state(), clk_dom3ahb_bus_ctrl_REG_ADDR, 0x80000000, 0x0),
{
    set_field(bus, clk_dom3ahb_bus_ctrl_REG_ADDR, 0x80000000, 0x0);
}

pub fn _GET_CLOCK_ENABLE_STATUS_clk_dom3ahb_bus_(bus: &Mmio) -> (r: u32)
    ensures
        r == (bus.value(clk_dom3ahb_bus_ctrl_REG_ADDR as u64) >> 31u32) & 0x1,
{
    (bus.read32(clk_dom3ahb_bus_ctrl_REG_ADDR as u64) >> 31u32) & 0x1
}

pub fn _ENABLE_CLOCK_clk_dom7ahb_bus_(bus: &mut Mmio)
    ensures
        final(bus).state() == field_step(old(bus).state(), clk_dom7ahb_bus_ctrl_REG_ADDR, 0x80000000, 0x80000000),
{
    set_field(bus, clk_dom7ahb_bus_ctrl_REG_ADDR, 0x80000000, 0x80000000);
}

pub fn _DISABLE_CLOCK_clk_dom7ahb_bus_(bus: &mut Mmio)
    ensures
        final(bus).state() == field_step(old(bus).state(), clk_dom7ahb_bus_ctrl_REG_ADDR, 0x80000000, 0x0),
{
    set_field(bus, clk_dom7ahb_bus_ctrl_REG_ADDR, 0x80000000, 0x0);
}

pub fn _GET_CLOCK_ENABLE_STATUS_clk_dom7ahb_bus_(bus: &Mmio) -> (r: u32)
    ensures
        r == (bus.value(clk_dom7ahb_bus_ctrl_REG_ADDR as u64) >> 31u32) & 0x1,
{
    (bus.read32(clk_dom7ahb_bus_ctrl_REG_ADDR as u64) >> 31u32) & 0x1
}

pub fn _ENABLE_CLOCK_clk_u74_core0_(bus: &mut Mmio)
    ensures
        final(bus).state() == field_step(old(bus).state(), clk_u74_core0_ctrl_REG_ADDR, 0x80000000, 0x80000000),
{
    set_field(bus, clk_u74_core0_ctrl_REG_ADDR, 0x80000000, 0x80000000);
}

pub fn _DISABLE_CLOCK_clk_u74_core0_(bus: &mut Mmio)
    ensures
        final(bus).state() == field_step(old(bus).state(), clk_u74_core0_ctrl_REG_ADDR, 0x80000000, 0x0),
{
    set_field(bus, clk_u74_core0_ctrl_REG_ADDR, 0x80000000, 0x0);
}

pub fn _GET_CLOCK_ENABLE_STATUS_clk_u74_core0_(bus: &Mmio) -> (r: u32)
    ensures
        r == (bus.value(clk_u74_core0_ctrl_REG_ADDR as u64) >> 31u32) & 0x1,
{
    (bus.read32(clk_u74_core0_ctrl_REG_ADDR as u64) >> 31u32) & 0x1
}

pub fn _ENABLE_CLOCK_clk_u74_core1_(bus: &mut Mmio)
    ensures
        final(bus).state() == field_step(old(bus).state(), clk_u74_core1_ctrl_REG_ADDR, 0x80000000, 0x80000000),
{
    set_field(bus, clk_u74_core1_ctrl_REG_ADDR, 0x80000000, 0x80000000);
}

pub fn _DISABLE_CLOCK_clk_u74_core1_(bus: &mut Mmio)
    ensures
        final(bus).state() == field_step(old(bus).state(), clk_u74_core1_ctrl_REG_ADDR, 0x80000000, 0x0),
{
    set_field(bus, clk_u74_core1_ctrl_REG_ADDR, 0x80000000, 0x0);
}

pub fn _GET_CLOCK_ENABLE_STATUS_clk_u74_core1_(bus: &Mmio) -> (r: u32)
    ensures
        r == (bus.value(clk_u74_core1_ctrl_REG_ADDR as u64) >> 31u32) & 0x1,
{
    (bus.read32(clk_u74_core1_ctrl_REG_ADDR as u64) >> 31u32) & 0x1
}

pub fn _DIVIDE_CLOCK_clk_u74_core1_(bus: &mut Mmio, div: u32)
    ensures
        final(bus).state() == field_step(old(bus).state(), clk_u74_core1_ctrl_REG_ADDR, 0xf, div & 0xf),
{
    set_field(bus, clk_u74_core1_ctrl_REG_ADDR, 0xf, div & 0xf);
}

pub fn _GET_CLOCK_DIVIDE_STATUS_clk_u74_core1_(bus: &Mmio) -> (r: u32)
    ensures
        r == bus.value(clk_u74_core1_ctrl_REG_ADDR as u64) & 0xf,
{
    bus.read32(clk_u74_core1_ctrl_REG_ADDR as u64) & 0xf
}

pub fn _ENABLE_CLOCK_clk_u74_axi_(bus: &mut Mmio)
    ensures
        final(bus).state() == field_step(old(bus).state(), clk_u74_axi_ctrl_REG_ADDR, 0x80000000, 0x80000000),
{
    set_field(bus, clk_u74_axi_ctrl_REG_ADDR, 0x80000000, 0x80000000);
}

pub fn _DISABLE_CLOCK_clk_u74_axi_(bus: &mut Mmio)
    ensures
        final(bus).state() == field_step(old(bus).state(), clk_u74_axi_ctrl_REG_ADDR, 0x80000000, 0x0),
{
    set_field(bus, clk_u74_axi_ctrl_REG_ADDR, 0x80000000, 0x0);
}

pub fn _GET_CLOCK_ENABLE_STATUS_clk_u74_axi_(bus: &Mmio) -> (r: u32)
    ensures
        r == (bus.value(clk_u74_axi_ctrl_REG_ADDR as u64) >> 31u32) & 0x1,
{
    (bus.read32(clk_u74_axi_ctrl_REG_ADDR as u64) >> 31u32) & 0x1
}

pub fn _ENABLE_CLOCK_clk_u74rtc_toggle_(bus: &mut Mmio)
    ensures
        final(bus).state() == field_step(old(bus).state(), clk_u74rtc_toggle_ctrl_REG_ADDR, 0x80000000, 0x80000000),
{
    set_field(bus, clk_u74rtc_toggle_ctrl_REG_ADDR, 0x80000000, 0x80000000);
}

pub fn _DISABLE_CLOCK_clk_u74rtc_toggle_(bus: &mut Mmio)
    ensures
        final(bus).state() == field_step(old(bus).state(), clk_u74rtc_toggle_ctrl_REG_ADDR, 0x80000000, 0x0),
{
    set_field(bus, clk_u74rtc_toggle_ctrl_REG_ADDR, 0x80000000, 0x0);
}

pub fn _GET_CLOCK_ENABLE_STATUS_clk_u74rtc_toggle_(bus: &Mmio) -> (r: u32)
    ensures
        r == (bus.value(clk_u74rtc_toggle_ctrl_REG_ADDR as u64) >> 31u32) & 0x1,
{
    (bus.read32(clk_u74rtc_toggle_ctrl_REG_ADDR as u64) >> 31u32) & 0x1
}

pub fn _ENABLE_CLOCK_clk_sgdma2p_axi_(bus: &mut Mmio)
    ensures
        final(bus).state() == field_step(old(bus).state(), clk_sgdma2p_axi_ctrl_REG_ADDR, 0x80000000, 0x80000000),
{
    set_field(bus, clk_sgdma2p_axi_ctrl_REG_ADDR, 0x80000000, 0x80000000);
}

pub fn _DISABLE_CLOCK_clk_sgdma2p_axi_(bus: &mut Mmio)
    ensures
        final(bus).state() == field_step(old(bus).state(), clk_sgdma2p_axi_ctrl_REG_ADDR, 0x80000000, 0x0),
{
    set_field(bus, clk_sgdma2p_axi_ctrl_REG_ADDR, 0x80000000, 0x0);
}

pub fn _GET_CLOCK_ENABLE_STATUS_clk_sgdma2p_axi_(bus: &Mmio) -> (r: u32)
    ensures
        r == (bus.value(clk_sgdma2p_axi_ctrl_REG_ADDR as u64) >> 31u32) & 0x1,
{
    (bus.read32(clk_sgdma2p_axi_ctrl_REG_ADDR as u64) >> 31u32) & 0x1
}

pub fn _ENABLE_CLOCK_clk_dma2pnoc_axi_(bus: &mut Mmio)
    ensures
        final(bus).state() == field_step(old(bus).state(), clk_dma2pnoc_axi_ctrl_REG_ADDR, 0x80000000, 0x80000000),
{
    set_field(bus, clk_dma2pnoc_axi_ctrl_REG_ADDR, 0x80000000, 0x80000000);
}

pub fn _DISABLE_CLOCK_clk_dma2pnoc_axi_(bus: &mut Mmio)
    ensures
        final(bus).state() == field_step(old(bus).state(), clk_dma2pnoc_axi_ctrl_REG_ADDR, 0x80000000, 0x0),
{
    set_field(bus, clk_dma2pnoc_axi_ctrl_REG_ADDR, 0x80000000, 0x0);
}

pub fn _GET_CLOCK_ENABLE_STATUS_clk_dma2pnoc_axi_(bus: &Mmio) -> (r: u32)
    ensures
        r == (bus.value(clk_dma2pnoc_axi_ctrl_REG_ADDR as u64) >> 31u32) & 0x1,
{
    (bus.read32(clk_dma2pnoc_axi_ctrl_REG_ADDR as u64) >> 31u32) & 0x1
}

pub fn _ENABLE_CLOCK_clk_sgdma2p_ahb_(bus: &mut Mmio)
    ensures
        final(bus).state() == field_step(old(bus).state(), clk_sgdma2p_ahb_ctrl_REG_ADDR, 0x80000000, 0x80000000),
{
    set_field(bus, clk_sgdma2p_ahb_ctrl_REG_ADDR, 0x80000000, 0x80000000);
}

pub fn _DISABLE_CLOCK_clk_sgdma2p_ahb_(bus: &mut Mmio)
    ensures
        final(bus).state() == field_step(old(bus).state(), clk_sgdma2p_ahb_ctrl_REG_ADDR, 0x80000000, 0x0),
{
    set_field(bus, clk_sgdma2p_ahb_ctrl_REG_ADDR, 0x80000000, 0x0);
}

pub fn _GET_CLOCK_ENABLE_STATUS_clk_sgdma2p_ahb_(bus: &Mmio) -> (r: u32)
    ensures
        r == (bus.value(clk_sgdma2p_ahb_ctrl_REG_ADDR as u64) >> 31u32) & 0x1,
{
    (bus.read32(clk_sgdma2p_ahb_ctrl_REG_ADDR as u64) >> 31u32) & 0x1
}

pub fn _ENABLE_CLOCK_clk_dla_bus_() {
}

pub fn _DIVIDE_CLOCK_clk_dla_bus_(bus: &mut Mmio, div: u32)
    ensures
        final(bus).state() == field_step(old(bus).state(), clk_dla_bus_ctrl_REG_ADDR, 0x7, div & 0x7),
{
    set_field(bus, clk_dla_bus_ctrl_REG_ADDR, 0x7, div & 0x7);
}

pub fn _GET_CLOCK_DIVIDE_STATUS_clk_dla_bus_(bus: &Mmio) -> (r: u32)
    ensures
        r == bus.value(clk_dla_bus_ctrl_REG_ADDR as u64) & 0x7,
{
    bus.read32(clk_dla_bus_ctrl_REG_ADDR as u64) & 0x7
}

pub fn _ENABLE_CLOCK_clk_dla_axi_(bus: &mut Mmio)
    ensures
        final(bus).state() == field_step(old(bus).state(), clk_dla_axi_ctrl_REG_ADDR, 0x80000000, 0x80000000),
{
    set_field(bus, clk_dla_axi_ctrl_REG_ADDR, 0x80000000, 0x80000000);
}

pub fn _DISABLE_CLOCK_clk_dla_axi_(bus: &mut Mmio)
    ensures
        final(bus).state() == field_step(old(bus).state(), clk_dla_axi_ctrl_REG_ADDR, 0x80000000, 0x0),
{
    set_field(bus, clk_dla_axi_ctrl_REG_ADDR, 0x80000000, 0x0);
}

pub fn _GET_CLOCK_ENABLE_STATUS_clk_dla_axi_(bus: &Mmio) -> (r: u32)
    ensures
        r == (bus.value(clk_dla_axi_ctrl_REG_ADDR as u64) >> 31u32) & 0x1,
{
    (bus.read32(clk_dla_axi_ctrl_REG_ADDR as u64) >> 31u32) & 0x1
}

pub fn _ENABLE_CLOCK_clk_dlanoc_axi_(bus: &mut Mmio)
    ensures
        final(bus).state() == field_step(old(bus).state(), clk_dlanoc_axi_ctrl_REG_ADDR, 0x80000000, 0x80000000),
{
    set_field(bus, clk_dlanoc_axi_ctrl_REG_ADDR, 0x80000000, 0x80000000);
}

pub fn _DISABLE_CLOCK_clk_dlanoc_axi_(bus: &mut Mmio)
    ensures
        final(bus).state() == field_step(old(bus).state(), clk_dlanoc_axi_ctrl_REG_ADDR, 0x80000000, 0x0),
{
    set_field(bus, clk_dlanoc_axi_ctrl_REG_ADDR, 0x80000000, 0x0);
}

pub fn _GET_CLOCK_ENABLE_STATUS_clk_dlanoc_axi_(bus: &Mmio) -> (r: u32)
    ensures
        r == (bus.value(clk_dlanoc_axi_ctrl_REG_ADDR as u64) >> 31u32) & 0x1,
{
    (bus.read32(clk_dlanoc_axi_ctrl_REG_ADDR as u64) >> 31u32) & 0x1
}

pub fn _ENABLE_CLOCK_clk_dla_apb_(bus: &mut Mmio)
    ensures
        final(bus).state() == field_step(old(bus).state(), clk_dla_apb_ctrl_REG_ADDR, 0x80000000, 0x80000000),
{
    set_field(bus, clk_dla_apb_ctrl_REG_ADDR, 0x80000000, 0x80000000);
}

pub fn _DISABLE_CLOCK_clk_dla_apb_(bus: &mut Mmio)
    ensures
        final(bus).state() == field_step(old(bus).state(), clk_dla_apb_ctrl_REG_ADDR, 0x80000000, 0x0),
{
    set_field(bus, clk_dla_apb_ctrl_REG_ADDR, 0x80000000, 0x0);
}

pub fn _GET_CLOCK_ENABLE_STATUS_clk_dla_apb_(bus: &Mmio) -> (r: u32)
    ensures
        r == (bus.value(clk_dla_apb_ctrl_REG_ADDR as u64) >> 31u32) & 0x1,
{
    (bus.read32(clk_dla_apb_ctrl_REG_ADDR as u64) >> 31u32) & 0x1
}

pub fn _ENABLE_CLOCK_clk_vp6_core_(bus: &mut Mmio)
    ensures
        final(bus).state() == field_step(old(bus).state(), clk_vp6_core_ctrl_REG_ADDR, 0x80000000, 0x80000000),
{
    set_field(bus, clk_vp6_core_ctrl_REG_ADDR, 0x80000000, 0x80000000);
}

pub fn _DISABLE_CLOCK_clk_vp6_core_(bus: &mut Mmio)
    ensures
        final(bus).state() == field_step(old(bus).state(), clk_vp6_core_ctrl_REG_ADDR, 0x80000000, 0x0),
{
    set_field(bus, clk_vp6_core_ctrl_REG_ADDR, 0x80000000, 0x0);
}

pub fn _GET_CLOCK_ENABLE_STATUS_clk_vp6_core_(bus: &Mmio) -> (r: u32)
    ensures
        r == (bus.value(clk_vp6_core_ctrl_REG_ADDR as u64) >> 31u32) & 0x1,
{
    (bus.read32(clk_vp6_core_ctrl_REG_ADDR as u64) >> 31u32) & 0x1
}

pub fn _DIVIDE_CLOCK_clk_vp6_core_(bus: &mut Mmio, div: u32)
    ensures
        final(bus).state() == field_step(old(bus).state(), clk_vp6_core_ctrl_REG_ADDR, 0x7, div & 0x7),
{
    set_field(bus, clk_vp6_core_ctrl_REG_ADDR, 0x7, div & 0x7);
}

pub fn _GET_CLOCK_DIVIDE_STATUS_clk_vp6_core_(bus: &Mmio) -> (r: u32)
    ensures
        r == bus.value(clk_vp6_core_ctrl_REG_ADDR as u64) & 0x7,
{
    bus.read32(clk_vp6_core_ctrl_REG_ADDR as u64) & 0x7
}

pub fn _ENABLE_CLOCK_clk_vp6bus_src_() {
}

pub fn _DIVIDE_CLOCK_clk_vp6bus_src_(bus: &mut Mmio, div: u32)
    ensures
        final(bus).state() == field_step(old(bus).state(), clk_vp6bus_src_ctrl_REG_ADDR, 0x7, div & 0x7),
{
    set_field(bus, clk_vp6bus_src_ctrl_REG_ADDR, 0x7, div & 0x7);
}

pub fn _GET_CLOCK_DIVIDE_STATUS_clk_vp6bus_src_(bus: &Mmio) -> (r: u32)
    ensures
        r == bus.value(clk_vp6bus_src_ctrl_REG_ADDR as u64) & 0x7,
{
    bus.read32(clk_vp6bus_src_ctrl_REG_ADDR as u64) & 0x7
}

pub fn _ENABLE_CLOCK_clk_vp6_axi_(bus: &mut Mmio)
    ensures
        final(bus).state() == field_step(old(bus).state(), clk_vp6_axi_ctrl_REG_ADDR, 0x80000000, 0x80000000),
{
    set_field(bus, clk_vp6_axi_ctrl_REG_ADDR, 0x80000000, 0x80000000);
}

pub fn _DISABLE_CLOCK_clk_vp6_axi_(bus: &mut Mmio)
    ensures
        final(bus).state() == field_step(old(bus).state(), clk_vp6_axi_ctrl_REG_ADDR, 0x80000000, 0x0),
{
    set_field(bus, clk_vp6_axi_ctrl_REG_ADDR, 0x80000000, 0x0);
}

pub fn _GET_CLOCK_ENABLE_STATUS_clk_vp6_axi_(bus: &Mmio) -> (r: u32)
    ensures
        r == (bus.value(clk_vp6_axi_ctrl_REG_ADDR as u64) >> 31u32) & 0x1,
{
    (bus.read32(clk_vp6_axi_ctrl_REG_ADDR as u64) >> 31u32) & 0x1
}

pub fn _DIVIDE_CLOCK_clk_vp6_axi_(bus: &mut Mmio, div: u32)
    ensures
        final(bus).state() == field_step(old(bus).state(), clk_vp6_axi_ctrl_REG_ADDR, 0x7, div & 0x7),
{
    set_field(bus, clk_vp6_axi_ctrl_REG_ADDR, 0x7, div & 0x7);
}

pub fn _GET_CLOCK_DIVIDE_STATUS_clk_vp6_axi_(bus: &Mmio) -> (r: u32)
    ensures
        r == bus.value(clk_vp6_axi_ctrl_REG_ADDR as u64) & 0x7,
{
    bus.read32(clk_vp6_axi_ctrl_REG_ADDR as u64) & 0x7
}

pub fn _ENABLE_CLOCK_clk_vcdecbus_src_() {
}

pub fn _DIVIDE_CLOCK_clk_vcdecbus_src_(bus: &mut Mmio, div: u32)
    ensures
        final(bus).state() == field_step(old(bus).state(), clk_vcdecbus_src_ctrl_REG_ADDR, 0x7, div & 0x7),
{
    set_field(bus, clk_vcdecbus_src_ctrl_REG_ADDR, 0x7, div & 0x7);
}

pub fn _GET_CLOCK_DIVIDE_STATUS_clk_vcdecbus_src_(bus: &Mmio) -> (r: u32)
    ensures
        r == bus.value(clk_vcdecbus_src_ctrl_REG_ADDR as u64) & 0x7,
{
    bus.read32(clk_vcdecbus_src_ctrl_REG_ADDR as u64) & 0x7
}

pub fn _ENABLE_CLOCK_clk_vdec_bus_() {
}

pub fn _DIVIDE_CLOCK_clk_vdec_bus_(bus: &mut Mmio, div: u32)
    ensures
        final(bus).state() == field_step(old(bus).state(), clk_vdec_bus_ctrl_REG_ADDR, 0xf, div & 0xf),
{
    set_field(bus, clk_vdec_bus_ctrl_REG_ADDR, 0xf, div & 0xf);
}

pub fn _GET_CLOCK_DIVIDE_STATUS_clk_vdec_bus_(bus: &Mmio) -> (r: u32)
    ensures
        r == bus.value(clk_vdec_bus_ctrl_REG_ADDR as u64) & 0xf,
{
    bus.read32(clk_vdec_bus_ctrl_REG_ADDR as u64) & 0xf
}

pub fn _ENABLE_CLOCK_clk_vdec_axi_(bus: &mut Mmio)
    ensures
        final(bus).state() == field_step(old(bus).state(), clk_vdec_axi_ctrl_REG_ADDR, 0x80000000, 0x80000000),
{
    set_field(bus, clk_vdec_axi_ctrl_REG_ADDR, 0x80000000, 0x80000000);
}

pub fn _DISABLE_CLOCK_clk_vdec_axi_(bus: &mut Mmio)
    ensures
        final(bus).state() == field_step(old(bus).state(), clk_vdec_axi_ctrl_REG_ADDR, 0x80000000, 0x0),
{
    set_field(bus, clk_vdec_axi_ctrl_REG_ADDR, 0x80000000, 0x0);
}

pub fn _GET_CLOCK_ENABLE_STATUS_clk_vdec_axi_(bus: &Mmio) -> (r: u32)
    ensures
        r == (bus.value(clk_vdec_axi_ctrl_REG_ADDR as u64) >> 31u32) & 0x1,
{
    (bus.read32(clk_vdec_axi_ctrl_REG_ADDR as u64) >> 31u32) & 0x1
}

pub fn _ENABLE_CLOCK_clk_vdecbrg_mainclk_(bus: &mut Mmio)
    ensures
        final(bus).state() == field_step(old(bus).state(), clk_vdecbrg_mainclk_ctrl_REG_ADDR, 0x80000000, 0x80000000),
{
    set_field(bus, clk_vdecbrg_mainclk_ctrl_REG_ADDR, 0x80000000, 0x80000000);
}

pub fn _DISABLE_CLOCK_clk_vdecbrg_mainclk_(bus: &mut Mmio)
    ensures
        final(bus).state() == field_step(old(bus).state(), clk_vdecbrg_mainclk_ctrl_REG_ADDR, 0x80000000, 0x0),
{
    set_field(bus, clk_vdecbrg_mainclk_ctrl_REG_ADDR, 0x80000000, 0x0);
}

pub fn _GET_CLOCK_ENABLE_STATUS_clk_vdecbrg_mainclk_(bus: &Mmio) -> (r: u32)
    ensures
        r == (bus.value(clk_vdecbrg_mainclk_ctrl_REG_ADDR as u64) >> 31u32) & 0x1,
{
    (bus.read32(clk_vdecbrg_mainclk_ctrl_REG_ADDR as u64) >> 31u32) & 0x1
}

pub fn _ENABLE_CLOCK_clk_vdec_bclk_(bus: &mut Mmio)
    ensures
        final(bus).state() == field_step(old(bus).state(), clk_vdec_bclk_ctrl_REG_ADDR, 0x80000000, 0x80000000),
{
    set_field(bus, clk_vdec_bclk_ctrl_REG_ADDR, 0x80000000, 0x80000000);
}

pub fn _DISABLE_CLOCK_clk_vdec_bclk_(bus: &mut Mmio)
    ensures
        final(bus).state() == field_step(old(bus).state(), clk_vdec_bclk_ctrl_REG_ADDR, 0x80000000, 0x0),
{
    set_field(bus, clk_vdec_bclk_ctrl_REG_ADDR, 0x80000000, 0x0);
}

pub fn _GET_CLOCK_ENABLE_STATUS_clk_vdec_bclk_(bus: &Mmio) -> (r: u32)
    ensures
        r == (bus.value(clk_vdec_bclk_ctrl_REG_ADDR as u64) >> 31u32) & 0x1,
{
    (bus.read32(clk_vdec_bclk_ctrl_REG_ADDR as u64) >> 31u32) & 0x1
}

pub fn _DIVIDE_CLOCK_clk_vdec_bclk_(bus: &mut Mmio, div: u32)
    ensures
        final(bus).state() == field_step(old(bus).state(), clk_vdec_bclk_ctrl_REG_ADDR, 0xf, div & 0xf),
{
    set_field(bus, clk_vdec_bclk_ctrl_REG_ADDR, 0xf, div & 0xf);
}

pub fn _GET_CLOCK_DIVIDE_STATUS_clk_vdec_bclk_(bus: &Mmio) -> (r: u32)
    ensures
        r == bus.value(clk_vdec_bclk_ctrl_REG_ADDR as u64) & 0xf,
{
    bus.read32(clk_vdec_bclk_ctrl_REG_ADDR as u64) & 0xf
}

pub fn _ENABLE_CLOCK_clk_vdec_cclk_(bus: &mut Mmio)
    ensures
        final(bus).state() == field_step(old(bus).state(), clk_vdec_cclk_ctrl_REG_ADDR, 0x80000000, 0x80000000),
{
    set_field(bus, clk_vdec_cclk_ctrl_REG_ADDR, 0x80000000, 0x80000000);
}

pub fn _DISABLE_CLOCK_clk_vdec_cclk_(bus: &mut Mmio)
    ensures
        final(bus).state() == field_step(old(bus).state(), clk_vdec_cclk_ctrl_REG_ADDR, 0x80000000, 0x0),
{
    set_field(bus, clk_vdec_cclk_ctrl_REG_ADDR, 0x80000000, 0x0);
}

pub fn _GET_CLOCK_ENABLE_STATUS_clk_vdec_cclk_(bus: &Mmio) -> (r: u32)
    ensures
        r == (bus.value(clk_vdec_cclk_ctrl_REG_ADDR as u64) >> 31u32) & 0x1,
{
    (bus.read32(clk_vdec_cclk_ctrl_REG_ADDR as u64) >> 31u32) & 0x1
}

pub fn _DIVIDE_CLOCK_clk_vdec_cclk_(bus: &mut Mmio, div: u32)
    ensures
        final(bus).state() == field_step(old(bus).state(), clk_vdec_cclk_ctrl_REG_ADDR, 0xf, div & 0xf),
{
    set_field(bus, clk_vdec_cclk_ctrl_REG_ADDR, 0xf, div & 0xf);
}

pub fn _GET_CLOCK_DIVIDE_STATUS_clk_vdec_cclk_(bus: &Mmio) -> (r: u32)
    ensures
        r == bus.value(clk_vdec_cclk_ctrl_REG_ADDR as u64) & 0xf,
{
    bus.read32(clk_vdec_cclk_ctrl_REG_ADDR as u64) & 0xf
}

pub fn _ENABLE_CLOCK_clk_vdec_apb_(bus: &mut Mmio)
    ensures
        final(bus).state() == field_step(old(bus).state(), clk_vdec_apb_ctrl_REG_ADDR, 0x80000000, 0x80000000),
{
    set_field(bus, clk_vdec_apb_ctrl_REG_ADDR, 0x80000000, 0x80000000);
}

pub fn _DISABLE_CLOCK_clk_vdec_apb_(bus: &mut Mmio)
    ensures
        final(bus).state() == field_step(old(bus).state(), clk_vdec_apb_ctrl_REG_ADDR, 0x80000000, 0x0),
{
    set_field(bus, clk_vdec_apb_ctrl_REG_ADDR, 0x80000000, 0x0);
}

pub fn _GET_CLOCK_ENABLE_STATUS_clk_vdec_apb_(bus: &Mmio) -> (r: u32)
    ensures
        r == (bus.value(clk_vdec_apb_ctrl_REG_ADDR as u64) >> 31u32) & 0x1,
{
    (bus.read32(clk_vdec_apb_ctrl_REG_ADDR as u64) >> 31u32) & 0x1
}

pub fn _ENABLE_CLOCK_clk_jpeg_axi_(bus: &mut Mmio)
    ensures
        final(bus).state() == field_step(old(bus).state(), clk_jpeg_axi_ctrl_REG_ADDR, 0x80000000, 0x80000000),
{
    set_field(bus, clk_jpeg_axi_ctrl_REG_ADDR, 0x80000000, 0x80000000);
}

pub fn _DISABLE_CLOCK_clk_jpeg_axi_(bus: &mut Mmio)
    ensures
        final(bus).state() == field_step(old(bus).state(), clk_jpeg_axi_ctrl_REG_ADDR, 0x80000000, 0x0),
{
    set_field(bus, clk_jpeg_axi_ctrl_REG_ADDR, 0x80000000, 0x0);
}

pub fn _GET_CLOCK_ENABLE_STATUS_clk_jpeg_axi_(bus: &Mmio) -> (r: u32)
    ensures
        r == (bus.value(clk_jpeg_axi_ctrl_REG_ADDR as u64) >> 31u32) & 0x1,
{
    (bus.read32(clk_jpeg_axi_ctrl_REG_ADDR as u64) >> 31u32) & 0x1
}

pub fn _DIVIDE_CLOCK_clk_jpeg_axi_(bus: &mut Mmio, div: u32)
    ensures
        final(bus).state() == field_step(old(bus).state(), clk_jpeg_axi_ctrl_REG_ADDR, 0xf, div & 0xf),
{
    set_field(bus, clk_jpeg_axi_ctrl_REG_ADDR, 0xf, div & 0xf);
}

pub fn _GET_CLOCK_DIVIDE_STATUS_clk_jpeg_axi_(bus: &Mmio) -> (r: u32)
    ensures
        r == bus.value(clk_jpeg_axi_ctrl_REG_ADDR as u64) & 0xf,
{
    bus.read32(clk_jpeg_axi_ctrl_REG_ADDR as u64) & 0xf
}

pub fn _ENABLE_CLOCK_clk_jpeg_cclk_(bus: &mut Mmio)
    ensures
        final(bus).state() == field_step(old(bus).state(), clk_jpeg_cclk_ctrl_REG_ADDR, 0x80000000, 0x80000000),
{
    set_field(bus, clk_jpeg_cclk_ctrl_REG_ADDR, 0x80000000, 0x80000000);
}

pub fn _DISABLE_CLOCK_clk_jpeg_cclk_(bus: &mut Mmio)
    ensures
        final(bus).state() == field_step(old(bus).state(), clk_jpeg_cclk_ctrl_REG_ADDR, 0x80000000, 0x0),
{
    set_field(bus, clk_jpeg_cclk_ctrl_REG_ADDR, 0x80000000, 0x0);
}

pub fn _GET_CLOCK_ENABLE_STATUS_clk_jpeg_cclk_(bus: &Mmio) -> (r: u32)
    ensures
        r == (bus.value(clk_jpeg_cclk_ctrl_REG_ADDR as u64) >> 31u32) & 0x1,
{
    (bus.read32(clk_jpeg_cclk_ctrl_REG_ADDR as u64) >> 31u32) & 0x1
}

pub fn _DIVIDE_CLOCK_clk_jpeg_cclk_(bus: &mut Mmio, div: u32)
    ensures
        final(bus).state() == field_step(old(bus).state(), clk_jpeg_cclk_ctrl_REG_ADDR, 0xf, div & 0xf),
{
    set_field(bus, clk_jpeg_cclk_ctrl_REG_ADDR, 0xf, div & 0xf);
}

pub fn _GET_CLOCK_DIVIDE_STATUS_clk_jpeg_cclk_(bus: &Mmio) -> (r: u32)
    ensures
        r == bus.value(clk_jpeg_cclk_ctrl_REG_ADDR as u64) & 0xf,
{
    bus.read32(clk_jpeg_cclk_ctrl_REG_ADDR as u64) & 0xf
}

pub fn _ENABLE_CLOCK_clk_jpeg_apb_(bus: &mut Mmio)
    ensures
        final(bus).state() == field_step(old(bus).state(), clk_jpeg_apb_ctrl_REG_ADDR, 0x80000000, 0x80000000),
{
    set_field(bus, clk_jpeg_apb_ctrl_REG_ADDR, 0x80000000, 0x80000000);
}

pub fn _DISABLE_CLOCK_clk_jpeg_apb_(bus: &mut Mmio)
    ensures
        final(bus).state() == field_step(old(bus).state(), clk_jpeg_apb_ctrl_REG_ADDR, 0x80000000, 0x0),
{
    set_field(bus, clk_jpeg_apb_ctrl_REG_ADDR, 0x80000000, 0x0);
}

pub fn _GET_CLOCK_ENABLE_STATUS_clk_jpeg_apb_(bus: &Mmio) -> (r: u32)
    ensures
        r == (bus.value(clk_jpeg_apb_ctrl_REG_ADDR as u64) >> 31u32) & 0x1,
{
    (bus.read32(clk_jpeg_apb_ctrl_REG_ADDR as u64) >> 31u32) & 0x1
}

pub fn _ENABLE_CLOCK_clk_gc300_2x_(bus: &mut Mmio)
    ensures
        final(bus).state() == field_step(old(bus).state(), clk_gc300_2x_ctrl_REG_ADDR, 0x80000000, 0x80000000),
{
    set_field(bus, clk_gc300_2x_ctrl_REG_ADDR, 0x80000000, 0x80000000);
}

pub fn _DISABLE_CLOCK_clk_gc300_2x_(bus: &mut Mmio)
    ensures
        final(bus).state() == field_step(old(bus).state(), clk_gc300_2x_ctrl_REG_ADDR, 0x80000000, 0x0),
{
    set_field(bus, clk_gc300_2x_ctrl_REG_ADDR, 0x80000000, 0x0);
}

pub fn _GET_CLOCK_ENABLE_STATUS_clk_gc300_2x_(bus: &Mmio) -> (r: u32)
    ensures
        r == (bus.value(clk_gc300_2x_ctrl_REG_ADDR as u64) >> 31u32) & 0x1,
{
    (bus.read32(clk_gc300_2x_ctrl_REG_ADDR as u64) >> 31u32) & 0x1
}

pub fn _DIVIDE_CLOCK_clk_gc300_2x_(bus: &mut Mmio, div: u32)
    ensures
        final(bus).state() == field_step(old(bus).state(), clk_gc300_2x_ctrl_REG_ADDR, 0xf, div & 0xf),
{
    set_field(bus, clk_gc300_2x_ctrl_REG_ADDR, 0xf, div & 0xf);
}

pub fn _GET_CLOCK_DIVIDE_STATUS_clk_gc300_2x_(bus: &Mmio) -> (r: u32)
    ensures
        r == bus.value(clk_gc300_2x_ctrl_REG_ADDR as u64) & 0xf,
{
    bus.read32(clk_gc300_2x_ctrl_REG_ADDR as u64) & 0xf
}

pub fn _ENABLE_CLOCK_clk_gc300_ahb_(bus: &mut Mmio)
    ensures
        final(bus).state() == field_step(old(bus).state(), clk_gc300_ahb_ctrl_REG_ADDR, 0x80000000, 0x80000000),
{
    set_field(bus, clk_gc300_ahb_ctrl_REG_ADDR, 0x80000000, 0x80000000);
}

pub fn _DISABLE_CLOCK_clk_gc300_ahb_(bus: &mut Mmio)
    ensures
        final(bus).state() == field_step(old(bus).state(), clk_gc300_ahb_ctrl_REG_ADDR, 0x80000000, 0x0),
{
    set_field(bus, clk_gc300_ahb_ctrl_REG_ADDR, 0x80000000, 0x0);
}

pub fn _GET_CLOCK_ENABLE_STATUS_clk_gc300_ahb_(bus: &Mmio) -> (r: u32)
    ensures
        r == (bus.value(clk_gc300_ahb_ctrl_REG_ADDR as u64) >> 31u32) & 0x1,
{
    (bus.read32(clk_gc300_ahb_ctrl_REG_ADDR as u64) >> 31u32) & 0x1
}

pub fn _ENABLE_CLOCK_clk_jpcgc300_axibus_() {
}

pub fn _DIVIDE_CLOCK_clk_jpcgc300_axibus_(bus: &mut Mmio, div: u32)
    ensures
        final(bus).state() == field_step(old(bus).state(), clk_jpcgc300_axibus_ctrl_REG_ADDR, 0xf, div & 0xf),
{
    set_field(bus, clk_jpcgc300_axibus_ctrl_REG_ADDR, 0xf, div & 0xf);
}

pub fn _GET_CLOCK_DIVIDE_STATUS_clk_jpcgc300_axibus_(bus: &Mmio) -> (r: u32)
    ensures
        r == bus.value(clk_jpcgc300_axibus_ctrl_REG_ADDR as u64) & 0xf,
{
    bus.read32(clk_jpcgc300_axibus_ctrl_REG_ADDR as u64) & 0xf
}

pub fn _ENABLE_CLOCK_clk_gc300_axi_(bus: &mut Mmio)
    ensures
        final(bus).state() == field_step(old(bus).state(), clk_gc300_axi_ctrl_REG_ADDR, 0x80000000, 0x80000000),
{
    set_field(bus, clk_gc300_axi_ctrl_REG_ADDR, 0x80000000, 0x80000000);
}

pub fn _DISABLE_CLOCK_clk_gc300_axi_(bus: &mut Mmio)
    ensures
        final(bus).state() == field_step(old(bus).state(), clk_gc300_axi_ctrl_REG_ADDR, 0x80000000, 0x0),
{
    set_field(bus, clk_gc300_axi_ctrl_REG_ADDR, 0x80000000, 0x0);
}

pub fn _GET_CLOCK_ENABLE_STATUS_clk_gc300_axi_(bus: &Mmio) -> (r: u32)
    ensures
        r == (bus.value(clk_gc300_axi_ctrl_REG_ADDR as u64) >> 31u32) & 0x1,
{
    (bus.read32(clk_gc300_axi_ctrl_REG_ADDR as u64) >> 31u32) & 0x1
}

pub fn _ENABLE_CLOCK_clk_jpcgc300_mainclk_(bus: &mut Mmio)
    ensures
        final(bus).state() == field_step(old(bus).state(), clk_jpcgc300_mainclk_ctrl_REG_ADDR, 0x80000000, 0x80000000),
{
    set_field(bus, clk_jpcgc300_mainclk_ctrl_REG_ADDR, 0x80000000, 0x80000000);
}

pub fn _DISABLE_CLOCK_clk_jpcgc300_mainclk_(bus: &mut Mmio)
    ensures
        final(bus).state() == field_step(old(bus).state(), clk_jpcgc300_mainclk_ctrl_REG_ADDR, 0x80000000, 0x0),
{
    set_field(bus, clk_jpcgc300_mainclk_ctrl_REG_ADDR, 0x80000000, 0x0);
}

pub fn _GET_CLOCK_ENABLE_STATUS_clk_jpcgc300_mainclk_(bus: &Mmio) -> (r: u32)
    ensures
        r == (bus.value(clk_jpcgc300_mainclk_ctrl_REG_ADDR as u64) >> 31u32) & 0x1,
{
    (bus.read32(clk_jpcgc300_mainclk_ctrl_REG_ADDR as u64) >> 31u32) & 0x1
}

pub fn _ENABLE_CLOCK_clk_venc_bus_() {
}

pub fn _DIVIDE_CLOCK_clk_venc_bus_(bus: &mut Mmio, div: u32)
    ensures
        final(bus).state() == field_step(old(bus).state(), clk_venc_bus_ctrl_REG_ADDR, 0xf, div & 0xf),
{
    set_field(bus, clk_venc_bus_ctrl_REG_ADDR, 0xf, div & 0xf);
}

pub fn _GET_CLOCK_DIVIDE_STATUS_clk_venc_bus_(bus: &Mmio) -> (r: u32)
    ensures
        r == bus.value(clk_venc_bus_ctrl_REG_ADDR as u64) & 0xf,
{
    bus.read32(clk_venc_bus_ctrl_REG_ADDR as u64) & 0xf
}

pub fn _ENABLE_CLOCK_clk_venc_axi_(bus: &mut Mmio)
    ensures
        final(bus).state() == field_step(old(bus).state(), clk_venc_axi_ctrl_REG_ADDR, 0x80000000, 0x80000000),
{
    set_field(bus, clk_venc_axi_ctrl_REG_ADDR, 0x80000000, 0x80000000);
}

pub fn _DISABLE_CLOCK_clk_venc_axi_(bus: &mut Mmio)
    ensures
        final(bus).state() == field_step(old(bus).state(), clk_venc_axi_ctrl_REG_ADDR, 0x80000000, 0x0),
{
    set_field(bus, clk_venc_axi_ctrl_REG_ADDR, 0x80000000, 0x0);
}

pub fn _GET_CLOCK_ENABLE_STATUS_clk_venc_axi_(bus: &Mmio) -> (r: u32)
    ensures
        r == (bus.value(clk_venc_axi_ctrl_REG_ADDR as u64) >> 31u32) & 0x1,
{
    (bus.read32(clk_venc_axi_ctrl_REG_ADDR as u64) >> 31u32) & 0x1
}

pub fn _ENABLE_CLOCK_clk_vencbrg_mainclk_(bus: &mut Mmio)
    ensures
        final(bus).state() == field_step(old(bus).state(), clk_vencbrg_mainclk_ctrl_REG_ADDR, 0x80000000, 0x80000000),
{
    set_field(bus, clk_vencbrg_mainclk_ctrl_REG_ADDR, 0x80000000, 0x80000000);
}

pub fn _DISABLE_CLOCK_clk_vencbrg_mainclk_(bus: &mut Mmio)
    ensures
        final(bus).state() == field_step(old(bus).state(), clk_vencbrg_mainclk_ctrl_REG_ADDR, 0x80000000, 0x0),
{
    set_field(bus, clk_vencbrg_mainclk_ctrl_REG_ADDR, 0x80000000, 0x0);
}

pub fn _GET_CLOCK_ENABLE_STATUS_clk_vencbrg_mainclk_(bus: &Mmio) -> (r: u32)
    ensures
        r == (bus.value(clk_vencbrg_mainclk_ctrl_REG_ADDR as u64) >> 31u32) & 0x1,
{
    (bus.read32(clk_vencbrg_mainclk_ctrl_REG_ADDR as u64) >> 31u32) & 0x1
}

pub fn _ENABLE_CLOCK_clk_venc_bclk_(bus: &mut Mmio)
    ensures
        final(bus).state() == field_step(old(bus).state(), clk_venc_bclk_ctrl_REG_ADDR, 0x80000000, 0x80000000),
{
    set_field(bus, clk_venc_bclk_ctrl_REG_ADDR, 0x80000000, 0x80000000);
}

pub fn _DISABLE_CLOCK_clk_venc_bclk_(bus: &mut Mmio)
    ensures
        final(bus).state() == field_step(old(bus).state(), clk_venc_bclk_ctrl_REG_ADDR, 0x80000000, 0x0),
{
    set_field(bus, clk_venc_bclk_ctrl_REG_ADDR, 0x80000000, 0x0);
}

pub fn _GET_CLOCK_ENABLE_STATUS_clk_venc_bclk_(bus: &Mmio) -> (r: u32)
    ensures
        r == (bus.value(clk_venc_bclk_ctrl_REG_ADDR as u64) >> 31u32) & 0x1,
{
    (bus.read32(clk_venc_bclk_ctrl_REG_ADDR as u64) >> 31u32) & 0x1
}

pub fn _DIVIDE_CLOCK_clk_venc_bclk_(bus: &mut Mmio, div: u32)
    ensures
        final(bus).state() == field_step(old(bus).state(), clk_venc_bclk_ctrl_REG_ADDR, 0xf, div & 0xf),
{
    set_field(bus, clk_venc_bclk_ctrl_REG_ADDR, 0xf, div & 0xf);
}

pub fn _GET_CLOCK_DIVIDE_STATUS_clk_venc_bclk_(bus: &Mmio) -> (r: u32)
    ensures
        r == bus.value(clk_venc_bclk_ctrl_REG_ADDR as u64) & 0xf,
{
    bus.read32(clk_venc_bclk_ctrl_REG_ADDR as u64) & 0xf
}

pub fn _ENABLE_CLOCK_clk_venc_cclk_(bus: &mut Mmio)
    ensures
        final(bus).state() == field_step(old(bus).state(), clk_venc_cclk_ctrl_REG_ADDR, 0x80000000, 0x80000000),
{
    set_field(bus, clk_venc_cclk_ctrl_REG_ADDR, 0x80000000, 0x80000000);
}

pub fn _DISABLE_CLOCK_clk_venc_cclk_(bus: &mut Mmio)
    ensures
        final(bus).state() == field_step(old(bus).state(), clk_venc_cclk_ctrl_REG_ADDR, 0x80000000, 0x0),
{
    set_field(bus, clk_venc_cclk_ctrl_REG_ADDR, 0x80000000, 0x0);
}

pub fn _GET_CLOCK_ENABLE_STATUS_clk_venc_cclk_(bus: &Mmio) -> (r: u32)
    ensures
        r == (bus.value(clk_venc_cclk_ctrl_REG_ADDR as u64) >> 31u32) & 0x1,
{
    (bus.read32(clk_venc_cclk_ctrl_REG_ADDR as u64) >> 31u32) & 0x1
}

pub fn _DIVIDE_CLOCK_clk_venc_cclk_(bus: &mut Mmio, div: u32)
    ensures
        final(bus).state() == field_step(old(bus).state(), clk_venc_cclk_ctrl_REG_ADDR, 0xf, div & 0xf),
{
    set_field(bus, clk_venc_cclk_ctrl_REG_ADDR, 0xf, div & 0xf);
}

pub fn _GET_CLOCK_DIVIDE_STATUS_clk_venc_cclk_(bus: &Mmio) -> (r: u32)
    ensures
        r == bus.value(clk_venc_cclk_ctrl_REG_ADDR as u64) & 0xf,
{
    bus.read32(clk_venc_cclk_ctrl_REG_ADDR as u64) & 0xf
}

pub fn _ENABLE_CLOCK_clk_venc_apb_(bus: &mut Mmio)
    ensures
        final(bus).state() == field_step(old(bus).state(), clk_venc_apb_ctrl_REG_ADDR, 0x80000000, 0x80000000),
{
    set_field(bus, clk_venc_apb_ctrl_REG_ADDR, 0x80000000, 0x80000000);
}

pub fn _DISABLE_CLOCK_clk_venc_apb_(bus: &mut Mmio)
    ensures
        final(bus).state() == field_step(old(bus).state(), clk_venc_apb_ctrl_REG_ADDR, 0x80000000, 0x0),
{
    set_field(bus, clk_venc_apb_ctrl_REG_ADDR, 0x80000000, 0x0);
}

pub fn _GET_CLOCK_ENABLE_STATUS_clk_venc_apb_(bus: &Mmio) -> (r: u32)
    ensures
        r == (bus.value(clk_venc_apb_ctrl_REG_ADDR as u64) >> 31u32) & 0x1,
{
    (bus.read32(clk_venc_apb_ctrl_REG_ADDR as u64) >> 31u32) & 0x1
}

pub fn _ENABLE_CLOCK_clk_ddrpll_div2_(bus: &mut Mmio)
    ensures
        final(bus).state() == field_step(old(bus).state(), clk_ddrpll_div2_ctrl_REG_ADDR, 0x80000000, 0x80000000),
{
    set_field(bus, clk_ddrpll_div2_ctrl_REG_ADDR, 0x80000000, 0x80000000);
}

pub fn _DISABLE_CLOCK_clk_ddrpll_div2_(bus: &mut Mmio)
    ensures
        final(bus).state() == field_step(old(bus).state(), clk_ddrpll_div2_ctrl_REG_ADDR, 0x80000000, 0x0),
{
    set_field(bus, clk_ddrpll_div2_ctrl_REG_ADDR, 0x80000000, 0x0);
}

pub fn _GET_CLOCK_ENABLE_STATUS_clk_ddrpll_div2_(bus: &Mmio) -> (r: u32)
    ensures
        r == (bus.value(clk_ddrpll_div2_ctrl_REG_ADDR as u64) >> 31u32) & 0x1,
{
    (bus.read32(clk_ddrpll_div2_ctrl_REG_ADDR as u64) >> 31u32) & 0x1
}

pub fn _DIVIDE_CLOCK_clk_ddrpll_div2_(bus: &mut Mmio, div: u32)
    ensures
        final(bus).state() == field_step(old(bus).state(), clk_ddrpll_div2_ctrl_REG_ADDR, 0x3, div & 0x3),
{
    set_field(bus, clk_ddrpll_div2_ctrl_REG_ADDR, 0x3, div & 0x3);
}

pub fn _GET_CLOCK_DIVIDE_STATUS_clk_ddrpll_div2_(bus: &Mmio) -> (r: u32)
    ensures
        r == bus.value(clk_ddrpll_div2_ctrl_REG_ADDR as u64) & 0x3,
{
    bus.read32(clk_ddrpll_div2_ctrl_REG_ADDR as u64) & 0x3
}

pub fn _ENABLE_CLOCK_clk_ddrpll_div4_(bus: &mut Mmio)
    ensures
        final(bus).state() == field_step(old(bus).state(), clk_ddrpll_div4_ctrl_REG_ADDR, 0x80000000, 0x80000000),
{
    set_field(bus, clk_ddrpll_div4_ctrl_REG_ADDR, 0x80000000, 0x80000000);
}

pub fn _DISABLE_CLOCK_clk_ddrpll_div4_(bus: &mut Mmio)
    ensures
        final(bus).state() == field_step(old(bus).state(), clk_ddrpll_div4_ctrl_REG_ADDR, 0x80000000, 0x0),
{
    set_field(bus, clk_ddrpll_div4_ctrl_REG_ADDR, 0x80000000, 0x0);
}

pub fn _GET_CLOCK_ENABLE_STATUS_clk_ddrpll_div4_(bus: &Mmio) -> (r: u32)
    ensures
        r == (bus.value(clk_ddrpll_div4_ctrl_REG_ADDR as u64) >> 31u32) & 0x1,
{
    (bus.read32(clk_ddrpll_div4_ctrl_REG_ADDR as u64) >> 31u32) & 0x1
}

pub fn _DIVIDE_CLOCK_clk_ddrpll_div4_(bus: &mut Mmio, div: u32)
    ensures
        final(bus).state() == field_step(old(bus).state(), clk_ddrpll_div4_ctrl_REG_ADDR, 0x3, div & 0x3),
{
    set_field(bus, clk_ddrpll_div4_ctrl_REG_ADDR, 0x3, div & 0x3);
}

pub fn _GET_CLOCK_DIVIDE_STATUS_clk_ddrpll_div4_(bus: &Mmio) -> (r: u32)
    ensures
        r == bus.value(clk_ddrpll_div4_ctrl_REG_ADDR as u64) & 0x3,
{
    bus.read32(clk_ddrpll_div4_ctrl_REG_ADDR as u64) & 0x3
}

pub fn _ENABLE_CLOCK_clk_ddrpll_div8_(bus: &mut Mmio)
    ensures
        final(bus).state() == field_step(old(bus).state(), clk_ddrpll_div8_ctrl_REG_ADDR, 0x80000000, 0x80000000),
{
    set_field(bus, clk_ddrpll_div8_ctrl_REG_ADDR, 0x80000000, 0x80000000);
}

pub fn _DISABLE_CLOCK_clk_ddrpll_div8_(bus: &mut Mmio)
    ensures
        final(bus).state() == field_step(old(bus).state(), clk_ddrpll_div8_ctrl_REG_ADDR, 0x80000000, 0x0),
{
    set_field(bus, clk_ddrpll_div8_ctrl_REG_ADDR, 0x80000000, 0x0);
}

pub fn _GET_CLOCK_ENABLE_STATUS_clk_ddrpll_div8_(bus: &Mmio) -> (r: u32)
    ensures
        r == (bus.value(clk_ddrpll_div8_ctrl_REG_ADDR as u64) >> 31u32) & 0x1,
{
    (bus.read32(clk_ddrpll_div8_ctrl_REG_ADDR as u64) >> 31u32) & 0x1
}

pub fn _DIVIDE_CLOCK_clk_ddrpll_div8_(bus: &mut Mmio, div: u32)
    ensures
        final(bus).state() == field_step(old(bus).state(), clk_ddrpll_div8_ctrl_REG_ADDR, 0x3, div & 0x3),
{
    set_field(bus, clk_ddrpll_div8_ctrl_REG_ADDR, 0x3, div & 0x3);
}

pub fn _GET_CLOCK_DIVIDE_STATUS_clk_ddrpll_div8_(bus: &Mmio) -> (r: u32)
    ensures
        r == bus.value(clk_ddrpll_div8_ctrl_REG_ADDR as u64) & 0x3,
{
    bus.read32(clk_ddrpll_div8_ctrl_REG_ADDR as u64) & 0x3
}

pub fn _ENABLE_CLOCK_clk_ddrosc_div2_(bus: &mut Mmio)
    ensures
        final(bus).state() == field_step(old(bus).state(), clk_ddrosc_div2_ctrl_REG_ADDR, 0x80000000, 0x80000000),
{
    set_field(bus, clk_ddrosc_div2_ctrl_REG_ADDR, 0x80000000, 0x80000000);
}

pub fn _DISABLE_CLOCK_clk_ddrosc_div2_(bus: &mut Mmio)
    ensures
        final(bus).state() == field_step(old(bus).state(), clk_ddrosc_div2_ctrl_REG_ADDR, 0x80000000, 0x0),
{
    set_field(bus, clk_ddrosc_div2_ctrl_REG_ADDR, 0x80000000, 0x0);
}

pub fn _GET_CLOCK_ENABLE_STATUS_clk_ddrosc_div2_(bus: &Mmio) -> (r: u32)
    ensures
        r == (bus.value(clk_ddrosc_div2_ctrl_REG_ADDR as u64) >> 31u32) & 0x1,
{
    (bus.read32(clk_ddrosc_div2_ctrl_REG_ADDR as u64) >> 31u32) & 0x1
}

pub fn _DIVIDE_CLOCK_clk_ddrosc_div2_(bus: &mut Mmio, div: u32)
    ensures
        final(bus).state() == field_step(old(bus).state(), clk_ddrosc_div2_ctrl_REG_ADDR, 0x3, div & 0x3),
{
    set_field(bus, clk_ddrosc_div2_ctrl_REG_ADDR, 0x3, div & 0x3);
}

pub fn _GET_CLOCK_DIVIDE_STATUS_clk_ddrosc_div2_(bus: &Mmio) -> (r: u32)
    ensures
        r == bus.value(clk_ddrosc_div2_ctrl_REG_ADDR as u64) & 0x3,
{
    bus.read32(clk_ddrosc_div2_ctrl_REG_ADDR as u64) & 0x3
}

pub fn _ENABLE_CLOCK_clk_ddrc0_(bus: &mut Mmio)
    ensures
        final(bus).state() == field_step(old(bus).state(), clk_ddrc0_ctrl_REG_ADDR, 0x80000000, 0x80000000),
{
    set_field(bus, clk_ddrc0_ctrl_REG_ADDR, 0x80000000, 0x80000000);
}

pub fn _DISABLE_CLOCK_clk_ddrc0_(bus: &mut Mmio)
    ensures
        final(bus).state() == field_step(old(bus).state(), clk_ddrc0_ctrl_REG_ADDR, 0x80000000, 0x0),
{
    set_field(bus, clk_ddrc0_ctrl_REG_ADDR, 0x80000000, 0x0);
}

pub fn _GET_CLOCK_ENABLE_STATUS_clk_ddrc0_(bus: &Mmio) -> (r: u32)
    ensures
        r == (bus.value(clk_ddrc0_ctrl_REG_ADDR as u64) >> 31u32) & 0x1,
{
    (bus.read32(clk_ddrc0_ctrl_REG_ADDR as u64) >> 31u32) & 0x1
}

pub fn _SWITCH_CLOCK_clk_ddrc0_SOURCE_clk_ddrosc_div2_(bus: &mut Mmio)
    ensures
        final(bus).state() == field_step(old(bus).state(), clk_ddrc0_ctrl_REG_ADDR, 0x3000000, 0x0),
{
    set_field(bus, clk_ddrc0_ctrl_REG_ADDR, 0x3000000, 0x0);
}

pub fn _SWITCH_CLOCK_clk_ddrc0_SOURCE_clk_ddrpll_div2_(bus: &mut Mmio)
    ensures
        final(bus).state() == field_step(old(bus).state(), clk_ddrc0_ctrl_REG_ADDR, 0x3000000, 0x1000000),
{
    set_field(bus, clk_ddrc0_ctrl_REG_ADDR, 0x3000000, 0x1000000);
}

pub fn _SWITCH_CLOCK_clk_ddrc0_SOURCE_clk_ddrpll_div4_(bus: &mut Mmio)
    ensures
        final(bus).state() == field_step(old(bus).state(), clk_ddrc0_ctrl_REG_ADDR, 0x3000000, 0x2000000),
{
    set_field(bus, clk_ddrc0_ctrl_REG_ADDR, 0x3000000, 0x2000000);
}

pub fn _SWITCH_CLOCK_clk_ddrc0_SOURCE_clk_ddrpll_div8_(bus: &mut Mmio)
    ensures
        final(bus).state() == field_step(old(bus).state(), clk_ddrc0_ctrl_REG_ADDR, 0x3000000, 0x3000000),
{
    set_field(bus, clk_ddrc0_ctrl_REG_ADDR, 0x3000000, 0x3000000);
}

pub fn _GET_CLOCK_SOURCE_STATUS_clk_ddrc0_(bus: &Mmio) -> (r: u32)
    ensures
        r == (bus.value(clk_ddrc0_ctrl_REG_ADDR as u64) >> 24u32) & 0x3,
{
    (bus.read32(clk_ddrc0_ctrl_REG_ADDR as u64) >> 24u32) & 0x3
}

pub fn _ENABLE_CLOCK_clk_ddrc1_(bus: &mut Mmio)
    ensures
        final(bus).state() == field_step(old(bus).state(), clk_ddrc1_ctrl_REG_ADDR, 0x80000000, 0x80000000),
{
    set_field(bus, clk_ddrc1_ctrl_REG_ADDR, 0x80000000, 0x80000000);
}

pub fn _DISABLE_CLOCK_clk_ddrc1_(bus: &mut Mmio)
    ensures
        final(bus).state() == field_step(old(bus).state(), clk_ddrc1_ctrl_REG_ADDR, 0x80000000, 0x0),
{
    set_field(bus, clk_ddrc1_ctrl_REG_ADDR, 0x80000000, 0x0);
}

pub fn _GET_CLOCK_ENABLE_STATUS_clk_ddrc1_(bus: &Mmio) -> (r: u32)
    ensures
        r == (bus.value(clk_ddrc1_ctrl_REG_ADDR as u64) >> 31u32) & 0x1,
{
    (bus.read32(clk_ddrc1_ctrl_REG_ADDR as u64) >> 31u32) & 0x1
}

pub fn _SWITCH_CLOCK_clk_ddrc1_SOURCE_clk_ddrosc_div2_(bus: &mut Mmio)
    ensures
        final(bus).state() == field_step(old(bus).state(), clk_ddrc1_ctrl_REG_ADDR, 0x3000000, 0x0),
{
    set_field(bus, clk_ddrc1_ctrl_REG_ADDR, 0x3000000, 0x0);
}

pub fn _SWITCH_CLOCK_clk_ddrc1_SOURCE_clk_ddrpll_div2_(bus: &mut Mmio)
    ensures
        final(bus).state() == field_step(old(bus).state(), clk_ddrc1_ctrl_REG_ADDR, 0x3000000, 0x1000000),
{
    set_field(bus, clk_ddrc1_ctrl_REG_ADDR, 0x3000000, 0x1000000);
}

pub fn _SWITCH_CLOCK_clk_ddrc1_SOURCE_clk_ddrpll_div4_(bus: &mut Mmio)
    ensures
        final(bus).state() == field_step(old(bus).state(), clk_ddrc1_ctrl_REG_ADDR, 0x3000000, 0x2000000),
{
    set_field(bus, clk_ddrc1_ctrl_REG_ADDR, 0x3000000, 0x2000000);
}

pub fn _SWITCH_CLOCK_clk_ddrc1_SOURCE_clk_ddrpll_div8_(bus: &mut Mmio)
    ensures
        final(bus).state() == field_step(old(bus).state(), clk_ddrc1_ctrl_REG_ADDR, 0x3000000, 0x3000000),
{
    set_field(bus, clk_ddrc1_ctrl_REG_ADDR, 0x3000000, 0x3000000);
}

pub fn _GET_CLOCK_SOURCE_STATUS_clk_ddrc1_(bus: &Mmio) -> (r: u32)
    ensures
        r == (bus.value(clk_ddrc1_ctrl_REG_ADDR as u64) >> 24u32) & 0x3,
{
    (bus.read32(clk_ddrc1_ctrl_REG_ADDR as u64) >> 24u32) & 0x3
}

pub fn _ENABLE_CLOCK_clk_ddrphy_apb_(bus: &mut Mmio)
    ensures
        final(bus).state() == field_step(old(bus).state(), clk_ddrphy_apb_ctrl_REG_ADDR, 0x80000000, 0x80000000),
{
    set_field(bus, clk_ddrphy_apb_ctrl_REG_ADDR, 0x80000000, 0x80000000);
}

pub fn _DISABLE_CLOCK_clk_ddrphy_apb_(bus: &mut Mmio)
    ensures
        final(bus).state() == field_step(old(bus).state(), clk_ddrphy_apb_ctrl_REG_ADDR, 0x80000000, 0x0),
{
    set_field(bus, clk_ddrphy_apb_ctrl_REG_ADDR, 0x80000000, 0x0);
}

pub fn _GET_CLOCK_ENABLE_STATUS_clk_ddrphy_apb_(bus: &Mmio) -> (r: u32)
    ensures
        r == (bus.value(clk_ddrphy_apb_ctrl_REG_ADDR as u64) >> 31u32) & 0x1,
{
    (bus.read32(clk_ddrphy_apb_ctrl_REG_ADDR as u64) >> 31u32) & 0x1
}

pub fn _ENABLE_CLOCK_clk_noc_rob_() {
}

pub fn _DIVIDE_CLOCK_clk_noc_rob_(bus: &mut Mmio, div: u32)
    ensures
        final(bus).state() == field_step(old(bus).state(), clk_noc_rob_ctrl_REG_ADDR, 0xf, div & 0xf),
{
    set_field(bus, clk_noc_rob_ctrl_REG_ADDR, 0xf, div & 0xf);
}

pub fn _GET_CLOCK_DIVIDE_STATUS_clk_noc_rob_(bus: &Mmio) -> (r: u32)
    ensures
        r == bus.value(clk_noc_rob_ctrl_REG_ADDR as u64) & 0xf,
{
    bus.read32(clk_noc_rob_ctrl_REG_ADDR as u64) & 0xf
}

pub fn _ENABLE_CLOCK_clk_noc_cog_() {
}

pub fn _DIVIDE_CLOCK_clk_noc_cog_(bus: &mut Mmio, div: u32)
    ensures
        final(bus).state() == field_step(old(bus).state(), clk_noc_cog_ctrl_REG_ADDR, 0xf, div & 0xf),
{
    set_field(bus, clk_noc_cog_ctrl_REG_ADDR, 0xf, div & 0xf);
}

pub fn _GET_CLOCK_DIVIDE_STATUS_clk_noc_cog_(bus: &Mmio) -> (r: u32)
    ensures
        r == bus.value(clk_noc_cog_ctrl_REG_ADDR as u64) & 0xf,
{
    bus.read32(clk_noc_cog_ctrl_REG_ADDR as u64) & 0xf
}

pub fn _ENABLE_CLOCK_clk_nne_ahb_(bus: &mut Mmio)
    ensures
        final(bus).state() == field_step(old(bus).state(), clk_nne_ahb_ctrl_REG_ADDR, 0x80000000, 0x80000000),
{
    set_field(bus, clk_nne_ahb_ctrl_REG_ADDR, 0x80000000, 0x80000000);
}

pub fn _DISABLE_CLOCK_clk_nne_ahb_(bus: &mut Mmio)
    ensures
        final(bus).state() == field_step(old(bus).state(), clk_nne_ahb_ctrl_REG_ADDR, 0x80000000, 0x0),
{
    set_field(bus, clk_nne_ahb_ctrl_REG_ADDR, 0x80000000, 0x0);
}

pub fn _GET_CLOCK_ENABLE_STATUS_clk_nne_ahb_(bus: &Mmio) -> (r: u32)
    ensures
        r == (bus.value(clk_nne_ahb_ctrl_REG_ADDR as u64) >> 31u32) & 0x1,
{
    (bus.read32(clk_nne_ahb_ctrl_REG_ADDR as u64) >> 31u32) & 0x1
}

pub fn _ENABLE_CLOCK_clk_nnebus_src1_() {
}

pub fn _DIVIDE_CLOCK_clk_nnebus_src1_(bus: &mut Mmio, div: u32)
    ensures
        final(bus).state() == field_step(old(bus).state(), clk_nnebus_src1_ctrl_REG_ADDR, 0x7, div & 0x7),
{
    set_field(bus, clk_nnebus_src1_ctrl_REG_ADDR, 0x7, div & 0x7);
}

pub fn _GET_CLOCK_DIVIDE_STATUS_clk_nnebus_src1_(bus: &Mmio) -> (r: u32)
    ensures
        r == bus.value(clk_nnebus_src1_ctrl_REG_ADDR as u64) & 0x7,
{
    bus.read32(clk_nnebus_src1_ctrl_REG_ADDR as u64) & 0x7
}

pub fn _ENABLE_CLOCK_clk_nne_bus_() {
}

pub fn _SWITCH_CLOCK_clk_nne_bus_SOURCE_clk_cpu_axi_(bus: &mut Mmio)
    ensures
        final(bus).state() == field_step(old(bus).state(), clk_nne_bus_ctrl_REG_ADDR, 0x1000000, 0x0),
{
    set_field(bus, clk_nne_bus_ctrl_REG_ADDR, 0x1000000, 0x0);
}

pub fn _SWITCH_CLOCK_clk_nne_bus_SOURCE_clk_nnebus_src1_(bus: &mut Mmio)
    ensures
        final(bus).state() == field_step(old(bus).state(), clk_nne_bus_ctrl_REG_ADDR, 0x1000000, 0x1000000),
{
    set_field(bus, clk_nne_bus_ctrl_REG_ADDR, 0x1000000, 0x1000000);
}

pub fn _GET_CLOCK_SOURCE_STATUS_clk_nne_bus_(bus: &Mmio) -> (r: u32)
    ensures
        r == (bus.value(clk_nne_bus_ctrl_REG_ADDR as u64) >> 24u32) & 0x1,
{
    (bus.read32(clk_nne_bus_ctrl_REG_ADDR as u64) >> 24u32) & 0x1
}

pub fn _ENABLE_CLOCK_clk_nne_axi_(bus: &mut Mmio)
    ensures
        final(bus).state() == field_step(old(bus).state(), clk_nne_axi_ctrl_REG_ADDR, 0x80000000, 0x80000000),
{
    set_field(bus, clk_nne_axi_ctrl_REG_ADDR, 0x80000000, 0x80000000);
}

pub fn _DISABLE_CLOCK_clk_nne_axi_(bus: &mut Mmio)
    ensures
        final(bus).state() == field_step(old(bus).state(), clk_nne_axi_ctrl_REG_ADDR, 0x80000000, 0x0),
{
    set_field(bus, clk_nne_axi_ctrl_REG_ADDR, 0x80000000, 0x0);
}

pub fn _GET_CLOCK_ENABLE_STATUS_clk_nne_axi_(bus: &Mmio) -> (r: u32)
    ensures
        r == (bus.value(clk_nne_axi_ctrl_REG_ADDR as u64) >> 31u32) & 0x1,
{
    (bus.read32(clk_nne_axi_ctrl_REG_ADDR as u64) >> 31u32) & 0x1
}

pub fn _ENABLE_CLOCK_clk_nnenoc_axi_(bus: &mut Mmio)
    ensures
        final(bus).state() == field_step(old(bus).state(), clk_nnenoc_axi_ctrl_REG_ADDR, 0x80000000, 0x80000000),
{
    set_field(bus, clk_nnenoc_axi_ctrl_REG_ADDR, 0x80000000, 0x80000000);
}

pub fn _DISABLE_CLOCK_clk_nnenoc_axi_(bus: &mut Mmio)
    ensures
        final(bus).state() == field_step(old(bus).state(), clk_nnenoc_axi_ctrl_REG_ADDR, 0x80000000, 0x0),
{
    set_field(bus, clk_nnenoc_axi_ctrl_REG_ADDR, 0x80000000, 0x0);
}

pub fn _GET_CLOCK_ENABLE_STATUS_clk_nnenoc_axi_(bus: &Mmio) -> (r: u32)
    ensures
        r == (bus.value(clk_nnenoc_axi_ctrl_REG_ADDR as u64) >> 31u32) & 0x1,
{
    (bus.read32(clk_nnenoc_axi_ctrl_REG_ADDR as u64) >> 31u32) & 0x1
}

pub fn _ENABLE_CLOCK_clk_dlaslv_axi_(bus: &mut Mmio)
    ensures
        final(bus).state() == field_step(old(bus).state(), clk_dlaslv_axi_ctrl_REG_ADDR, 0x80000000, 0x80000000),
{
    set_field(bus, clk_dlaslv_axi_ctrl_REG_ADDR, 0x80000000, 0x80000000);
}

pub fn _DISABLE_CLOCK_clk_dlaslv_axi_(bus: &mut Mmio)
    ensures
        final(bus).state() == field_step(old(bus).state(), clk_dlaslv_axi_ctrl_REG_ADDR, 0x80000000, 0x0),
{
    set_field(bus, clk_dlaslv_axi_ctrl_REG_ADDR, 0x80000000, 0x0);
}

pub fn _GET_CLOCK_ENABLE_STATUS_clk_dlaslv_axi_(bus: &Mmio) -> (r: u32)
    ensures
        r == (bus.value(clk_dlaslv_axi_ctrl_REG_ADDR as u64) >> 31u32) & 0x1,
{
    (bus.read32(clk_dlaslv_axi_ctrl_REG_ADDR as u64) >> 31u32) & 0x1
}

pub fn _ENABLE_CLOCK_clk_dspx2c_axi_(bus: &mut Mmio)
    ensures
        final(bus).state() == field_step(old(bus).state(), clk_dspx2c_axi_ctrl_REG_ADDR, 0x80000000, 0x80000000),
{
    set_field(bus, clk_dspx2c_axi_ctrl_REG_ADDR, 0x80000000, 0x80000000);
}

pub fn _DISABLE_CLOCK_clk_dspx2c_axi_(bus: &mut Mmio)
    ensures
        final(bus).state() == field_step(old(bus).state(), clk_dspx2c_axi_ctrl_REG_ADDR, 0x80000000, 0x0),
{
    set_field(bus, clk_dspx2c_axi_ctrl_REG_ADDR, 0x80000000, 0x0);
}

pub fn _GET_CLOCK_ENABLE_STATUS_clk_dspx2c_axi_(bus: &Mmio) -> (r: u32)
    ensures
        r == (bus.value(clk_dspx2c_axi_ctrl_REG_ADDR as u64) >> 31u32) & 0x1,
{
    (bus.read32(clk_dspx2c_axi_ctrl_REG_ADDR as u64) >> 31u32) & 0x1
}

pub fn _ENABLE_CLOCK_clk_hifi4_src_() {
}

pub fn _DIVIDE_CLOCK_clk_hifi4_src_(bus: &mut Mmio, div: u32)
    ensures
        final(bus).state() == field_step(old(bus).state(), clk_hifi4_src_ctrl_REG_ADDR, 0x7, div & 0x7),
{
    set_field(bus, clk_hifi4_src_ctrl_REG_ADDR, 0x7, div & 0x7);
}

pub fn _GET_CLOCK_DIVIDE_STATUS_clk_hifi4_src_(bus: &Mmio) -> (r: u32)
    ensures
        r == bus.value(clk_hifi4_src_ctrl_REG_ADDR as u64) & 0x7,
{
    bus.read32(clk_hifi4_src_ctrl_REG_ADDR as u64) & 0x7
}

pub fn _ENABLE_CLOCK_clk_hifi4_corefree_() {
}

pub fn _DIVIDE_CLOCK_clk_hifi4_corefree_(bus: &mut Mmio, div: u32)
    ensures
        final(bus).state() == field_step(old(bus).state(), clk_hifi4_corefree_ctrl_REG_ADDR, 0xf, div & 0xf),
{
    set_field(bus, clk_hifi4_corefree_ctrl_REG_ADDR, 0xf, div & 0xf);
}

pub fn _GET_CLOCK_DIVIDE_STATUS_clk_hifi4_corefree_(bus: &Mmio) -> (r: u32)
    ensures
        r == bus.value(clk_hifi4_corefree_ctrl_REG_ADDR as u64) & 0xf,
{
    bus.read32(clk_hifi4_corefree_ctrl_REG_ADDR as u64) & 0xf
}

pub fn _ENABLE_CLOCK_clk_hifi4_core_(bus: &mut Mmio)
    ensures
        final(bus).state() == field_step(old(bus).state(), clk_hifi4_core_ctrl_REG_ADDR, 0x80000000, 0x80000000),
{
    set_field(bus, clk_hifi4_core_ctrl_REG_ADDR, 0x80000000, 0x80000000);
}

pub fn _DISABLE_CLOCK_clk_hifi4_core_(bus: &mut Mmio)
    ensures
        final(bus).state() == field_step(old(bus).state(), clk_hifi4_core_ctrl_REG_ADDR, 0x80000000, 0x0),
{
    set_field(bus, clk_hifi4_core_ctrl_REG_ADDR, 0x80000000, 0x0);
}

pub fn _GET_CLOCK_ENABLE_STATUS_clk_hifi4_core_(bus: &Mmio) -> (r: u32)
    ensures
        r == (bus.value(clk_hifi4_core_ctrl_REG_ADDR as u64) >> 31u32) & 0x1,
{
    (bus.read32(clk_hifi4_core_ctrl_REG_ADDR as u64) >> 31u32) & 0x1
}

pub fn _ENABLE_CLOCK_clk_hifi4_bus_() {
}

pub fn _DIVIDE_CLOCK_clk_hifi4_bus_(bus: &mut Mmio, div: u32)
    ensures
        final(bus).state() == field_step(old(bus).state(), clk_hifi4_bus_ctrl_REG_ADDR, 0xf, div & 0xf),
{
    set_field(bus, clk_hifi4_bus_ctrl_REG_ADDR, 0xf, div & 0xf);
}

pub fn _GET_CLOCK_DIVIDE_STATUS_clk_hifi4_bus_(bus: &Mmio) -> (r: u32)
    ensures
        r == bus.value(clk_hifi4_bus_ctrl_REG_ADDR as u64) & 0xf,
{
    bus.read32(clk_hifi4_bus_ctrl_REG_ADDR as u64) & 0xf
}

pub fn _ENABLE_CLOCK_clk_hifi4_axi_(bus: &mut Mmio)
    ensures
        final(bus).state() == field_step(old(bus).state(), clk_hifi4_axi_ctrl_REG_ADDR, 0x80000000, 0x80000000),
{
    set_field(bus, clk_hifi4_axi_ctrl_REG_ADDR, 0x80000000, 0x80000000);
}

pub fn _DISABLE_CLOCK_clk_hifi4_axi_(bus: &mut Mmio)
    ensures
        final(bus).state() == field_step(old(bus).state(), clk_hifi4_axi_ctrl_REG_ADDR, 0x80000000, 0x0),
{
    set_field(bus, clk_hifi4_axi_ctrl_REG_ADDR, 0x80000000, 0x0);
}

pub fn _GET_CLOCK_ENABLE_STATUS_clk_hifi4_axi_(bus: &Mmio) -> (r: u32)
    ensures
        r == (bus.value(clk_hifi4_axi_ctrl_REG_ADDR as u64) >> 31u32) & 0x1,
{
    (bus.read32(clk_hifi4_axi_ctrl_REG_ADDR as u64) >> 31u32) & 0x1
}

pub fn _ENABLE_CLOCK_clk_hifi4noc_axi_(bus: &mut Mmio)
    ensures
        final(bus).state() == field_step(old(bus).state(), clk_hifi4noc_axi_ctrl_REG_ADDR, 0x80000000, 0x80000000),
{
    set_field(bus, clk_hifi4noc_axi_ctrl_REG_ADDR, 0x80000000, 0x80000000);
}

pub fn _DISABLE_CLOCK_clk_hifi4noc_axi_(bus: &mut Mmio)
    ensures
        final(bus).state() == field_step(old(bus).state(), clk_hifi4noc_axi_ctrl_REG_ADDR, 0x80000000, 0x0),
{
    set_field(bus, clk_hifi4noc_axi_ctrl_REG_ADDR, 0x80000000, 0x0);
}

pub fn _GET_CLOCK_ENABLE_STATUS_clk_hifi4noc_axi_(bus: &Mmio) -> (r: u32)
    ensures
        r == (bus.value(clk_hifi4noc_axi_ctrl_REG_ADDR as u64) >> 31u32) & 0x1,
{
    (bus.read32(clk_hifi4noc_axi_ctrl_REG_ADDR as u64) >> 31u32) & 0x1
}

pub fn _ENABLE_CLOCK_clk_sgdma1p_bus_() {
}

pub fn _DIVIDE_CLOCK_clk_sgdma1p_bus_(bus: &mut Mmio, div: u32)
    ensures
        final(bus).state() == field_step(old(bus).state(), clk_sgdma1p_bus_ctrl_REG_ADDR, 0xf, div & 0xf),
{
    set_field(bus, clk_sgdma1p_bus_ctrl_REG_ADDR, 0xf, div & 0xf);
}

pub fn _GET_CLOCK_DIVIDE_STATUS_clk_sgdma1p_bus_(bus: &Mmio) -> (r: u32)
    ensures
        r == bus.value(clk_sgdma1p_bus_ctrl_REG_ADDR as u64) & 0xf,
{
    bus.read32(clk_sgdma1p_bus_ctrl_REG_ADDR as u64) & 0xf
}

pub fn _ENABLE_CLOCK_clk_sgdma1p_axi_(bus: &mut Mmio)
    ensures
        final(bus).state() == field_step(old(bus).state(), clk_sgdma1p_axi_ctrl_REG_ADDR, 0x80000000, 0x80000000),
{
    set_field(bus, clk_sgdma1p_axi_ctrl_REG_ADDR, 0x80000000, 0x80000000);
}

pub fn _DISABLE_CLOCK_clk_sgdma1p_axi_(bus: &mut Mmio)
    ensures
        final(bus).state() == field_step(old(bus).state(), clk_sgdma1p_axi_ctrl_REG_ADDR, 0x80000000, 0x0),
{
    set_field(bus, clk_sgdma1p_axi_ctrl_REG_ADDR, 0x80000000, 0x0);
}

pub fn _GET_CLOCK_ENABLE_STATUS_clk_sgdma1p_axi_(bus: &Mmio) -> (r: u32)
    ensures
        r == (bus.value(clk_sgdma1p_axi_ctrl_REG_ADDR as u64) >> 31u32) & 0x1,
{
    (bus.read32(clk_sgdma1p_axi_ctrl_REG_ADDR as u64) >> 31u32) & 0x1
}

pub fn _ENABLE_CLOCK_clk_dma1p_axi_(bus: &mut Mmio)
    ensures
        final(bus).state() == field_step(old(bus).state(), clk_dma1p_axi_ctrl_REG_ADDR, 0x80000000, 0x80000000),
{
    set_field(bus, clk_dma1p_axi_ctrl_REG_ADDR, 0x80000000, 0x80000000);
}

pub fn _DISABLE_CLOCK_clk_dma1p_axi_(bus: &mut Mmio)
    ensures
        final(bus).state() == field_step(old(bus).state(), clk_dma1p_axi_ctrl_REG_ADDR, 0x80000000, 0x0),
{
    set_field(bus, clk_dma1p_axi_ctrl_REG_ADDR, 0x80000000, 0x0);
}

pub fn _GET_CLOCK_ENABLE_STATUS_clk_dma1p_axi_(bus: &Mmio) -> (r: u32)
    ensures
        r == (bus.value(clk_dma1p_axi_ctrl_REG_ADDR as u64) >> 31u32) & 0x1,
{
    (bus.read32(clk_dma1p_axi_ctrl_REG_ADDR as u64) >> 31u32) & 0x1
}

pub fn _ENABLE_CLOCK_clk_x2c_axi_(bus: &mut Mmio)
    ensures
        final(bus).state() == field_step(old(bus).state(), clk_x2c_axi_ctrl_REG_ADDR, 0x80000000, 0x80000000),
{
    set_field(bus, clk_x2c_axi_ctrl_REG_ADDR, 0x80000000, 0x80000000);
}

pub fn _DISABLE_CLOCK_clk_x2c_axi_(bus: &mut Mmio)
    ensures
        final(bus).state() == field_step(old(bus).state(), clk_x2c_axi_ctrl_REG_ADDR, 0x80000000, 0x0),
{
    set_field(bus, clk_x2c_axi_ctrl_REG_ADDR, 0x80000000, 0x0);
}

pub fn _GET_CLOCK_ENABLE_STATUS_clk_x2c_axi_(bus: &Mmio) -> (r: u32)
    ensures
        r == (bus.value(clk_x2c_axi_ctrl_REG_ADDR as u64) >> 31u32) & 0x1,
{
    (bus.read32(clk_x2c_axi_ctrl_REG_ADDR as u64) >> 31u32) & 0x1
}

pub fn _DIVIDE_CLOCK_clk_x2c_axi_(bus: &mut Mmio, div: u32)
    ensures
        final(bus).state() == field_step(old(bus).state(), clk_x2c_axi_ctrl_REG_ADDR, 0xf, div & 0xf),
{
    set_field(bus, clk_x2c_axi_ctrl_REG_ADDR, 0xf, div & 0xf);
}

pub fn _GET_CLOCK_DIVIDE_STATUS_clk_x2c_axi_(bus: &Mmio) -> (r: u32)
    ensures
        r == bus.value(clk_x2c_axi_ctrl_REG_ADDR as u64) & 0xf,
{
    bus.read32(clk_x2c_axi_ctrl_REG_ADDR as u64) & 0xf
}

pub fn _ENABLE_CLOCK_clk_usb_bus_() {
}

pub fn _DIVIDE_CLOCK_clk_usb_bus_(bus: &mut Mmio, div: u32)
    ensures
        final(bus).state() == field_step(old(bus).state(), clk_usb_bus_ctrl_REG_ADDR, 0xf, div & 0xf),
{
    set_field(bus, clk_usb_bus_ctrl_REG_ADDR, 0xf, div & 0xf);
}

pub fn _GET_CLOCK_DIVIDE_STATUS_clk_usb_bus_(bus: &Mmio) -> (r: u32)
    ensures
        r == bus.value(clk_usb_bus_ctrl_REG_ADDR as u64) & 0xf,
{
    bus.read32(clk_usb_bus_ctrl_REG_ADDR as u64) & 0xf
}

pub fn _ENABLE_CLOCK_clk_usb_axi_(bus: &mut Mmio)
    ensures
        final(bus).state() == field_step(old(bus).state(), clk_usb_axi_ctrl_REG_ADDR, 0x80000000, 0x80000000),
{
    set_field(bus, clk_usb_axi_ctrl_REG_ADDR, 0x80000000, 0x80000000);
}

pub fn _DISABLE_CLOCK_clk_usb_axi_(bus: &mut Mmio)
    ensures
        final(bus).state() == field_step(old(bus).state(), clk_usb_axi_ctrl_REG_ADDR, 0x80000000, 0x0),
{
    set_field(bus, clk_usb_axi_ctrl_REG_ADDR, 0x80000000, 0x0);
}

pub fn _GET_CLOCK_ENABLE_STATUS_clk_usb_axi_(bus: &Mmio) -> (r: u32)
    ensures
        r == (bus.value(clk_usb_axi_ctrl_REG_ADDR as u64) >> 31u32) & 0x1,
{
    (bus.read32(clk_usb_axi_ctrl_REG_ADDR as u64) >> 31u32) & 0x1
}

pub fn _ENABLE_CLOCK_clk_usbnoc_axi_(bus: &mut Mmio)
    ensures
        final(bus).state() == field_step(old(bus).state(), clk_usbnoc_axi_ctrl_REG_ADDR, 0x80000000, 0x80000000),
{
    set_field(bus, clk_usbnoc_axi_ctrl_REG_ADDR, 0x80000000, 0x80000000);
}

pub fn _DISABLE_CLOCK_clk_usbnoc_axi_(bus: &mut Mmio)
    ensures
        final(bus).state() == field_step(old(bus).state(), clk_usbnoc_axi_ctrl_REG_ADDR, 0x80000000, 0x0),
{
    set_field(bus, clk_usbnoc_axi_ctrl_REG_ADDR, 0x80000000, 0x0);
}

pub fn _GET_CLOCK_ENABLE_STATUS_clk_usbnoc_axi_(bus: &Mmio) -> (r: u32)
    ensures
        r == (bus.value(clk_usbnoc_axi_ctrl_REG_ADDR as u64) >> 31u32) & 0x1,
{
    (bus.read32(clk_usbnoc_axi_ctrl_REG_ADDR as u64) >> 31u32) & 0x1
}

pub fn _ENABLE_CLOCK_clk_usbphy_rootdiv_() {
}

pub fn _DIVIDE_CLOCK_clk_usbphy_rootdiv_(bus: &mut Mmio, div: u32)
    ensures
        final(bus).state() == field_step(old(bus).state(), clk_usbphy_rootdiv_ctrl_REG_ADDR, 0x7, div & 0x7),
{
    set_field(bus, clk_usbphy_rootdiv_ctrl_REG_ADDR, 0x7, div & 0x7);
}

pub fn _GET_CLOCK_DIVIDE_STATUS_clk_usbphy_rootdiv_(bus: &Mmio) -> (r: u32)
    ensures
        r == bus.value(clk_usbphy_rootdiv_ctrl_REG_ADDR as u64) & 0x7,
{
    bus.read32(clk_usbphy_rootdiv_ctrl_REG_ADDR as u64) & 0x7
}

pub fn _ENABLE_CLOCK_clk_usbphy_125m_(bus: &mut Mmio)
    ensures
        final(bus).state() == field_step(old(bus).state(), clk_usbphy_125m_ctrl_REG_ADDR, 0x80000000, 0x80000000),
{
    set_field(bus, clk_usbphy_125m_ctrl_REG_ADDR, 0x80000000, 0x80000000);
}

pub fn _DISABLE_CLOCK_clk_usbphy_125m_(bus: &mut Mmio)
    ensures
        final(bus).state() == field_step(old(bus).state(), clk_usbphy_125m_ctrl_REG_ADDR, 0x80000000, 0x0),
{
    set_field(bus, clk_usbphy_125m_ctrl_REG_ADDR, 0x80000000, 0x0);
}

pub fn _GET_CLOCK_ENABLE_STATUS_clk_usbphy_125m_(bus: &Mmio) -> (r: u32)
    ensures
        r == (bus.value(clk_usbphy_125m_ctrl_REG_ADDR as u64) >> 31u32) & 0x1,
{
    (bus.read32(clk_usbphy_125m_ctrl_REG_ADDR as u64) >> 31u32) & 0x1
}

pub fn _DIVIDE_CLOCK_clk_usbphy_125m_(bus: &mut Mmio, div: u32)
    ensures
        final(bus).state() == field_step(old(bus).state(), clk_usbphy_125m_ctrl_REG_ADDR, 0xf, div & 0xf),
{
    set_field(bus, clk_usbphy_125m_ctrl_REG_ADDR, 0xf, div & 0xf);
}

pub fn _GET_CLOCK_DIVIDE_STATUS_clk_usbphy_125m_(bus: &Mmio) -> (r: u32)
    ensures
        r == bus.value(clk_usbphy_125m_ctrl_REG_ADDR as u64) & 0xf,
{
    bus.read32(clk_usbphy_125m_ctrl_REG_ADDR as u64) & 0xf
}

pub fn _ENABLE_CLOCK_clk_usbphy_plldiv25m_(bus: &mut Mmio)
    ensures
        final(bus).state() == field_step(old(bus).state(), clk_usbphy_plldiv25m_ctrl_REG_ADDR, 0x80000000, 0x80000000),
{
    set_field(bus, clk_usbphy_plldiv25m_ctrl_REG_ADDR, 0x80000000, 0x80000000);
}

pub fn _DISABLE_CLOCK_clk_usbphy_plldiv25m_(bus: &mut Mmio)
    ensures
        final(bus).state() == field_step(old(bus).state(), clk_usbphy_plldiv25m_ctrl_REG_ADDR, 0x80000000, 0x0),
{
    set_field(bus, clk_usbphy_plldiv25m_ctrl_REG_ADDR, 0x80000000, 0x0);
}

pub fn _GET_CLOCK_ENABLE_STATUS_clk_usbphy_plldiv25m_(bus: &Mmio) -> (r: u32)
    ensures
        r == (bus.value(clk_usbphy_plldiv25m_ctrl_REG_ADDR as u64) >> 31u32) & 0x1,
{
    (bus.read32(clk_usbphy_plldiv25m_ctrl_REG_ADDR as u64) >> 31u32) & 0x1
}

pub fn _DIVIDE_CLOCK_clk_usbphy_plldiv25m_(bus: &mut Mmio, div: u32)
    ensures
        final(bus).state() == field_step(old(bus).state(), clk_usbphy_plldiv25m_ctrl_REG_ADDR, 0x3f, div & 0x3f),
{
    set_field(bus, clk_usbphy_plldiv25m_ctrl_REG_ADDR, 0x3f, div & 0x3f);
}

pub fn _GET_CLOCK_DIVIDE_STATUS_clk_usbphy_plldiv25m_(bus: &Mmio) -> (r: u32)
    ensures
        r == bus.value(clk_usbphy_plldiv25m_ctrl_REG_ADDR as u64) & 0x3f,
{
    bus.read32(clk_usbphy_plldiv25m_ctrl_REG_ADDR as u64) & 0x3f
}

pub fn _ENABLE_CLOCK_clk_usbphy_25m_() {
}

pub fn _SWITCH_CLOCK_clk_usbphy_25m_SOURCE_clk_osc_sys_(bus: &mut Mmio)
    ensures
        final(bus).state() == field_step(old(bus).state(), clk_usbphy_25m_ctrl_REG_ADDR, 0x1000000, 0x0),
{
    set_field(bus, clk_usbphy_25m_ctrl_REG_ADDR, 0x1000000, 0x0);
}

pub fn _SWITCH_CLOCK_clk_usbphy_25m_SOURCE_clk_usbphy_plldiv25m_(bus: &mut Mmio)
    ensures
        final(bus).state() == field_step(old(bus).state(), clk_usbphy_25m_ctrl_REG_ADDR, 0x1000000, 0x1000000),
{
    set_field(bus, clk_usbphy_25m_ctrl_REG_ADDR, 0x1000000, 0x1000000);
}

pub fn _GET_CLOCK_SOURCE_STATUS_clk_usbphy_25m_(bus: &Mmio) -> (r: u32)
    ensures
        r == (bus.value(clk_usbphy_25m_ctrl_REG_ADDR as u64) >> 24u32) & 0x1,
{
    (bus.read32(clk_usbphy_25m_ctrl_REG_ADDR as u64) >> 24u32) & 0x1
}

pub fn _ENABLE_CLOCK_clk_audio_div_() {
}

pub fn _DIVIDE_CLOCK_clk_audio_div_(bus: &mut Mmio, div: u32)
    ensures
        final(bus).state() == field_step(old(bus).state(), clk_audio_div_ctrl_REG_ADDR, 0x3ffff, div & 0x3ffff),
{
    set_field(bus, clk_audio_div_ctrl_REG_ADDR, 0x3ffff, div & 0x3ffff);
}

pub fn _GET_CLOCK_DIVIDE_STATUS_clk_audio_div_(bus: &Mmio) -> (r: u32)
    ensures
        r == bus.value(clk_audio_div_ctrl_REG_ADDR as u64) & 0x3ffff,
{
    bus.read32(clk_audio_div_ctrl_REG_ADDR as u64) & 0x3ffff
}

pub fn _ENABLE_CLOCK_clk_audio_src_(bus: &mut Mmio)
    ensures
        final(bus).state() == field_step(old(bus).state(), clk_audio_src_ctrl_REG_ADDR, 0x80000000, 0x80000000),
{
    set_field(bus, clk_audio_src_ctrl_REG_ADDR, 0x80000000, 0x80000000);
}

pub fn _DISABLE_CLOCK_clk_audio_src_(bus: &mut Mmio)
    ensures
        final(bus).state() == field_step(old(bus).state(), clk_audio_src_ctrl_REG_ADDR, 0x80000000, 0x0),
{
    set_field(bus, clk_audio_src_ctrl_REG_ADDR, 0x80000000, 0x0);
}

pub fn _GET_CLOCK_ENABLE_STATUS_clk_audio_src_(bus: &Mmio) -> (r: u32)
    ensures
        r == (bus.value(clk_audio_src_ctrl_REG_ADDR as u64) >> 31u32) & 0x1,
{
    (bus.read32(clk_audio_src_ctrl_REG_ADDR as u64) >> 31u32) & 0x1
}

pub fn _ENABLE_CLOCK_clk_audio_12288_(bus: &mut Mmio)
    ensures
        final(bus).state() == field_step(old(bus).state(), clk_audio_12288_ctrl_REG_ADDR, 0x80000000, 0x80000000),
{
    set_field(bus, clk_audio_12288_ctrl_REG_ADDR, 0x80000000, 0x80000000);
}

pub fn _DISABLE_CLOCK_clk_audio_12288_(bus: &mut Mmio)
    ensures
        final(bus).state() == field_step(old(bus).state(), clk_audio_12288_ctrl_REG_ADDR, 0x80000000, 0x0),
{
    set_field(bus, clk_audio_12288_ctrl_REG_ADDR, 0x80000000, 0x0);
}

pub fn _GET_CLOCK_ENABLE_STATUS_clk_audio_12288_(bus: &Mmio) -> (r: u32)
    ensures
        r == (bus.value(clk_audio_12288_ctrl_REG_ADDR as u64) >> 31u32) & 0x1,
{
    (bus.read32(clk_audio_12288_ctrl_REG_ADDR as u64) >> 31u32) & 0x1
}

pub fn _ENABLE_CLOCK_clk_vin_src_(bus: &mut Mmio)
    ensures
        final(bus).state() == field_step(old(bus).state(), clk_vin_src_ctrl_REG_ADDR, 0x80000000, 0x80000000),
{
    set_field(bus, clk_vin_src_ctrl_REG_ADDR, 0x80000000, 0x80000000);
}

pub fn _DISABLE_CLOCK_clk_vin_src_(bus: &mut Mmio)
    ensures
        final(bus).state() == field_step(old(bus).state(), clk_vin_src_ctrl_REG_ADDR, 0x80000000, 0x0),
{
    set_field(bus, clk_vin_src_ctrl_REG_ADDR, 0x80000000, 0x0);
}

pub fn _GET_CLOCK_ENABLE_STATUS_clk_vin_src_(bus: &Mmio) -> (r: u32)
    ensures
        r == (bus.value(clk_vin_src_ctrl_REG_ADDR as u64) >> 31u32) & 0x1,
{
    (bus.read32(clk_vin_src_ctrl_REG_ADDR as u64) >> 31u32) & 0x1
}

pub fn _DIVIDE_CLOCK_clk_vin_src_(bus: &mut Mmio, div: u32)
    ensures
        final(bus).state() == field_step(old(bus).state(), clk_vin_src_ctrl_REG_ADDR, 0x7, div & 0x7),
{
    set_field(bus, clk_vin_src_ctrl_REG_ADDR, 0x7, div & 0x7);
}

pub fn _GET_CLOCK_DIVIDE_STATUS_clk_vin_src_(bus: &Mmio) -> (r: u32)
    ensures
        r == bus.value(clk_vin_src_ctrl_REG_ADDR as u64) & 0x7,
{
    bus.read32(clk_vin_src_ctrl_REG_ADDR as u64) & 0x7
}

pub fn _ENABLE_CLOCK_clk_isp0_bus_() {
}

pub fn _DIVIDE_CLOCK_clk_isp0_bus_(bus: &mut Mmio, div: u32)
    ensures
        final(bus).state() == field_step(old(bus).state(), clk_isp0_bus_ctrl_REG_ADDR, 0xf, div & 0xf),
{
    set_field(bus, clk_isp0_bus_ctrl_REG_ADDR, 0xf, div & 0xf);
}

pub fn _GET_CLOCK_DIVIDE_STATUS_clk_isp0_bus_(bus: &Mmio) -> (r: u32)
    ensures
        r == bus.value(clk_isp0_bus_ctrl_REG_ADDR as u64) & 0xf,
{
    bus.read32(clk_isp0_bus_ctrl_REG_ADDR as u64) & 0xf
}

pub fn _ENABLE_CLOCK_clk_isp0_axi_(bus: &mut Mmio)
    ensures
        final(bus).state() == field_step(old(bus).state(), clk_isp0_axi_ctrl_REG_ADDR, 0x80000000, 0x80000000),
{
    set_field(bus, clk_isp0_axi_ctrl_REG_ADDR, 0x80000000, 0x80000000);
}

pub fn _DISABLE_CLOCK_clk_isp0_axi_(bus: &mut Mmio)
    ensures
        final(bus).state() == field_step(old(bus).state(), clk_isp0_axi_ctrl_REG_ADDR, 0x80000000, 0x0),
{
    set_field(bus, clk_isp0_axi_ctrl_REG_ADDR, 0x80000000, 0x0);
}

pub fn _GET_CLOCK_ENABLE_STATUS_clk_isp0_axi_(bus: &Mmio) -> (r: u32)
    ensures
        r == (bus.value(clk_isp0_axi_ctrl_REG_ADDR as u64) >> 31u32) & 0x1,
{
    (bus.read32(clk_isp0_axi_ctrl_REG_ADDR as u64) >> 31u32) & 0x1
}

pub fn _ENABLE_CLOCK_clk_isp0noc_axi_(bus: &mut Mmio)
    ensures
        final(bus).state() == field_step(old(bus).state(), clk_isp0noc_axi_ctrl_REG_ADDR, 0x80000000, 0x80000000),
{
    set_field(bus, clk_isp0noc_axi_ctrl_REG_ADDR, 0x80000000, 0x80000000);
}

pub fn _DISABLE_CLOCK_clk_isp0noc_axi_(bus: &mut Mmio)
    ensures
        final(bus).state() == field_step(old(bus).state(), clk_isp0noc_axi_ctrl_REG_ADDR, 0x80000000, 0x0),
{
    set_field(bus, clk_isp0noc_axi_ctrl_REG_ADDR, 0x80000000, 0x0);
}

pub fn _GET_CLOCK_ENABLE_STATUS_clk_isp0noc_axi_(bus: &Mmio) -> (r: u32)
    ensures
        r == (bus.value(clk_isp0noc_axi_ctrl_REG_ADDR as u64) >> 31u32) & 0x1,
{
    (bus.read32(clk_isp0noc_axi_ctrl_REG_ADDR as u64) >> 31u32) & 0x1
}

pub fn _ENABLE_CLOCK_clk_ispslv_axi_(bus: &mut Mmio)
    ensures
        final(bus).state() == field_step(old(bus).state(), clk_ispslv_axi_ctrl_REG_ADDR, 0x80000000, 0x80000000),
{
    set_field(bus, clk_ispslv_axi_ctrl_REG_ADDR, 0x80000000, 0x80000000);
}

pub fn _DISABLE_CLOCK_clk_ispslv_axi_(bus: &mut Mmio)
    ensures
        final(bus).state() == field_step(old(bus).state(), clk_ispslv_axi_ctrl_REG_ADDR, 0x80000000, 0x0),
{
    set_field(bus, clk_ispslv_axi_ctrl_REG_ADDR, 0x80000000, 0x0);
}

pub fn _GET_CLOCK_ENABLE_STATUS_clk_ispslv_axi_(bus: &Mmio) -> (r: u32)
    ensures
        r == (bus.value(clk_ispslv_axi_ctrl_REG_ADDR as u64) >> 31u32) & 0x1,
{
    (bus.read32(clk_ispslv_axi_ctrl_REG_ADDR as u64) >> 31u32) & 0x1
}

pub fn _ENABLE_CLOCK_clk_isp1_bus_() {
}

pub fn _DIVIDE_CLOCK_clk_isp1_bus_(bus: &mut Mmio, div: u32)
    ensures
        final(bus).state() == field_step(old(bus).state(), clk_isp1_bus_ctrl_REG_ADDR, 0xf, div & 0xf),
{
    set_field(bus, clk_isp1_bus_ctrl_REG_ADDR, 0xf, div & 0xf);
}

pub fn _GET_CLOCK_DIVIDE_STATUS_clk_isp1_bus_(bus: &Mmio) -> (r: u32)
    ensures
        r == bus.value(clk_isp1_bus_ctrl_REG_ADDR as u64) & 0xf,
{
    bus.read32(clk_isp1_bus_ctrl_REG_ADDR as u64) & 0xf
}

pub fn _ENABLE_CLOCK_clk_isp1_axi_(bus: &mut Mmio)
    ensures
        final(bus).state() == field_step(old(bus).state(), clk_isp1_axi_ctrl_REG_ADDR, 0x80000000, 0x80000000),
{
    set_field(bus, clk_isp1_axi_ctrl_REG_ADDR, 0x80000000, 0x80000000);
}

pub fn _DISABLE_CLOCK_clk_isp1_axi_(bus: &mut Mmio)
    ensures
        final(bus).state() == field_step(old(bus).state(), clk_isp1_axi_ctrl_REG_ADDR, 0x80000000, 0x0),
{
    set_field(bus, clk_isp1_axi_ctrl_REG_ADDR, 0x80000000, 0x0);
}

pub fn _GET_CLOCK_ENABLE_STATUS_clk_isp1_axi_(bus: &Mmio) -> (r: u32)
    ensures
        r == (bus.value(clk_isp1_axi_ctrl_REG_ADDR as u64) >> 31u32) & 0x1,
{
    (bus.read32(clk_isp1_axi_ctrl_REG_ADDR as u64) >> 31u32) & 0x1
}

pub fn _ENABLE_CLOCK_clk_isp1noc_axi_(bus: &mut Mmio)
    ensures
        final(bus).state() == field_step(old(bus).state(), clk_isp1noc_axi_ctrl_REG_ADDR, 0x80000000, 0x80000000),
{
    set_field(bus, clk_isp1noc_axi_ctrl_REG_ADDR, 0x80000000, 0x80000000);
}

pub fn _DISABLE_CLOCK_clk_isp1noc_axi_(bus: &mut Mmio)
    ensures
        final(bus).state() == field_step(old(bus).state(), clk_isp1noc_axi_ctrl_REG_ADDR, 0x80000000, 0x0),
{
    set_field(bus, clk_isp1noc_axi_ctrl_REG_ADDR, 0x80000000, 0x0);
}

pub fn _GET_CLOCK_ENABLE_STATUS_clk_isp1noc_axi_(bus: &Mmio) -> (r: u32)
    ensures
        r == (bus.value(clk_isp1noc_axi_ctrl_REG_ADDR as u64) >> 31u32) & 0x1,
{
    (bus.read32(clk_isp1noc_axi_ctrl_REG_ADDR as u64) >> 31u32) & 0x1
}

pub fn _ENABLE_CLOCK_clk_vin_bus_() {
}

pub fn _DIVIDE_CLOCK_clk_vin_bus_(bus: &mut Mmio, div: u32)
    ensures
        final(bus).state() == field_step(old(bus).state(), clk_vin_bus_ctrl_REG_ADDR, 0xf, div & 0xf),
{
    set_field(bus, clk_vin_bus_ctrl_REG_ADDR, 0xf, div & 0xf);
}

pub fn _GET_CLOCK_DIVIDE_STATUS_clk_vin_bus_(bus: &Mmio) -> (r: u32)
    ensures
        r == bus.value(clk_vin_bus_ctrl_REG_ADDR as u64) & 0xf,
{
    bus.read32(clk_vin_bus_ctrl_REG_ADDR as u64) & 0xf
}

pub fn _ENABLE_CLOCK_clk_vin_axi_(bus: &mut Mmio)
    ensures
        final(bus).state() == field_step(old(bus).state(), clk_vin_axi_ctrl_REG_ADDR, 0x80000000, 0x80000000),
{
    set_field(bus, clk_vin_axi_ctrl_REG_ADDR, 0x80000000, 0x80000000);
}

pub fn _DISABLE_CLOCK_clk_vin_axi_(bus: &mut Mmio)
    ensures
        final(bus).state() == field_step(old(bus).state(), clk_vin_axi_ctrl_REG_ADDR, 0x80000000, 0x0),
{
    set_field(bus, clk_vin_axi_ctrl_REG_ADDR, 0x80000000, 0x0);
}

pub fn _GET_CLOCK_ENABLE_STATUS_clk_vin_axi_(bus: &Mmio) -> (r: u32)
    ensures
        r == (bus.value(clk_vin_axi_ctrl_REG_ADDR as u64) >> 31u32) & 0x1,
{
    (bus.read32(clk_vin_axi_ctrl_REG_ADDR as u64) >> 31u32) & 0x1
}

pub fn _ENABLE_CLOCK_clk_vinnoc_axi_(bus: &mut Mmio)
    ensures
        final(bus).state() == field_step(old(bus).state(), clk_vinnoc_axi_ctrl_REG_ADDR, 0x80000000, 0x80000000),
{
    set_field(bus, clk_vinnoc_axi_ctrl_REG_ADDR, 0x80000000, 0x80000000);
}

pub fn _DISABLE_CLOCK_clk_vinnoc_axi_(bus: &mut Mmio)
    ensures
        final(bus).state() == field_step(old(bus).state(), clk_vinnoc_axi_ctrl_REG_ADDR, 0x80000000, 0x0),
{
    set_field(bus, clk_vinnoc_axi_ctrl_REG_ADDR, 0x80000000, 0x0);
}

pub fn _GET_CLOCK_ENABLE_STATUS_clk_vinnoc_axi_(bus: &Mmio) -> (r: u32)
    ensures
        r == (bus.value(clk_vinnoc_axi_ctrl_REG_ADDR as u64) >> 31u32) & 0x1,
{
    (bus.read32(clk_vinnoc_axi_ctrl_REG_ADDR as u64) >> 31u32) & 0x1
}

pub fn _ENABLE_CLOCK_clk_vout_src_(bus: &mut Mmio)
    ensures
        final(bus).state() == field_step(old(bus).state(), clk_vout_src_ctrl_REG_ADDR, 0x80000000, 0x80000000),
{
    set_field(bus, clk_vout_src_ctrl_REG_ADDR, 0x80000000, 0x80000000);
}

pub fn _DISABLE_CLOCK_clk_vout_src_(bus: &mut Mmio)
    ensures
        final(bus).state() == field_step(old(bus).state(), clk_vout_src_ctrl_REG_ADDR, 0x80000000, 0x0),
{
    set_field(bus, clk_vout_src_ctrl_REG_ADDR, 0x80000000, 0x0);
}

pub fn _GET_CLOCK_ENABLE_STATUS_clk_vout_src_(bus: &Mmio) -> (r: u32)
    ensures
        r == (bus.value(clk_vout_src_ctrl_REG_ADDR as u64) >> 31u32) & 0x1,
{
    (bus.read32(clk_vout_src_ctrl_REG_ADDR as u64) >> 31u32) & 0x1
}

pub fn _DIVIDE_CLOCK_clk_vout_src_(bus: &mut Mmio, div: u32)
    ensures
        final(bus).state() == field_step(old(bus).state(), clk_vout_src_ctrl_REG_ADDR, 0x7, div & 0x7),
{
    set_field(bus, clk_vout_src_ctrl_REG_ADDR, 0x7, div & 0x7);
}

pub fn _GET_CLOCK_DIVIDE_STATUS_clk_vout_src_(bus: &Mmio) -> (r: u32)
    ensures
        r == bus.value(clk_vout_src_ctrl_REG_ADDR as u64) & 0x7,
{
    bus.read32(clk_vout_src_ctrl_REG_ADDR as u64) & 0x7
}

pub fn _ENABLE_CLOCK_clk_dispbus_src_() {
}

pub fn _DIVIDE_CLOCK_clk_dispbus_src_(bus: &mut Mmio, div: u32)
    ensures
        final(bus).state() == field_step(old(bus).state(), clk_dispbus_src_ctrl_REG_ADDR, 0x7, div & 0x7),
{
    set_field(bus, clk_dispbus_src_ctrl_REG_ADDR, 0x7, div & 0x7);
}

pub fn _GET_CLOCK_DIVIDE_STATUS_clk_dispbus_src_(bus: &Mmio) -> (r: u32)
    ensures
        r == bus.value(clk_dispbus_src_ctrl_REG_ADDR as u64) & 0x7,
{
    bus.read32(clk_dispbus_src_ctrl_REG_ADDR as u64) & 0x7
}

pub fn _ENABLE_CLOCK_clk_disp_bus_() {
}

pub fn _DIVIDE_CLOCK_clk_disp_bus_(bus: &mut Mmio, div: u32)
    ensures
        final(bus).state() == field_step(old(bus).state(), clk_disp_bus_ctrl_REG_ADDR, 0x7, div & 0x7),
{
    set_field(bus, clk_disp_bus_ctrl_REG_ADDR, 0x7, div & 0x7);
}

pub fn _GET_CLOCK_DIVIDE_STATUS_clk_disp_bus_(bus: &Mmio) -> (r: u32)
    ensures
        r == bus.value(clk_disp_bus_ctrl_REG_ADDR as u64) & 0x7,
{
    bus.read32(clk_disp_bus_ctrl_REG_ADDR as u64) & 0x7
}

pub fn _ENABLE_CLOCK_clk_disp_axi_(bus: &mut Mmio)
    ensures
        final(bus).state() == field_step(old(bus).state(), clk_disp_axi_ctrl_REG_ADDR, 0x80000000, 0x80000000),
{
    set_field(bus, clk_disp_axi_ctrl_REG_ADDR, 0x80000000, 0x80000000);
}

pub fn _DISABLE_CLOCK_clk_disp_axi_(bus: &mut Mmio)
    ensures
        final(bus).state() == field_step(old(bus).state(), clk_disp_axi_ctrl_REG_ADDR, 0x80000000, 0x0),
{
    set_field(bus, clk_disp_axi_ctrl_REG_ADDR, 0x80000000, 0x0);
}

pub fn _GET_CLOCK_ENABLE_STATUS_clk_disp_axi_(bus: &Mmio) -> (r: u32)
    ensures
        r == (bus.value(clk_disp_axi_ctrl_REG_ADDR as u64) >> 31u32) & 0x1,
{
    (bus.read32(clk_disp_axi_ctrl_REG_ADDR as u64) >> 31u32) & 0x1
}

pub fn _ENABLE_CLOCK_clk_dispnoc_axi_(bus: &mut Mmio)
    ensures
        final(bus).state() == field_step(old(bus).state(), clk_dispnoc_axi_ctrl_REG_ADDR, 0x80000000, 0x80000000),
{
    set_field(bus, clk_dispnoc_axi_ctrl_REG_ADDR, 0x80000000, 0x80000000);
}

pub fn _DISABLE_CLOCK_clk_dispnoc_axi_(bus: &mut Mmio)
    ensures
        final(bus).state() == field_step(old(bus).state(), clk_dispnoc_axi_ctrl_REG_ADDR, 0x80000000, 0x0),
{
    set_field(bus, clk_dispnoc_axi_ctrl_REG_ADDR, 0x80000000, 0x0);
}

pub fn _GET_CLOCK_ENABLE_STATUS_clk_dispnoc_axi_(bus: &Mmio) -> (r: u32)
    ensures
        r == (bus.value(clk_dispnoc_axi_ctrl_REG_ADDR as u64) >> 31u32) & 0x1,
{
    (bus.read32(clk_dispnoc_axi_ctrl_REG_ADDR as u64) >> 31u32) & 0x1
}

pub fn _ENABLE_CLOCK_clk_sdio0_ahb_(bus: &mut Mmio)
    ensures
        final(bus).state() == field_step(old(bus).state(), clk_sdio0_ahb_ctrl_REG_ADDR, 0x80000000, 0x80000000),
{
    set_field(bus, clk_sdio0_ahb_ctrl_REG_ADDR, 0x80000000, 0x80000000);
}

pub fn _DISABLE_CLOCK_clk_sdio0_ahb_(bus: &mut Mmio)
    ensures
        final(bus).state() == field_step(old(bus).state(), clk_sdio0_ahb_ctrl_REG_ADDR, 0x80000000, 0x0),
{
    set_field(bus, clk_sdio0_ahb_ctrl_REG_ADDR, 0x80000000, 0x0);
}

pub fn _GET_CLOCK_ENABLE_STATUS_clk_sdio0_ahb_(bus: &Mmio) -> (r: u32)
    ensures
        r == (bus.value(clk_sdio0_ahb_ctrl_REG_ADDR as u64) >> 31u32) & 0x1,
{
    (bus.read32(clk_sdio0_ahb_ctrl_REG_ADDR as u64) >> 31u32) & 0x1
}

pub fn _ENABLE_CLOCK_clk_sdio0_cclkint_(bus: &mut Mmio)
    ensures
        final(bus).state() == field_step(old(bus).state(), clk_sdio0_cclkint_ctrl_REG_ADDR, 0x80000000, 0x80000000),
{
    set_field(bus, clk_sdio0_cclkint_ctrl_REG_ADDR, 0x80000000, 0x80000000);
}

pub fn _DISABLE_CLOCK_clk_sdio0_cclkint_(bus: &mut Mmio)
    ensures
        final(bus).state() == field_step(old(bus).state(), clk_sdio0_cclkint_ctrl_REG_ADDR, 0x80000000, 0x0),
{
    set_field(bus, clk_sdio0_cclkint_ctrl_REG_ADDR, 0x80000000, 0x0);
}

pub fn _GET_CLOCK_ENABLE_STATUS_clk_sdio0_cclkint_(bus: &Mmio) -> (r: u32)
    ensures
        r == (bus.value(clk_sdio0_cclkint_ctrl_REG_ADDR as u64) >> 31u32) & 0x1,
{
    (bus.read32(clk_sdio0_cclkint_ctrl_REG_ADDR as u64) >> 31u32) & 0x1
}

pub fn _DIVIDE_CLOCK_clk_sdio0_cclkint_(bus: &mut Mmio, div: u32)
    ensures
        final(bus).state() == field_step(old(bus).state(), clk_sdio0_cclkint_ctrl_REG_ADDR, 0x1f, div & 0x1f),
{
    set_field(bus, clk_sdio0_cclkint_ctrl_REG_ADDR, 0x1f, div & 0x1f);
}

pub fn _GET_CLOCK_DIVIDE_STATUS_clk_sdio0_cclkint_(bus: &Mmio) -> (r: u32)
    ensures
        r == bus.value(clk_sdio0_cclkint_ctrl_REG_ADDR as u64) & 0x1f,
{
    bus.read32(clk_sdio0_cclkint_ctrl_REG_ADDR as u64) & 0x1f
}

pub fn _ENABLE_CLOCK_clk_sdio0_cclkint_inv_() {
}

pub fn _SET_CLOCK_clk_sdio0_cclkint_inv_POLARITY_(bus: &mut Mmio)
    ensures
        final(bus).state() == field_step(old(bus).state(), clk_sdio0_cclkint_inv_ctrl_REG_ADDR, 0x40000000, 0x40000000),
{
    set_field(bus, clk_sdio0_cclkint_inv_ctrl_REG_ADDR, 0x40000000, 0x40000000);
}

pub fn _UNSET_CLOCK_clk_sdio0_cclkint_inv_POLARITY_(bus: &mut Mmio)
    ensures
        final(bus).state() == field_step(old(bus).state(), clk_sdio0_cclkint_inv_ctrl_REG_ADDR, 0x40000000, 0x0),
{
    set_field(bus, clk_sdio0_cclkint_inv_ctrl_REG_ADDR, 0x40000000, 0x0);
}

pub fn _GET_CLOCK_POLARITY_STATUS_clk_sdio0_cclkint_inv_(bus: &Mmio) -> (r: u32)
    ensures
        r == (bus.value(clk_sdio0_cclkint_inv_ctrl_REG_ADDR as u64) >> 30u32) & 0x1,
{
    (bus.read32(clk_sdio0_cclkint_inv_ctrl_REG_ADDR as u64) >> 30u32) & 0x1
}

pub fn _ENABLE_CLOCK_clk_sdio1_ahb_(bus: &mut Mmio)
    ensures
        final(bus).state() == field_step(old(bus).state(), clk_sdio1_ahb_ctrl_REG_ADDR, 0x80000000, 0x80000000),
{
    set_field(bus, clk_sdio1_ahb_ctrl_REG_ADDR, 0x80000000, 0x80000000);
}

pub fn _DISABLE_CLOCK_clk_sdio1_ahb_(bus: &mut Mmio)
    ensures
        final(bus).state() == field_step(old(bus).state(), clk_sdio1_ahb_ctrl_REG_ADDR, 0x80000000, 0x0),
{
    set_field(bus, clk_sdio1_ahb_ctrl_REG_ADDR, 0x80000000, 0x0);
}

pub fn _GET_CLOCK_ENABLE_STATUS_clk_sdio1_ahb_(bus: &Mmio) -> (r: u32)
    ensures
        r == (bus.value(clk_sdio1_ahb_ctrl_REG_ADDR as u64) >> 31u32) & 0x1,
{
    (bus.read32(clk_sdio1_ahb_ctrl_REG_ADDR as u64) >> 31u32) & 0x1
}

pub fn _ENABLE_CLOCK_clk_sdio1_cclkint_(bus: &mut Mmio)
    ensures
        final(bus).state() == field_step(old(bus).state(), clk_sdio1_cclkint_ctrl_REG_ADDR, 0x80000000, 0x80000000),
{
    set_field(bus, clk_sdio1_cclkint_ctrl_REG_ADDR, 0x80000000, 0x80000000);
}

pub fn _DISABLE_CLOCK_clk_sdio1_cclkint_(bus: &mut Mmio)
    ensures
        final(bus).state() == field_step(old(bus).state(), clk_sdio1_cclkint_ctrl_REG_ADDR, 0x80000000, 0x0),
{
    set_field(bus, clk_sdio1_cclkint_ctrl_REG_ADDR, 0x80000000, 0x0);
}

pub fn _GET_CLOCK_ENABLE_STATUS_clk_sdio1_cclkint_(bus: &Mmio) -> (r: u32)
    ensures
        r == (bus.value(clk_sdio1_cclkint_ctrl_REG_ADDR as u64) >> 31u32) & 0x1,
{
    (bus.read32(clk_sdio1_cclkint_ctrl_REG_ADDR as u64) >> 31u32) & 0x1
}

pub fn _DIVIDE_CLOCK_clk_sdio1_cclkint_(bus: &mut Mmio, div: u32)
    ensures
        final(bus).state() == field_step(old(bus).state(), clk_sdio1_cclkint_ctrl_REG_ADDR, 0x1f, div & 0x1f),
{
    set_field(bus, clk_sdio1_cclkint_ctrl_REG_ADDR, 0x1f, div & 0x1f);
}

pub fn _GET_CLOCK_DIVIDE_STATUS_clk_sdio1_cclkint_(bus: &Mmio) -> (r: u32)
    ensures
        r == bus.value(clk_sdio1_cclkint_ctrl_REG_ADDR as u64) & 0x1f,
{
    bus.read32(clk_sdio1_cclkint_ctrl_REG_ADDR as u64) & 0x1f
}

pub fn _ENABLE_CLOCK_clk_sdio1_cclkint_inv_() {
}

pub fn _SET_CLOCK_clk_sdio1_cclkint_inv_POLARITY_(bus: &mut Mmio)
    ensures
        final(bus).state() == field_step(old(bus).state(), clk_sdio1_cclkint_inv_ctrl_REG_ADDR, 0x40000000, 0x40000000),
{
    set_field(bus, clk_sdio1_cclkint_inv_ctrl_REG_ADDR, 0x40000000, 0x40000000);
}

pub fn _UNSET_CLOCK_clk_sdio1_cclkint_inv_POLARITY_(bus: &mut Mmio)
    ensures
        final(bus).state() == field_step(old(bus).state(), clk_sdio1_cclkint_inv_ctrl_REG_ADDR, 0x40000000, 0x0),
{
    set_field(bus, clk_sdio1_cclkint_inv_ctrl_REG_ADDR, 0x40000000, 0x0);
}

pub fn _GET_CLOCK_POLARITY_STATUS_clk_sdio1_cclkint_inv_(bus: &Mmio) -> (r: u32)
    ensures
        r == (bus.value(clk_sdio1_cclkint_inv_ctrl_REG_ADDR as u64) >> 30u32) & 0x1,
{
    (bus.read32(clk_sdio1_cclkint_inv_ctrl_REG_ADDR as u64) >> 30u32) & 0x1
}

pub fn _ENABLE_CLOCK_clk_gmac_ahb_(bus: &mut Mmio)
    ensures
        final(bus).state() == field_step(old(bus).state(), clk_gmac_ahb_ctrl_REG_ADDR, 0x80000000, 0x80000000),
{
    set_field(bus, clk_gmac_ahb_ctrl_REG_ADDR, 0x80000000, 0x80000000);
}

pub fn _DISABLE_CLOCK_clk_gmac_ahb_(bus: &mut Mmio)
    ensures
        final(bus).state() == field_step(old(bus).state(), clk_gmac_ahb_ctrl_REG_ADDR, 0x80000000, 0x0),
{
    set_field(bus, clk_gmac_ahb_ctrl_REG_ADDR, 0x80000000, 0x0);
}

pub fn _GET_CLOCK_ENABLE_STATUS_clk_gmac_ahb_(bus: &Mmio) -> (r: u32)
    ensures
        r == (bus.value(clk_gmac_ahb_ctrl_REG_ADDR as u64) >> 31u32) & 0x1,
{
    (bus.read32(clk_gmac_ahb_ctrl_REG_ADDR as u64) >> 31u32) & 0x1
}

pub fn _ENABLE_CLOCK_clk_gmac_root_div_() {
}

pub fn _DIVIDE_CLOCK_clk_gmac_root_div_(bus: &mut Mmio, div: u32)
    ensures
        final(bus).state() == field_step(old(bus).state(), clk_gmac_root_div_ctrl_REG_ADDR, 0xf, div & 0xf),
{
    set_field(bus, clk_gmac_root_div_ctrl_REG_ADDR, 0xf, div & 0xf);
}

pub fn _GET_CLOCK_DIVIDE_STATUS_clk_gmac_root_div_(bus: &Mmio) -> (r: u32)
    ensures
        r == bus.value(clk_gmac_root_div_ctrl_REG_ADDR as u64) & 0xf,
{
    bus.read32(clk_gmac_root_div_ctrl_REG_ADDR as u64) & 0xf
}

pub fn _ENABLE_CLOCK_clk_gmac_ptp_refclk_(bus: &mut Mmio)
    ensures
        final(bus).state() == field_step(old(bus).state(), clk_gmac_ptp_refclk_ctrl_REG_ADDR, 0x80000000, 0x80000000),
{
    set_field(bus, clk_gmac_ptp_refclk_ctrl_REG_ADDR, 0x80000000, 0x80000000);
}

pub fn _DISABLE_CLOCK_clk_gmac_ptp_refclk_(bus: &mut Mmio)
    ensures
        final(bus).state() == field_step(old(bus).state(), clk_gmac_ptp_refclk_ctrl_REG_ADDR, 0x80000000, 0x0),
{
    set_field(bus, clk_gmac_ptp_refclk_ctrl_REG_ADDR, 0x80000000, 0x0);
}

pub fn _GET_CLOCK_ENABLE_STATUS_clk_gmac_ptp_refclk_(bus: &Mmio) -> (r: u32)
    ensures
        r == (bus.value(clk_gmac_ptp_refclk_ctrl_REG_ADDR as u64) >> 31u32) & 0x1,
{
    (bus.read32(clk_gmac_ptp_refclk_ctrl_REG_ADDR as u64) >> 31u32) & 0x1
}

pub fn _DIVIDE_CLOCK_clk_gmac_ptp_refclk_(bus: &mut Mmio, div: u32)
    ensures
        final(bus).state() == field_step(old(bus).state(), clk_gmac_ptp_refclk_ctrl_REG_ADDR, 0x1f, div & 0x1f),
{
    set_field(bus, clk_gmac_ptp_refclk_ctrl_REG_ADDR, 0x1f, div & 0x1f);
}

pub fn _GET_CLOCK_DIVIDE_STATUS_clk_gmac_ptp_refclk_(bus: &Mmio) -> (r: u32)
    ensures
        r == bus.value(clk_gmac_ptp_refclk_ctrl_REG_ADDR as u64) & 0x1f,
{
    bus.read32(clk_gmac_ptp_refclk_ctrl_REG_ADDR as u64) & 0x1f
}

pub fn _ENABLE_CLOCK_clk_gmac_gtxclk_(bus: &mut Mmio)
    ensures
        final(bus).state() == field_step(old(bus).state(), clk_gmac_gtxclk_ctrl_REG_ADDR, 0x80000000, 0x80000000),
{
    set_field(bus, clk_gmac_gtxclk_ctrl_REG_ADDR, 0x80000000, 0x80000000);
}

pub fn _DISABLE_CLOCK_clk_gmac_gtxclk_(bus: &mut Mmio)
    ensures
        final(bus).state() == field_step(old(bus).state(), clk_gmac_gtxclk_ctrl_REG_ADDR, 0x80000000, 0x0),
{
    set_field(bus, clk_gmac_gtxclk_ctrl_REG_ADDR, 0x80000000, 0x0);
}

pub fn _GET_CLOCK_ENABLE_STATUS_clk_gmac_gtxclk_(bus: &Mmio) -> (r: u32)
    ensures
        r == (bus.value(clk_gmac_gtxclk_ctrl_REG_ADDR as u64) >> 31u32) & 0x1,
{
    (bus.read32(clk_gmac_gtxclk_ctrl_REG_ADDR as u64) >> 31u32) & 0x1
}

pub fn _DIVIDE_CLOCK_clk_gmac_gtxclk_(bus: &mut Mmio, div: u32)
    ensures
        final(bus).state() == field_step(old(bus).state(), clk_gmac_gtxclk_ctrl_REG_ADDR, 0xff, div & 0xff),
{
    set_field(bus, clk_gmac_gtxclk_ctrl_REG_ADDR, 0xff, div & 0xff);
}

pub fn _GET_CLOCK_DIVIDE_STATUS_clk_gmac_gtxclk_(bus: &Mmio) -> (r: u32)
    ensures
        r == bus.value(clk_gmac_gtxclk_ctrl_REG_ADDR as u64) & 0xff,
{
    bus.read32(clk_gmac_gtxclk_ctrl_REG_ADDR as u64) & 0xff
}

pub fn _ENABLE_CLOCK_clk_gmac_rmii_txclk_(bus: &mut Mmio)
    ensures
        final(bus).state() == field_step(old(bus).state(), clk_gmac_rmii_txclk_ctrl_REG_ADDR, 0x80000000, 0x80000000),
{
    set_field(bus, clk_gmac_rmii_txclk_ctrl_REG_ADDR, 0x80000000, 0x80000000);
}

pub fn _DISABLE_CLOCK_clk_gmac_rmii_txclk_(bus: &mut Mmio)
    ensures
        final(bus).state() == field_step(old(bus).state(), clk_gmac_rmii_txclk_ctrl_REG_ADDR, 0x80000000, 0x0),
{
    set_field(bus, clk_gmac_rmii_txclk_ctrl_REG_ADDR, 0x80000000, 0x0);
}

pub fn _GET_CLOCK_ENABLE_STATUS_clk_gmac_rmii_txclk_(bus: &Mmio) -> (r: u32)
    ensures
        r == (bus.value(clk_gmac_rmii_txclk_ctrl_REG_ADDR as u64) >> 31u32) & 0x1,
{
    (bus.read32(clk_gmac_rmii_txclk_ctrl_REG_ADDR as u64) >> 31u32) & 0x1
}

pub fn _DIVIDE_CLOCK_clk_gmac_rmii_txclk_(bus: &mut Mmio, div: u32)
    ensures
        final(bus).state() == field_step(old(bus).state(), clk_gmac_rmii_txclk_ctrl_REG_ADDR, 0xf, div & 0xf),
{
    set_field(bus, clk_gmac_rmii_txclk_ctrl_REG_ADDR, 0xf, div & 0xf);
}

pub fn _GET_CLOCK_DIVIDE_STATUS_clk_gmac_rmii_txclk_(bus: &Mmio) -> (r: u32)
    ensures
        r == bus.value(clk_gmac_rmii_txclk_ctrl_REG_ADDR as u64) & 0xf,
{
    bus.read32(clk_gmac_rmii_txclk_ctrl_REG_ADDR as u64) & 0xf
}

pub fn _ENABLE_CLOCK_clk_gmac_rmii_rxclk_(bus: &mut Mmio)
    ensures
        final(bus).state() == field_step(old(bus).state(), clk_gmac_rmii_rxclk_ctrl_REG_ADDR, 0x80000000, 0x80000000),
{
    set_field(bus, clk_gmac_rmii_rxclk_ctrl_REG_ADDR, 0x80000000, 0x80000000);
}

pub fn _DISABLE_CLOCK_clk_gmac_rmii_rxclk_(bus: &mut Mmio)
    ensures
        final(bus).state() == field_step(old(bus).state(), clk_gmac_rmii_rxclk_ctrl_REG_ADDR, 0x80000000, 0x0),
{
    set_field(bus, clk_gmac_rmii_rxclk_ctrl_REG_ADDR, 0x80000000, 0x0);
}

pub fn _GET_CLOCK_ENABLE_STATUS_clk_gmac_rmii_rxclk_(bus: &Mmio) -> (r: u32)
    ensures
        r == (bus.value(clk_gmac_rmii_rxclk_ctrl_REG_ADDR as u64) >> 31u32) & 0x1,
{
    (bus.read32(clk_gmac_rmii_rxclk_ctrl_REG_ADDR as u64) >> 31u32) & 0x1
}

pub fn _DIVIDE_CLOCK_clk_gmac_rmii_rxclk_(bus: &mut Mmio, div: u32)
    ensures
        final(bus).state() == field_step(old(bus).state(), clk_gmac_rmii_rxclk_ctrl_REG_ADDR, 0xf, div & 0xf),
{
    set_field(bus, clk_gmac_rmii_rxclk_ctrl_REG_ADDR, 0xf, div & 0xf);
}

pub fn _GET_CLOCK_DIVIDE_STATUS_clk_gmac_rmii_rxclk_(bus: &Mmio) -> (r: u32)
    ensures
        r == bus.value(clk_gmac_rmii_rxclk_ctrl_REG_ADDR as u64) & 0xf,
{
    bus.read32(clk_gmac_rmii_rxclk_ctrl_REG_ADDR as u64) & 0xf
}

pub fn _ENABLE_CLOCK_clk_gmac_tx_() {
}

pub fn _SWITCH_CLOCK_clk_gmac_tx_SOURCE_clk_gmac_gtxclk_(bus: &mut Mmio)
    ensures
        final(bus).state() == field_step(old(bus).state(), clk_gmac_tx_ctrl_REG_ADDR, 0x3000000, 0x0),
{
    set_field(bus, clk_gmac_tx_ctrl_REG_ADDR, 0x3000000, 0x0);
}

pub fn _SWITCH_CLOCK_clk_gmac_tx_SOURCE_clk_gmac_mii_txclk_(bus: &mut Mmio)
    ensures
        final(bus).state() == field_step(old(bus).state(), clk_gmac_tx_ctrl_REG_ADDR, 0x3000000, 0x1000000),
{
    set_field(bus, clk_gmac_tx_ctrl_REG_ADDR, 0x3000000, 0x1000000);
}

pub fn _SWITCH_CLOCK_clk_gmac_tx_SOURCE_clk_gmac_rmii_txclk_(bus: &mut Mmio)
    ensures
        final(bus).state() == field_step(old(bus).state(), clk_gmac_tx_ctrl_REG_ADDR, 0x3000000, 0x2000000),
{
    set_field(bus, clk_gmac_tx_ctrl_REG_ADDR, 0x3000000, 0x2000000);
}

pub fn _GET_CLOCK_SOURCE_STATUS_clk_gmac_tx_(bus: &Mmio) -> (r: u32)
    ensures
        r == (bus.value(clk_gmac_tx_ctrl_REG_ADDR as u64) >> 24u32) & 0x3,
{
    (bus.read32(clk_gmac_tx_ctrl_REG_ADDR as u64) >> 24u32) & 0x3
}

pub fn _ENABLE_CLOCK_clk_gmac_tx_inv_() {
}

pub fn _SET_CLOCK_clk_gmac_tx_inv_POLARITY_(bus: &mut Mmio)
    ensures
        final(bus).state() == field_step(old(bus).state(), clk_gmac_tx_inv_ctrl_REG_ADDR, 0x40000000, 0x40000000),
{
    set_field(bus, clk_gmac_tx_inv_ctrl_REG_ADDR, 0x40000000, 0x40000000);
}

pub fn _UNSET_CLOCK_clk_gmac_tx_inv_POLARITY_(bus: &mut Mmio)
    ensures
        final(bus).state() == field_step(old(bus).state(), clk_gmac_tx_inv_ctrl_REG_ADDR, 0x40000000, 0x0),
{
    set_field(bus, clk_gmac_tx_inv_ctrl_REG_ADDR, 0x40000000, 0x0);
}

pub fn _GET_CLOCK_POLARITY_STATUS_clk_gmac_tx_inv_(bus: &Mmio) -> (r: u32)
    ensures
        r == (bus.value(clk_gmac_tx_inv_ctrl_REG_ADDR as u64) >> 30u32) & 0x1,
{
    (bus.read32(clk_gmac_tx_inv_ctrl_REG_ADDR as u64) >> 30u32) & 0x1
}

pub fn _ENABLE_CLOCK_clk_gmac_rx_pre_() {
}

pub fn _SWITCH_CLOCK_clk_gmac_rx_pre_SOURCE_clk_gmac_gr_mii_rxclk_(bus: &mut Mmio)
    ensures
        final(bus).state() == field_step(old(bus).state(), clk_gmac_rx_pre_ctrl_REG_ADDR, 0x1000000, 0x0),
{
    set_field(bus, clk_gmac_rx_pre_ctrl_REG_ADDR, 0x1000000, 0x0);
}

pub fn _SWITCH_CLOCK_clk_gmac_rx_pre_SOURCE_clk_gmac_rmii_rxclk_(bus: &mut Mmio)
    ensures
        final(bus).state() == field_step(old(bus).state(), clk_gmac_rx_pre_ctrl_REG_ADDR, 0x1000000, 0x1000000),
{
    set_field(bus, clk_gmac_rx_pre_ctrl_REG_ADDR, 0x1000000, 0x1000000);
}

pub fn _GET_CLOCK_SOURCE_STATUS_clk_gmac_rx_pre_(bus: &Mmio) -> (r: u32)
    ensures
        r == (bus.value(clk_gmac_rx_pre_ctrl_REG_ADDR as u64) >> 24u32) & 0x1,
{
    (bus.read32(clk_gmac_rx_pre_ctrl_REG_ADDR as u64) >> 24u32) & 0x1
}

pub fn _ENABLE_CLOCK_clk_gmac_rx_inv_() {
}

pub fn _SET_CLOCK_clk_gmac_rx_inv_POLARITY_(bus: &mut Mmio)
    ensures
        final(bus).state() == field_step(old(bus).state(), clk_gmac_rx_inv_ctrl_REG_ADDR, 0x40000000, 0x40000000),
{
    set_field(bus, clk_gmac_rx_inv_ctrl_REG_ADDR, 0x40000000, 0x40000000);
}

pub fn _UNSET_CLOCK_clk_gmac_rx_inv_POLARITY_(bus: &mut Mmio)
    ensures
        final(bus).state() == field_step(old(bus).state(), clk_gmac_rx_inv_ctrl_REG_ADDR, 0x40000000, 0x0),
{
    set_field(bus, clk_gmac_rx_inv_ctrl_REG_ADDR, 0x40000000, 0x0);
}

pub fn _GET_CLOCK_POLARITY_STATUS_clk_gmac_rx_inv_(bus: &Mmio) -> (r: u32)
    ensures
        r == (bus.value(clk_gmac_rx_inv_ctrl_REG_ADDR as u64) >> 30u32) & 0x1,
{
    (bus.read32(clk_gmac_rx_inv_ctrl_REG_ADDR as u64) >> 30u32) & 0x1
}

pub fn _ENABLE_CLOCK_clk_gmac_rmii_(bus: &mut Mmio)
    ensures
        final(bus).state() == field_step(old(bus).state(), clk_gmac_rmii_ctrl_REG_ADDR, 0x80000000, 0x80000000),
{
    set_field(bus, clk_gmac_rmii_ctrl_REG_ADDR, 0x80000000, 0x80000000);
}

pub fn _DISABLE_CLOCK_clk_gmac_rmii_(bus: &mut Mmio)
    ensures
        final(bus).state() == field_step(old(bus).state(), clk_gmac_rmii_ctrl_REG_ADDR, 0x80000000, 0x0),
{
    set_field(bus, clk_gmac_rmii_ctrl_REG_ADDR, 0x80000000, 0x0);
}

pub fn _GET_CLOCK_ENABLE_STATUS_clk_gmac_rmii_(bus: &Mmio) -> (r: u32)
    ensures
        r == (bus.value(clk_gmac_rmii_ctrl_REG_ADDR as u64) >> 31u32) & 0x1,
{
    (bus.read32(clk_gmac_rmii_ctrl_REG_ADDR as u64) >> 31u32) & 0x1
}

pub fn _ENABLE_CLOCK_clk_gmac_tophyref_(bus: &mut Mmio)
    ensures
        final(bus).state() == field_step(old(bus).state(), clk_gmac_tophyref_ctrl_REG_ADDR, 0x80000000, 0x80000000),
{
    set_field(bus, clk_gmac_tophyref_ctrl_REG_ADDR, 0x80000000, 0x80000000);
}

pub fn _DISABLE_CLOCK_clk_gmac_tophyref_(bus: &mut Mmio)
    ensures
        final(bus).state() == field_step(old(bus).state(), clk_gmac_tophyref_ctrl_REG_ADDR, 0x80000000, 0x0),
{
    set_field(bus, clk_gmac_tophyref_ctrl_REG_ADDR, 0x80000000, 0x0);
}

pub fn _GET_CLOCK_ENABLE_STATUS_clk_gmac_tophyref_(bus: &Mmio) -> (r: u32)
    ensures
        r == (bus.value(clk_gmac_tophyref_ctrl_REG_ADDR as u64) >> 31u32) & 0x1,
{
    (bus.read32(clk_gmac_tophyref_ctrl_REG_ADDR as u64) >> 31u32) & 0x1
}

pub fn _DIVIDE_CLOCK_clk_gmac_tophyref_(bus: &mut Mmio, div: u32)
    ensures
        final(bus).state() == field_step(old(bus).state(), clk_gmac_tophyref_ctrl_REG_ADDR, 0x7f, div & 0x7f),
{
    set_field(bus, clk_gmac_tophyref_ctrl_REG_ADDR, 0x7f, div & 0x7f);
}

pub fn _GET_CLOCK_DIVIDE_STATUS_clk_gmac_tophyref_(bus: &Mmio) -> (r: u32)
    ensures
        r == bus.value(clk_gmac_tophyref_ctrl_REG_ADDR as u64) & 0x7f,
{
    bus.read32(clk_gmac_tophyref_ctrl_REG_ADDR as u64) & 0x7f
}

pub fn _ENABLE_CLOCK_clk_spi2ahb_ahb_(bus: &mut Mmio)
    ensures
        final(bus).state() == field_step(old(bus).state(), clk_spi2ahb_ahb_ctrl_REG_ADDR, 0x80000000, 0x80000000),
{
    set_field(bus, clk_spi2ahb_ahb_ctrl_REG_ADDR, 0x80000000, 0x80000000);
}

pub fn _DISABLE_CLOCK_clk_spi2ahb_ahb_(bus: &mut Mmio)
    ensures
        final(bus).state() == field_step(old(bus).state(), clk_spi2ahb_ahb_ctrl_REG_ADDR, 0x80000000, 0x0),
{
    set_field(bus, clk_spi2ahb_ahb_ctrl_REG_ADDR, 0x80000000, 0x0);
}

pub fn _GET_CLOCK_ENABLE_STATUS_clk_spi2ahb_ahb_(bus: &Mmio) -> (r: u32)
    ensures
        r == (bus.value(clk_spi2ahb_ahb_ctrl_REG_ADDR as u64) >> 31u32) & 0x1,
{
    (bus.read32(clk_spi2ahb_ahb_ctrl_REG_ADDR as u64) >> 31u32) & 0x1
}

pub fn _ENABLE_CLOCK_clk_spi2ahb_core_(bus: &mut Mmio)
    ensures
        final(bus).state() == field_step(old(bus).state(), clk_spi2ahb_core_ctrl_REG_ADDR, 0x80000000, 0x80000000),
{
    set_field(bus, clk_spi2ahb_core_ctrl_REG_ADDR, 0x80000000, 0x80000000);
}

pub fn _DISABLE_CLOCK_clk_spi2ahb_core_(bus: &mut Mmio)
    ensures
        final(bus).state() == field_step(old(bus).state(), clk_spi2ahb_core_ctrl_REG_ADDR, 0x80000000, 0x0),
{
    set_field(bus, clk_spi2ahb_core_ctrl_REG_ADDR, 0x80000000, 0x0);
}

pub fn _GET_CLOCK_ENABLE_STATUS_clk_spi2ahb_core_(bus: &Mmio) -> (r: u32)
    ensures
        r == (bus.value(clk_spi2ahb_core_ctrl_REG_ADDR as u64) >> 31u32) & 0x1,
{
    (bus.read32(clk_spi2ahb_core_ctrl_REG_ADDR as u64) >> 31u32) & 0x1
}

pub fn _DIVIDE_CLOCK_clk_spi2ahb_core_(bus: &mut Mmio, div: u32)
    ensures
        final(bus).state() == field_step(old(bus).state(), clk_spi2ahb_core_ctrl_REG_ADDR, 0x1f, div & 0x1f),
{
    set_field(bus, clk_spi2ahb_core_ctrl_REG_ADDR, 0x1f, div & 0x1f);
}

pub fn _GET_CLOCK_DIVIDE_STATUS_clk_spi2ahb_core_(bus: &Mmio) -> (r: u32)
    ensures
        r == bus.value(clk_spi2ahb_core_ctrl_REG_ADDR as u64) & 0x1f,
{
    bus.read32(clk_spi2ahb_core_ctrl_REG_ADDR as u64) & 0x1f
}

pub fn _ENABLE_CLOCK_clk_ezmaster_ahb_(bus: &mut Mmio)
    ensures
        final(bus).state() == field_step(old(bus).state(), clk_ezmaster_ahb_ctrl_REG_ADDR, 0x80000000, 0x80000000),
{
    set_field(bus, clk_ezmaster_ahb_ctrl_REG_ADDR, 0x80000000, 0x80000000);
}

pub fn _DISABLE_CLOCK_clk_ezmaster_ahb_(bus: &mut Mmio)
    ensures
        final(bus).state() == field_step(old(bus).state(), clk_ezmaster_ahb_ctrl_REG_ADDR, 0x80000000, 0x0),
{
    set_field(bus, clk_ezmaster_ahb_ctrl_REG_ADDR, 0x80000000, 0x0);
}

pub fn _GET_CLOCK_ENABLE_STATUS_clk_ezmaster_ahb_(bus: &Mmio) -> (r: u32)
    ensures
        r == (bus.value(clk_ezmaster_ahb_ctrl_REG_ADDR as u64) >> 31u32) & 0x1,
{
    (bus.read32(clk_ezmaster_ahb_ctrl_REG_ADDR as u64) >> 31u32) & 0x1
}

pub fn _ENABLE_CLOCK_clk_e24_ahb_(bus: &mut Mmio)
    ensures
        final(bus).state() == field_step(old(bus).state(), clk_e24_ahb_ctrl_REG_ADDR, 0x80000000, 0x80000000),
{
    set_field(bus, clk_e24_ahb_ctrl_REG_ADDR, 0x80000000, 0x80000000);
}

pub fn _DISABLE_CLOCK_clk_e24_ahb_(bus: &mut Mmio)
    ensures
        final(bus).state() == field_step(old(bus).state(), clk_e24_ahb_ctrl_REG_ADDR, 0x80000000, 0x0),
{
    set_field(bus, clk_e24_ahb_ctrl_REG_ADDR, 0x80000000, 0x0);
}

pub fn _GET_CLOCK_ENABLE_STATUS_clk_e24_ahb_(bus: &Mmio) -> (r: u32)
    ensures
        r == (bus.value(clk_e24_ahb_ctrl_REG_ADDR as u64) >> 31u32) & 0x1,
{
    (bus.read32(clk_e24_ahb_ctrl_REG_ADDR as u64) >> 31u32) & 0x1
}

pub fn _ENABLE_CLOCK_clk_e24rtc_toggle_(bus: &mut Mmio)
    ensures
        final(bus).state() == field_step(old(bus).state(), clk_e24rtc_toggle_ctrl_REG_ADDR, 0x80000000, 0x80000000),
{
    set_field(bus, clk_e24rtc_toggle_ctrl_REG_ADDR, 0x80000000, 0x80000000);
}

pub fn _DISABLE_CLOCK_clk_e24rtc_toggle_(bus: &mut Mmio)
    ensures
        final(bus).state() == field_step(old(bus).state(), clk_e24rtc_toggle_ctrl_REG_ADDR, 0x80000000, 0x0),
{
    set_field(bus, clk_e24rtc_toggle_ctrl_REG_ADDR, 0x80000000, 0x0);
}

pub fn _GET_CLOCK_ENABLE_STATUS_clk_e24rtc_toggle_(bus: &Mmio) -> (r: u32)
    ensures
        r == (bus.value(clk_e24rtc_toggle_ctrl_REG_ADDR as u64) >> 31u32) & 0x1,
{
    (bus.read32(clk_e24rtc_toggle_ctrl_REG_ADDR as u64) >> 31u32) & 0x1
}

pub fn _ENABLE_CLOCK_clk_qspi_ahb_(bus: &mut Mmio)
    ensures
        final(bus).state() == field_step(old(bus).state(), clk_qspi_ahb_ctrl_REG_ADDR, 0x80000000, 0x80000000),
{
    set_field(bus, clk_qspi_ahb_ctrl_REG_ADDR, 0x80000000, 0x80000000);
}

pub fn _DISABLE_CLOCK_clk_qspi_ahb_(bus: &mut Mmio)
    ensures
        final(bus).state() == field_step(old(bus).state(), clk_qspi_ahb_ctrl_REG_ADDR, 0x80000000, 0x0),
{
    set_field(bus, clk_qspi_ahb_ctrl_REG_ADDR, 0x80000000, 0x0);
}

pub fn _GET_CLOCK_ENABLE_STATUS_clk_qspi_ahb_(bus: &Mmio) -> (r: u32)
    ensures
        r == (bus.value(clk_qspi_ahb_ctrl_REG_ADDR as u64) >> 31u32) & 0x1,
{
    (bus.read32(clk_qspi_ahb_ctrl_REG_ADDR as u64) >> 31u32) & 0x1
}

pub fn _ENABLE_CLOCK_clk_qspi_apb_(bus: &mut Mmio)
    ensures
        final(bus).state() == field_step(old(bus).state(), clk_qspi_apb_ctrl_REG_ADDR, 0x80000000, 0x80000000),
{
    set_field(bus, clk_qspi_apb_ctrl_REG_ADDR, 0x80000000, 0x80000000);
}

pub fn _DISABLE_CLOCK_clk_qspi_apb_(bus: &mut Mmio)
    ensures
        final(bus).state() == field_step(old(bus).state(), clk_qspi_apb_ctrl_REG_ADDR, 0x80000000, 0x0),
{
    set_field(bus, clk_qspi_apb_ctrl_REG_ADDR, 0x80000000, 0x0);
}

pub fn _GET_CLOCK_ENABLE_STATUS_clk_qspi_apb_(bus: &Mmio) -> (r: u32)
    ensures
        r == (bus.value(clk_qspi_apb_ctrl_REG_ADDR as u64) >> 31u32) & 0x1,
{
    (bus.read32(clk_qspi_apb_ctrl_REG_ADDR as u64) >> 31u32) & 0x1
}

pub fn _ENABLE_CLOCK_clk_qspi_refclk_(bus: &mut Mmio)
    ensures
        final(bus).state() == field_step(old(bus).state(), clk_qspi_refclk_ctrl_REG_ADDR, 0x80000000, 0x80000000),
{
    set_field(bus, clk_qspi_refclk_ctrl_REG_ADDR, 0x80000000, 0x80000000);
}

pub fn _DISABLE_CLOCK_clk_qspi_refclk_(bus: &mut Mmio)
    ensures
        final(bus).state() == field_step(old(bus).state(), clk_qspi_refclk_ctrl_REG_ADDR, 0x80000000, 0x0),
{
    set_field(bus, clk_qspi_refclk_ctrl_REG_ADDR, 0x80000000, 0x0);
}

pub fn _GET_CLOCK_ENABLE_STATUS_clk_qspi_refclk_(bus: &Mmio) -> (r: u32)
    ensures
        r == (bus.value(clk_qspi_refclk_ctrl_REG_ADDR as u64) >> 31u32) & 0x1,
{
    (bus.read32(clk_qspi_refclk_ctrl_REG_ADDR as u64) >> 31u32) & 0x1
}

pub fn _DIVIDE_CLOCK_clk_qspi_refclk_(bus: &mut Mmio, div: u32)
    ensures
        final(bus).state() == field_step(old(bus).state(), clk_qspi_refclk_ctrl_REG_ADDR, 0x1f, div & 0x1f),
{
    set_field(bus, clk_qspi_refclk_ctrl_REG_ADDR, 0x1f, div & 0x1f);
}

pub fn _GET_CLOCK_DIVIDE_STATUS_clk_qspi_refclk_(bus: &Mmio) -> (r: u32)
    ensures
        r == bus.value(clk_qspi_refclk_ctrl_REG_ADDR as u64) & 0x1f,
{
    bus.read32(clk_qspi_refclk_ctrl_REG_ADDR as u64) & 0x1f
}

pub fn _ENABLE_CLOCK_clk_sec_ahb_(bus: &mut Mmio)
    ensures
        final(bus).state() == field_step(old(bus).state(), clk_sec_ahb_ctrl_REG_ADDR, 0x80000000, 0x80000000),
{
    set_field(bus, clk_sec_ahb_ctrl_REG_ADDR, 0x80000000, 0x80000000);
}

pub fn _DISABLE_CLOCK_clk_sec_ahb_(bus: &mut Mmio)
    ensures
        final(bus).state() == field_step(old(bus).state(), clk_sec_ahb_ctrl_REG_ADDR, 0x80000000, 0x0),
{
    set_field(bus, clk_sec_ahb_ctrl_REG_ADDR, 0x80000000, 0x0);
}

pub fn _GET_CLOCK_ENABLE_STATUS_clk_sec_ahb_(bus: &Mmio) -> (r: u32)
    ensures
        r == (bus.value(clk_sec_ahb_ctrl_REG_ADDR as u64) >> 31u32) & 0x1,
{
    (bus.read32(clk_sec_ahb_ctrl_REG_ADDR as u64) >> 31u32) & 0x1
}

pub fn _ENABLE_CLOCK_clk_aes_clk_(bus: &mut Mmio)
    ensures
        final(bus).state() == field_step(old(bus).state(), clk_aes_clk_ctrl_REG_ADDR, 0x80000000, 0x80000000),
{
    set_field(bus, clk_aes_clk_ctrl_REG_ADDR, 0x80000000, 0x80000000);
}

pub fn _DISABLE_CLOCK_clk_aes_clk_(bus: &mut Mmio)
    ensures
        final(bus).state() == field_step(old(bus).state(), clk_aes_clk_ctrl_REG_ADDR, 0x80000000, 0x0),
{
    set_field(bus, clk_aes_clk_ctrl_REG_ADDR, 0x80000000, 0x0);
}

pub fn _GET_CLOCK_ENABLE_STATUS_clk_aes_clk_(bus: &Mmio) -> (r: u32)
    ensures
        r == (bus.value(clk_aes_clk_ctrl_REG_ADDR as u64) >> 31u32) & 0x1,
{
    (bus.read32(clk_aes_clk_ctrl_REG_ADDR as u64) >> 31u32) & 0x1
}

pub fn _ENABLE_CLOCK_clk_sha_clk_(bus: &mut Mmio)
    ensures
        final(bus).state() == field_step(old(bus).state(), clk_sha_clk_ctrl_REG_ADDR, 0x80000000, 0x80000000),
{
    set_field(bus, clk_sha_clk_ctrl_REG_ADDR, 0x80000000, 0x80000000);
}

pub fn _DISABLE_CLOCK_clk_sha_clk_(bus: &mut Mmio)
    ensures
        final(bus).state() == field_step(old(bus).state(), clk_sha_clk_ctrl_REG_ADDR, 0x80000000, 0x0),
{
    set_field(bus, clk_sha_clk_ctrl_REG_ADDR, 0x80000000, 0x0);
}

pub fn _GET_CLOCK_ENABLE_STATUS_clk_sha_clk_(bus: &Mmio) -> (r: u32)
    ensures
        r == (bus.value(clk_sha_clk_ctrl_REG_ADDR as u64) >> 31u32) & 0x1,
{
    (bus.read32(clk_sha_clk_ctrl_REG_ADDR as u64) >> 31u32) & 0x1
}

pub fn _ENABLE_CLOCK_clk_pka_clk_(bus: &mut Mmio)
    ensures
        final(bus).state() == field_step(old(bus).state(), clk_pka_clk_ctrl_REG_ADDR, 0x80000000, 0x80000000),
{
    set_field(bus, clk_pka_clk_ctrl_REG_ADDR, 0x80000000, 0x80000000);
}

pub fn _DISABLE_CLOCK_clk_pka_clk_(bus: &mut Mmio)
    ensures
        final(bus).state() == field_step(old(bus).state(), clk_pka_clk_ctrl_REG_ADDR, 0x80000000, 0x0),
{
    set_field(bus, clk_pka_clk_ctrl_REG_ADDR, 0x80000000, 0x0);
}

pub fn _GET_CLOCK_ENABLE_STATUS_clk_pka_clk_(bus: &Mmio) -> (r: u32)
    ensures
        r == (bus.value(clk_pka_clk_ctrl_REG_ADDR as u64) >> 31u32) & 0x1,
{
    (bus.read32(clk_pka_clk_ctrl_REG_ADDR as u64) >> 31u32) & 0x1
}

pub fn _ENABLE_CLOCK_clk_trng_apb_(bus: &mut Mmio)
    ensures
        final(bus).state() == field_step(old(bus).state(), clk_trng_apb_ctrl_REG_ADDR, 0x80000000, 0x80000000),
{
    set_field(bus, clk_trng_apb_ctrl_REG_ADDR, 0x80000000, 0x80000000);
}

pub fn _DISABLE_CLOCK_clk_trng_apb_(bus: &mut Mmio)
    ensures
        final(bus).state() == field_step(old(bus).state(), clk_trng_apb_ctrl_REG_ADDR, 0x80000000, 0x0),
{
    set_field(bus, clk_trng_apb_ctrl_REG_ADDR, 0x80000000, 0x0);
}

pub fn _GET_CLOCK_ENABLE_STATUS_clk_trng_apb_(bus: &Mmio) -> (r: u32)
    ensures
        r == (bus.value(clk_trng_apb_ctrl_REG_ADDR as u64) >> 31u32) & 0x1,
{
    (bus.read32(clk_trng_apb_ctrl_REG_ADDR as u64) >> 31u32) & 0x1
}

pub fn _ENABLE_CLOCK_clk_otp_apb_(bus: &mut Mmio)
    ensures
        final(bus).state() == field_step(old(bus).state(), clk_otp_apb_ctrl_REG_ADDR, 0x80000000, 0x80000000),
{
    set_field(bus, clk_otp_apb_ctrl_REG_ADDR, 0x80000000, 0x80000000);
}

pub fn _DISABLE_CLOCK_clk_otp_apb_(bus: &mut Mmio)
    ensures
        final(bus).state() == field_step(old(bus).state(), clk_otp_apb_ctrl_REG_ADDR, 0x80000000, 0x0),
{
    set_field(bus, clk_otp_apb_ctrl_REG_ADDR, 0x80000000, 0x0);
}

pub fn _GET_CLOCK_ENABLE_STATUS_clk_otp_apb_(bus: &Mmio) -> (r: u32)
    ensures
        r == (bus.value(clk_otp_apb_ctrl_REG_ADDR as u64) >> 31u32) & 0x1,
{
    (bus.read32(clk_otp_apb_ctrl_REG_ADDR as u64) >> 31u32) & 0x1
}

pub fn _ENABLE_CLOCK_clk_uart0_apb_(bus: &mut Mmio)
    ensures
        final(bus).state() == field_step(old(bus).state(), clk_uart0_apb_ctrl_REG_ADDR, 0x80000000, 0x80000000),
{
    set_field(bus, clk_uart0_apb_ctrl_REG_ADDR, 0x80000000, 0x80000000);
}

pub fn _DISABLE_CLOCK_clk_uart0_apb_(bus: &mut Mmio)
    ensures
        final(bus).state() == field_step(old(bus).state(), clk_uart0_apb_ctrl_REG_ADDR, 0x80000000, 0x0),
{
    set_field(bus, clk_uart0_apb_ctrl_REG_ADDR, 0x80000000, 0x0);
}

pub fn _GET_CLOCK_ENABLE_STATUS_clk_uart0_apb_(bus: &Mmio) -> (r: u32)
    ensures
        r == (bus.value(clk_uart0_apb_ctrl_REG_ADDR as u64) >> 31u32) & 0x1,
{
    (bus.read32(clk_uart0_apb_ctrl_REG_ADDR as u64) >> 31u32) & 0x1
}

pub fn _ENABLE_CLOCK_clk_uart0_core_(bus: &mut Mmio)
    ensures
        final(bus).state() == field_step(old(bus).state(), clk_uart0_core_ctrl_REG_ADDR, 0x80000000, 0x80000000),
{
    set_field(bus, clk_uart0_core_ctrl_REG_ADDR, 0x80000000, 0x80000000);
}

pub fn _DISABLE_CLOCK_clk_uart0_core_(bus: &mut Mmio)
    ensures
        final(bus).state() == field_step(old(bus).state(), clk_uart0_core_ctrl_REG_ADDR, 0x80000000, 0x0),
{
    set_field(bus, clk_uart0_core_ctrl_REG_ADDR, 0x80000000, 0x0);
}

pub fn _GET_CLOCK_ENABLE_STATUS_clk_uart0_core_(bus: &Mmio) -> (r: u32)
    ensures
        r == (bus.value(clk_uart0_core_ctrl_REG_ADDR as u64) >> 31u32) & 0x1,
{
    (bus.read32(clk_uart0_core_ctrl_REG_ADDR as u64) >> 31u32) & 0x1
}

pub fn _DIVIDE_CLOCK_clk_uart0_core_(bus: &mut Mmio, div: u32)
    ensures
        final(bus).state() == field_step(old(bus).state(), clk_uart0_core_ctrl_REG_ADDR, 0x3f, div & 0x3f),
{
    set_field(bus, clk_uart0_core_ctrl_REG_ADDR, 0x3f, div & 0x3f);
}

pub fn _GET_CLOCK_DIVIDE_STATUS_clk_uart0_core_(bus: &Mmio) -> (r: u32)
    ensures
        r == bus.value(clk_uart0_core_ctrl_REG_ADDR as u64) & 0x3f,
{
    bus.read32(clk_uart0_core_ctrl_REG_ADDR as u64) & 0x3f
}

pub fn _ENABLE_CLOCK_clk_uart1_apb_(bus: &mut Mmio)
    ensures
        final(bus).state() == field_step(old(bus).state(), clk_uart1_apb_ctrl_REG_ADDR, 0x80000000, 0x80000000),
{
    set_field(bus, clk_uart1_apb_ctrl_REG_ADDR, 0x80000000, 0x80000000);
}

pub fn _DISABLE_CLOCK_clk_uart1_apb_(bus: &mut Mmio)
    ensures
        final(bus).state() == field_step(old(bus).state(), clk_uart1_apb_ctrl_REG_ADDR, 0x80000000, 0x0),
{
    set_field(bus, clk_uart1_apb_ctrl_REG_ADDR, 0x80000000, 0x0);
}

pub fn _GET_CLOCK_ENABLE_STATUS_clk_uart1_apb_(bus: &Mmio) -> (r: u32)
    ensures
        r == (bus.value(clk_uart1_apb_ctrl_REG_ADDR as u64) >> 31u32) & 0x1,
{
    (bus.read32(clk_uart1_apb_ctrl_REG_ADDR as u64) >> 31u32) & 0x1
}

pub fn _ENABLE_CLOCK_clk_uart1_core_(bus: &mut Mmio)
    ensures
        final(bus).state() == field_step(old(bus).state(), clk_uart1_core_ctrl_REG_ADDR, 0x80000000, 0x80000000),
{
    set_field(bus, clk_uart1_core_ctrl_REG_ADDR, 0x80000000, 0x80000000);
}

pub fn _DISABLE_CLOCK_clk_uart1_core_(bus: &mut Mmio)
    ensures
        final(bus).state() == field_step(old(bus).state(), clk_uart1_core_ctrl_REG_ADDR, 0x80000000, 0x0),
{
    set_field(bus, clk_uart1_core_ctrl_REG_ADDR, 0x80000000, 0x0);
}

pub fn _GET_CLOCK_ENABLE_STATUS_clk_uart1_core_(bus: &Mmio) -> (r: u32)
    ensures
        r == (bus.value(clk_uart1_core_ctrl_REG_ADDR as u64) >> 31u32) & 0x1,
{
    (bus.read32(clk_uart1_core_ctrl_REG_ADDR as u64) >> 31u32) & 0x1
}

pub fn _DIVIDE_CLOCK_clk_uart1_core_(bus: &mut Mmio, div: u32)
    ensures
        final(bus).state() == field_step(old(bus).state(), clk_uart1_core_ctrl_REG_ADDR, 0x3f, div & 0x3f),
{
    set_field(bus, clk_uart1_core_ctrl_REG_ADDR, 0x3f, div & 0x3f);
}

pub fn _GET_CLOCK_DIVIDE_STATUS_clk_uart1_core_(bus: &Mmio) -> (r: u32)
    ensures
        r == bus.value(clk_uart1_core_ctrl_REG_ADDR as u64) & 0x3f,
{
    bus.read32(clk_uart1_core_ctrl_REG_ADDR as u64) & 0x3f
}

pub fn _ENABLE_CLOCK_clk_spi0_apb_(bus: &mut Mmio)
    ensures
        final(bus).state() == field_step(old(bus).state(), clk_spi0_apb_ctrl_REG_ADDR, 0x80000000, 0x80000000),
{
    set_field(bus, clk_spi0_apb_ctrl_REG_ADDR, 0x80000000, 0x80000000);
}

pub fn _DISABLE_CLOCK_clk_spi0_apb_(bus: &mut Mmio)
    ensures
        final(bus).state() == field_step(old(bus).state(), clk_spi0_apb_ctrl_REG_ADDR, 0x80000000, 0x0),
{
    set_field(bus, clk_spi0_apb_ctrl_REG_ADDR, 0x80000000, 0x0);
}

pub fn _GET_CLOCK_ENABLE_STATUS_clk_spi0_apb_(bus: &Mmio) -> (r: u32)
    ensures
        r == (bus.value(clk_spi0_apb_ctrl_REG_ADDR as u64) >> 31u32) & 0x1,
{
    (bus.read32(clk_spi0_apb_ctrl_REG_ADDR as u64) >> 31u32) & 0x1
}

pub fn _ENABLE_CLOCK_clk_spi0_core_(bus: &mut Mmio)
    ensures
        final(bus).state() == field_step(old(bus).state(), clk_spi0_core_ctrl_REG_ADDR, 0x80000000, 0x80000000),
{
    set_field(bus, clk_spi0_core_ctrl_REG_ADDR, 0x80000000, 0x80000000);
}

pub fn _DISABLE_CLOCK_clk_spi0_core_(bus: &mut Mmio)
    ensures
        final(bus).state() == field_step(old(bus).state(), clk_spi0_core_ctrl_REG_ADDR, 0x80000000, 0x0),
{
    set_field(bus, clk_spi0_core_ctrl_REG_ADDR, 0x80000000, 0x0);
}

pub fn _GET_CLOCK_ENABLE_STATUS_clk_spi0_core_(bus: &Mmio) -> (r: u32)
    ensures
        r == (bus.value(clk_spi0_core_ctrl_REG_ADDR as u64) >> 31u32) & 0x1,
{
    (bus.read32(clk_spi0_core_ctrl_REG_ADDR as u64) >> 31u32) & 0x1
}

pub fn _DIVIDE_CLOCK_clk_spi0_core_(bus: &mut Mmio, div: u32)
    ensures
        final(bus).state() == field_step(old(bus).state(), clk_spi0_core_ctrl_REG_ADDR, 0x3f, div & 0x3f),
{
    set_field(bus, clk_spi0_core_ctrl_REG_ADDR, 0x3f, div & 0x3f);
}

pub fn _GET_CLOCK_DIVIDE_STATUS_clk_spi0_core_(bus: &Mmio) -> (r: u32)
    ensures
        r == bus.value(clk_spi0_core_ctrl_REG_ADDR as u64) & 0x3f,
{
    bus.read32(clk_spi0_core_ctrl_REG_ADDR as u64) & 0x3f
}

pub fn _ENABLE_CLOCK_clk_spi1_apb_(bus: &mut Mmio)
    ensures
        final(bus).state() == field_step(old(bus).state(), clk_spi1_apb_ctrl_REG_ADDR, 0x80000000, 0x80000000),
{
    set_field(bus, clk_spi1_apb_ctrl_REG_ADDR, 0x80000000, 0x80000000);
}

pub fn _DISABLE_CLOCK_clk_spi1_apb_(bus: &mut Mmio)
    ensures
        final(bus).state() == field_step(old(bus).state(), clk_spi1_apb_ctrl_REG_ADDR, 0x80000000, 0x0),
{
    set_field(bus, clk_spi1_apb_ctrl_REG_ADDR, 0x80000000, 0x0);
}

pub fn _GET_CLOCK_ENABLE_STATUS_clk_spi1_apb_(bus: &Mmio) -> (r: u32)
    ensures
        r == (bus.value(clk_spi1_apb_ctrl_REG_ADDR as u64) >> 31u32) & 0x1,
{
    (bus.read32(clk_spi1_apb_ctrl_REG_ADDR as u64) >> 31u32) & 0x1
}

pub fn _ENABLE_CLOCK_clk_spi1_core_(bus: &mut Mmio)
    ensures
        final(bus).state() == field_step(old(bus).state(), clk_spi1_core_ctrl_REG_ADDR, 0x80000000, 0x80000000),
{
    set_field(bus, clk_spi1_core_ctrl_REG_ADDR, 0x80000000, 0x80000000);
}

pub fn _DISABLE_CLOCK_clk_spi1_core_(bus: &mut Mmio)
    ensures
        final(bus).state() == field_step(old(bus).state(), clk_spi1_core_ctrl_REG_ADDR, 0x80000000, 0x0),
{
    set_field(bus, clk_spi1_core_ctrl_REG_ADDR, 0x80000000, 0x0);
}

pub fn _GET_CLOCK_ENABLE_STATUS_clk_spi1_core_(bus: &Mmio) -> (r: u32)
    ensures
        r == (bus.value(clk_spi1_core_ctrl_REG_ADDR as u64) >> 31u32) & 0x1,
{
    (bus.read32(clk_spi1_core_ctrl_REG_ADDR as u64) >> 31u32) & 0x1
}

pub fn _DIVIDE_CLOCK_clk_spi1_core_(bus: &mut Mmio, div: u32)
    ensures
        final(bus).state() == field_step(old(bus).state(), clk_spi1_core_ctrl_REG_ADDR, 0x3f, div & 0x3f),
{
    set_field(bus, clk_spi1_core_ctrl_REG_ADDR, 0x3f, div & 0x3f);
}

pub fn _GET_CLOCK_DIVIDE_STATUS_clk_spi1_core_(bus: &Mmio) -> (r: u32)
    ensures
        r == bus.value(clk_spi1_core_ctrl_REG_ADDR as u64) & 0x3f,
{
    bus.read32(clk_spi1_core_ctrl_REG_ADDR as u64) & 0x3f
}

pub fn _ENABLE_CLOCK_clk_i2c0_apb_(bus: &mut Mmio)
    ensures
        final(bus).state() == field_step(old(bus).state(), clk_i2c0_apb_ctrl_REG_ADDR, 0x80000000, 0x80000000),
{
    set_field(bus, clk_i2c0_apb_ctrl_REG_ADDR, 0x80000000, 0x80000000);
}

pub fn _DISABLE_CLOCK_clk_i2c0_apb_(bus: &mut Mmio)
    ensures
        final(bus).state() == field_step(old(bus).state(), clk_i2c0_apb_ctrl_REG_ADDR, 0x80000000, 0x0),
{
    set_field(bus, clk_i2c0_apb_ctrl_REG_ADDR, 0x80000000, 0x0);
}

pub fn _GET_CLOCK_ENABLE_STATUS_clk_i2c0_apb_(bus: &Mmio) -> (r: u32)
    ensures
        r == (bus.value(clk_i2c0_apb_ctrl_REG_ADDR as u64) >> 31u32) & 0x1,
{
    (bus.read32(clk_i2c0_apb_ctrl_REG_ADDR as u64) >> 31u32) & 0x1
}

pub fn _ENABLE_CLOCK_clk_i2c0_core_(bus: &mut Mmio)
    ensures
        final(bus).state() == field_step(old(bus).state(), clk_i2c0_core_ctrl_REG_ADDR, 0x80000000, 0x80000000),
{
    set_field(bus, clk_i2c0_core_ctrl_REG_ADDR, 0x80000000, 0x80000000);
}

pub fn _DISABLE_CLOCK_clk_i2c0_core_(bus: &mut Mmio)
    ensures
        final(bus).state() == field_step(old(bus).state(), clk_i2c0_core_ctrl_REG_ADDR, 0x80000000, 0x0),
{
    set_field(bus, clk_i2c0_core_ctrl_REG_ADDR, 0x80000000, 0x0);
}

pub fn _GET_CLOCK_ENABLE_STATUS_clk_i2c0_core_(bus: &Mmio) -> (r: u32)
    ensures
        r == (bus.value(clk_i2c0_core_ctrl_REG_ADDR as u64) >> 31u32) & 0x1,
{
    (bus.read32(clk_i2c0_core_ctrl_REG_ADDR as u64) >> 31u32) & 0x1
}

pub fn _DIVIDE_CLOCK_clk_i2c0_core_(bus: &mut Mmio, div: u32)
    ensures
        final(bus).state() == field_step(old(bus).state(), clk_i2c0_core_ctrl_REG_ADDR, 0x3f, div & 0x3f),
{
    set_field(bus, clk_i2c0_core_ctrl_REG_ADDR, 0x3f, div & 0x3f);
}

pub fn _GET_CLOCK_DIVIDE_STATUS_clk_i2c0_core_(bus: &Mmio) -> (r: u32)
    ensures
        r == bus.value(clk_i2c0_core_ctrl_REG_ADDR as u64) & 0x3f,
{
    bus.read32(clk_i2c0_core_ctrl_REG_ADDR as u64) & 0x3f
}

pub fn _ENABLE_CLOCK_clk_i2c1_apb_(bus: &mut Mmio)
    ensures
        final(bus).state() == field_step(old(bus).state(), clk_i2c1_apb_ctrl_REG_ADDR, 0x80000000, 0x80000000),
{
    set_field(bus, clk_i2c1_apb_ctrl_REG_ADDR, 0x80000000, 0x80000000);
}

pub fn _DISABLE_CLOCK_clk_i2c1_apb_(bus: &mut Mmio)
    ensures
        final(bus).state() == field_step(old(bus).state(), clk_i2c1_apb_ctrl_REG_ADDR, 0x80000000, 0x0),
{
    set_field(bus, clk_i2c1_apb_ctrl_REG_ADDR, 0x80000000, 0x0);
}

pub fn _GET_CLOCK_ENABLE_STATUS_clk_i2c1_apb_(bus: &Mmio) -> (r: u32)
    ensures
        r == (bus.value(clk_i2c1_apb_ctrl_REG_ADDR as u64) >> 31u32) & 0x1,
{
    (bus.read32(clk_i2c1_apb_ctrl_REG_ADDR as u64) >> 31u32) & 0x1
}

pub fn _ENABLE_CLOCK_clk_i2c1_core_(bus: &mut Mmio)
    ensures
        final(bus).state() == field_step(old(bus).state(), clk_i2c1_core_ctrl_REG_ADDR, 0x80000000, 0x80000000),
{
    set_field(bus, clk_i2c1_core_ctrl_REG_ADDR, 0x80000000, 0x80000000);
}

pub fn _DISABLE_CLOCK_clk_i2c1_core_(bus: &mut Mmio)
    ensures
        final(bus).state() == field_step(old(bus).state(), clk_i2c1_core_ctrl_REG_ADDR, 0x80000000, 0x0),
{
    set_field(bus, clk_i2c1_core_ctrl_REG_ADDR, 0x80000000, 0x0);
}

pub fn _GET_CLOCK_ENABLE_STATUS_clk_i2c1_core_(bus: &Mmio) -> (r: u32)
    ensures
        r == (bus.value(clk_i2c1_core_ctrl_REG_ADDR as u64) >> 31u32) & 0x1,
{
    (bus.read32(clk_i2c1_core_ctrl_REG_ADDR as u64) >> 31u32) & 0x1
}

pub fn _DIVIDE_CLOCK_clk_i2c1_core_(bus: &mut Mmio, div: u32)
    ensures
        final(bus).state() == field_step(old(bus).state(), clk_i2c1_core_ctrl_REG_ADDR, 0x3f, div & 0x3f),
{
    set_field(bus, clk_i2c1_core_ctrl_REG_ADDR, 0x3f, div & 0x3f);
}

pub fn _GET_CLOCK_DIVIDE_STATUS_clk_i2c1_core_(bus: &Mmio) -> (r: u32)
    ensures
        r == bus.value(clk_i2c1_core_ctrl_REG_ADDR as u64) & 0x3f,
{
    bus.read32(clk_i2c1_core_ctrl_REG_ADDR as u64) & 0x3f
}

pub fn _ENABLE_CLOCK_clk_gpio_apb_(bus: &mut Mmio)
    ensures
        final(bus).state() == field_step(old(bus).state(), clk_gpio_apb_ctrl_REG_ADDR, 0x80000000, 0x80000000),
{
    set_field(bus, clk_gpio_apb_ctrl_REG_ADDR, 0x80000000, 0x80000000);
}

pub fn _DISABLE_CLOCK_clk_gpio_apb_(bus: &mut Mmio)
    ensures
        final(bus).state() == field_step(old(bus).state(), clk_gpio_apb_ctrl_REG_ADDR, 0x80000000, 0x0),
{
    set_field(bus, clk_gpio_apb_ctrl_REG_ADDR, 0x80000000, 0x0);
}

pub fn _GET_CLOCK_ENABLE_STATUS_clk_gpio_apb_(bus: &Mmio) -> (r: u32)
    ensures
        r == (bus.value(clk_gpio_apb_ctrl_REG_ADDR as u64) >> 31u32) & 0x1,
{
    (bus.read32(clk_gpio_apb_ctrl_REG_ADDR as u64) >> 31u32) & 0x1
}

pub fn _ENABLE_CLOCK_clk_uart2_apb_(bus: &mut Mmio)
    ensures
        final(bus).state() == field_step(old(bus).state(), clk_uart2_apb_ctrl_REG_ADDR, 0x80000000, 0x80000000),
{
    set_field(bus, clk_uart2_apb_ctrl_REG_ADDR, 0x80000000, 0x80000000);
}

pub fn _DISABLE_CLOCK_clk_uart2_apb_(bus: &mut Mmio)
    ensures
        final(bus).state() == field_step(old(bus).state(), clk_uart2_apb_ctrl_REG_ADDR, 0x80000000, 0x0),
{
    set_field(bus, clk_uart2_apb_ctrl_REG_ADDR, 0x80000000, 0x0);
}

pub fn _GET_CLOCK_ENABLE_STATUS_clk_uart2_apb_(bus: &Mmio) -> (r: u32)
    ensures
        r == (bus.value(clk_uart2_apb_ctrl_REG_ADDR as u64) >> 31u32) & 0x1,
{
    (bus.read32(clk_uart2_apb_ctrl_REG_ADDR as u64) >> 31u32) & 0x1
}

pub fn _ENABLE_CLOCK_clk_uart2_core_(bus: &mut Mmio)
    ensures
        final(bus).state() == field_step(old(bus).state(), clk_uart2_core_ctrl_REG_ADDR, 0x80000000, 0x80000000),
{
    set_field(bus, clk_uart2_core_ctrl_REG_ADDR, 0x80000000, 0x80000000);
}

pub fn _DISABLE_CLOCK_clk_uart2_core_(bus: &mut Mmio)
    ensures
        final(bus).state() == field_step(old(bus).state(), clk_uart2_core_ctrl_REG_ADDR, 0x80000000, 0x0),
{
    set_field(bus, clk_uart2_core_ctrl_REG_ADDR, 0x80000000, 0x0);
}

pub fn _GET_CLOCK_ENABLE_STATUS_clk_uart2_core_(bus: &Mmio) -> (r: u32)
    ensures
        r == (bus.value(clk_uart2_core_ctrl_REG_ADDR as u64) >> 31u32) & 0x1,
{
    (bus.read32(clk_uart2_core_ctrl_REG_ADDR as u64) >> 31u32) & 0x1
}

pub fn _DIVIDE_CLOCK_clk_uart2_core_(bus: &mut Mmio, div: u32)
    ensures
        final(bus).state() == field_step(old(bus).state(), clk_uart2_core_ctrl_REG_ADDR, 0x3f, div & 0x3f),
{
    set_field(bus, clk_uart2_core_ctrl_REG_ADDR, 0x3f, div & 0x3f);
}

pub fn _GET_CLOCK_DIVIDE_STATUS_clk_uart2_core_(bus: &Mmio) -> (r: u32)
    ensures
        r == bus.value(clk_uart2_core_ctrl_REG_ADDR as u64) & 0x3f,
{
    bus.read32(clk_uart2_core_ctrl_REG_ADDR as u64) & 0x3f
}

pub fn _ENABLE_CLOCK_clk_uart3_apb_(bus: &mut Mmio)
    ensures
        final(bus).state() == field_step(old(bus).state(), clk_uart3_apb_ctrl_REG_ADDR, 0x80000000, 0x80000000),
{
    set_field(bus, clk_uart3_apb_ctrl_REG_ADDR, 0x80000000, 0x80000000);
}

pub fn _DISABLE_CLOCK_clk_uart3_apb_(bus: &mut Mmio)
    ensures
        final(bus).state() == field_step(old(bus).state(), clk_uart3_apb_ctrl_REG_ADDR, 0x80000000, 0x0),
{
    set_field(bus, clk_uart3_apb_ctrl_REG_ADDR, 0x80000000, 0x0);
}

pub fn _GET_CLOCK_ENABLE_STATUS_clk_uart3_apb_(bus: &Mmio) -> (r: u32)
    ensures
        r == (bus.value(clk_uart3_apb_ctrl_REG_ADDR as u64) >> 31u32) & 0x1,
{
    (bus.read32(clk_uart3_apb_ctrl_REG_ADDR as u64) >> 31u32) & 0x1
}

pub fn _ENABLE_CLOCK_clk_uart3_core_(bus: &mut Mmio)
    ensures
        final(bus).state() == field_step(old(bus).state(), clk_uart3_core_ctrl_REG_ADDR, 0x80000000, 0x80000000),
{
    set_field(bus, clk_uart3_core_ctrl_REG_ADDR, 0x80000000, 0x80000000);
}

pub fn _DISABLE_CLOCK_clk_uart3_core_(bus: &mut Mmio)
    ensures
        final(bus).state() == field_step(old(bus).state(), clk_uart3_core_ctrl_REG_ADDR, 0x80000000, 0x0),
{
    set_field(bus, clk_uart3_core_ctrl_REG_ADDR, 0x80000000, 0x0);
}

pub fn _GET_CLOCK_ENABLE_STATUS_clk_uart3_core_(bus: &Mmio) -> (r: u32)
    ensures
        r == (bus.value(clk_uart3_core_ctrl_REG_ADDR as u64) >> 31u32) & 0x1,
{
    (bus.read32(clk_uart3_core_ctrl_REG_ADDR as u64) >> 31u32) & 0x1
}

pub fn _DIVIDE_CLOCK_clk_uart3_core_(bus: &mut Mmio, div: u32)
    ensures
        final(bus).state() == field_step(old(bus).state(), clk_uart3_core_ctrl_REG_ADDR, 0x3f, div & 0x3f),
{
    set_field(bus, clk_uart3_core_ctrl_REG_ADDR, 0x3f, div & 0x3f);
}

pub fn _GET_CLOCK_DIVIDE_STATUS_clk_uart3_core_(bus: &Mmio) -> (r: u32)
    ensures
        r == bus.value(clk_uart3_core_ctrl_REG_ADDR as u64) & 0x3f,
{
    bus.read32(clk_uart3_core_ctrl_REG_ADDR as u64) & 0x3f
}

pub fn _ENABLE_CLOCK_clk_spi2_apb_(bus: &mut Mmio)
    ensures
        final(bus).state() == field_step(old(bus).state(), clk_spi2_apb_ctrl_REG_ADDR, 0x80000000, 0x80000000),
{
    set_field(bus, clk_spi2_apb_ctrl_REG_ADDR, 0x80000000, 0x80000000);
}

pub fn _DISABLE_CLOCK_clk_spi2_apb_(bus: &mut Mmio)
    ensures
        final(bus).state() == field_step(old(bus).state(), clk_spi2_apb_ctrl_REG_ADDR, 0x80000000, 0x0),
{
    set_field(bus, clk_spi2_apb_ctrl_REG_ADDR, 0x80000000, 0x0);
}

pub fn _GET_CLOCK_ENABLE_STATUS_clk_spi2_apb_(bus: &Mmio) -> (r: u32)
    ensures
        r == (bus.value(clk_spi2_apb_ctrl_REG_ADDR as u64) >> 31u32) & 0x1,
{
    (bus.read32(clk_spi2_apb_ctrl_REG_ADDR as u64) >> 31u32) & 0x1
}

pub fn _ENABLE_CLOCK_clk_spi2_core_(bus: &mut Mmio)
    ensures
        final(bus).state() == field_step(old(bus).state(), clk_spi2_core_ctrl_REG_ADDR, 0x80000000, 0x80000000),
{
    set_field(bus, clk_spi2_core_ctrl_REG_ADDR, 0x80000000, 0x80000000);
}

pub fn _DISABLE_CLOCK_clk_spi2_core_(bus: &mut Mmio)
    ensures
        final(bus).state() == field_step(old(bus).state(), clk_spi2_core_ctrl_REG_ADDR, 0x80000000, 0x0),
{
    set_field(bus, clk_spi2_core_ctrl_REG_ADDR, 0x80000000, 0x0);
}

pub fn _GET_CLOCK_ENABLE_STATUS_clk_spi2_core_(bus: &Mmio) -> (r: u32)
    ensures
        r == (bus.value(clk_spi2_core_ctrl_REG_ADDR as u64) >> 31u32) & 0x1,
{
    (bus.read32(clk_spi2_core_ctrl_REG_ADDR as u64) >> 31u32) & 0x1
}

pub fn _DIVIDE_CLOCK_clk_spi2_core_(bus: &mut Mmio, div: u32)
    ensures
        final(bus).state() == field_step(old(bus).state(), clk_spi2_core_ctrl_REG_ADDR, 0x3f, div & 0x3f),
{
    set_field(bus, clk_spi2_core_ctrl_REG_ADDR, 0x3f, div & 0x3f);
}

pub fn _GET_CLOCK_DIVIDE_STATUS_clk_spi2_core_(bus: &Mmio) -> (r: u32)
    ensures
        r == bus.value(clk_spi2_core_ctrl_REG_ADDR as u64) & 0x3f,
{
    bus.read32(clk_spi2_core_ctrl_REG_ADDR as u64) & 0x3f
}

pub fn _ENABLE_CLOCK_clk_spi3_apb_(bus: &mut Mmio)
    ensures
        final(bus).state() == field_step(old(bus).state(), clk_spi3_apb_ctrl_REG_ADDR, 0x80000000, 0x80000000),
{
    set_field(bus, clk_spi3_apb_ctrl_REG_ADDR, 0x80000000, 0x80000000);
}

pub fn _DISABLE_CLOCK_clk_spi3_apb_(bus: &mut Mmio)
    ensures
        final(bus).state() == field_step(old(bus).state(), clk_spi3_apb_ctrl_REG_ADDR, 0x80000000, 0x0),
{
    set_field(bus, clk_spi3_apb_ctrl_REG_ADDR, 0x80000000, 0x0);
}

pub fn _GET_CLOCK_ENABLE_STATUS_clk_spi3_apb_(bus: &Mmio) -> (r: u32)
    ensures
        r == (bus.value(clk_spi3_apb_ctrl_REG_ADDR as u64) >> 31u32) & 0x1,
{
    (bus.read32(clk_spi3_apb_ctrl_REG_ADDR as u64) >> 31u32) & 0x1
}

pub fn _ENABLE_CLOCK_clk_spi3_core_(bus: &mut Mmio)
    ensures
        final(bus).state() == field_step(old(bus).state(), clk_spi3_core_ctrl_REG_ADDR, 0x80000000, 0x80000000),
{
    set_field(bus, clk_spi3_core_ctrl_REG_ADDR, 0x80000000, 0x80000000);
}

pub fn _DISABLE_CLOCK_clk_spi3_core_(bus: &mut Mmio)
    ensures
        final(bus).state() == field_step(old(bus).state(), clk_spi3_core_ctrl_REG_ADDR, 0x80000000, 0x0),
{
    set_field(bus, clk_spi3_core_ctrl_REG_ADDR, 0x80000000, 0x0);
}

pub fn _GET_CLOCK_ENABLE_STATUS_clk_spi3_core_(bus: &Mmio) -> (r: u32)
    ensures
        r == (bus.value(clk_spi3_core_ctrl_REG_ADDR as u64) >> 31u32) & 0x1,
{
    (bus.read32(clk_spi3_core_ctrl_REG_ADDR as u64) >> 31u32) & 0x1
}

pub fn _DIVIDE_CLOCK_clk_spi3_core_(bus: &mut Mmio, div: u32)
    ensures
        final(bus).state() == field_step(old(bus).state(), clk_spi3_core_ctrl_REG_ADDR, 0x3f, div & 0x3f),
{
    set_field(bus, clk_spi3_core_ctrl_REG_ADDR, 0x3f, div & 0x3f);
}

pub fn _GET_CLOCK_DIVIDE_STATUS_clk_spi3_core_(bus: &Mmio) -> (r: u32)
    ensures
        r == bus.value(clk_spi3_core_ctrl_REG_ADDR as u64) & 0x3f,
{
    bus.read32(clk_spi3_core_ctrl_REG_ADDR as u64) & 0x3f
}

pub fn _ENABLE_CLOCK_clk_i2c2_apb_(bus: &mut Mmio)
    ensures
        final(bus).state() == field_step(old(bus).state(), clk_i2c2_apb_ctrl_REG_ADDR, 0x80000000, 0x80000000),
{
    set_field(bus, clk_i2c2_apb_ctrl_REG_ADDR, 0x80000000, 0x80000000);
}

pub fn _DISABLE_CLOCK_clk_i2c2_apb_(bus: &mut Mmio)
    ensures
        final(bus).state() == field_step(old(bus).state(), clk_i2c2_apb_ctrl_REG_ADDR, 0x80000000, 0x0),
{
    set_field(bus, clk_i2c2_apb_ctrl_REG_ADDR, 0x80000000, 0x0);
}

pub fn _GET_CLOCK_ENABLE_STATUS_clk_i2c2_apb_(bus: &Mmio) -> (r: u32)
    ensures
        r == (bus.value(clk_i2c2_apb_ctrl_REG_ADDR as u64) >> 31u32) & 0x1,
{
    (bus.read32(clk_i2c2_apb_ctrl_REG_ADDR as u64) >> 31u32) & 0x1
}

pub fn _ENABLE_CLOCK_clk_i2c2_core_(bus: &mut Mmio)
    ensures
        final(bus).state() == field_step(old(bus).state(), clk_i2c2_core_ctrl_REG_ADDR, 0x80000000, 0x80000000),
{
    set_field(bus, clk_i2c2_core_ctrl_REG_ADDR, 0x80000000, 0x80000000);
}

pub fn _DISABLE_CLOCK_clk_i2c2_core_(bus: &mut Mmio)
    ensures
        final(bus).state() == field_step(old(bus).state(), clk_i2c2_core_ctrl_REG_ADDR, 0x80000000, 0x0),
{
    set_field(bus, clk_i2c2_core_ctrl_REG_ADDR, 0x80000000, 0x0);
}

pub fn _GET_CLOCK_ENABLE_STATUS_clk_i2c2_core_(bus: &Mmio) -> (r: u32)
    ensures
        r == (bus.value(clk_i2c2_core_ctrl_REG_ADDR as u64) >> 31u32) & 0x1,
{
    (bus.read32(clk_i2c2_core_ctrl_REG_ADDR as u64) >> 31u32) & 0x1
}

pub fn _DIVIDE_CLOCK_clk_i2c2_core_(bus: &mut Mmio, div: u32)
    ensures
        final(bus).state() == field_step(old(bus).state(), clk_i2c2_core_ctrl_REG_ADDR, 0x3f, div & 0x3f),
{
    set_field(bus, clk_i2c2_core_ctrl_REG_ADDR, 0x3f, div & 0x3f);
}

pub fn _GET_CLOCK_DIVIDE_STATUS_clk_i2c2_core_(bus: &Mmio) -> (r: u32)
    ensures
        r == bus.value(clk_i2c2_core_ctrl_REG_ADDR as u64) & 0x3f,
{
    bus.read32(clk_i2c2_core_ctrl_REG_ADDR as u64) & 0x3f
}

pub fn _ENABLE_CLOCK_clk_i2c3_apb_(bus: &mut Mmio)
    ensures
        final(bus).state() == field_step(old(bus).state(), clk_i2c3_apb_ctrl_REG_ADDR, 0x80000000, 0x80000000),
{
    set_field(bus, clk_i2c3_apb_ctrl_REG_ADDR, 0x80000000, 0x80000000);
}

pub fn _DISABLE_CLOCK_clk_i2c3_apb_(bus: &mut Mmio)
    ensures
        final(bus).state() == field_step(old(bus).state(), clk_i2c3_apb_ctrl_REG_ADDR, 0x80000000, 0x0),
{
    set_field(bus, clk_i2c3_apb_ctrl_REG_ADDR, 0x80000000, 0x0);
}

pub fn _GET_CLOCK_ENABLE_STATUS_clk_i2c3_apb_(bus: &Mmio) -> (r: u32)
    ensures
        r == (bus.value(clk_i2c3_apb_ctrl_REG_ADDR as u64) >> 31u32) & 0x1,
{
    (bus.read32(clk_i2c3_apb_ctrl_REG_ADDR as u64) >> 31u32) & 0x1
}

pub fn _ENABLE_CLOCK_clk_i2c3_core_(bus: &mut Mmio)
    ensures
        final(bus).state() == field_step(old(bus).state(), clk_i2c3_core_ctrl_REG_ADDR, 0x80000000, 0x80000000),
{
    set_field(bus, clk_i2c3_core_ctrl_REG_ADDR, 0x80000000, 0x80000000);
}

pub fn _DISABLE_CLOCK_clk_i2c3_core_(bus: &mut Mmio)
    ensures
        final(bus).state() == field_step(old(bus).state(), clk_i2c3_core_ctrl_REG_ADDR, 0x80000000, 0x0),
{
    set_field(bus, clk_i2c3_core_ctrl_REG_ADDR, 0x80000000, 0x0);
}

pub fn _GET_CLOCK_ENABLE_STATUS_clk_i2c3_core_(bus: &Mmio) -> (r: u32)
    ensures
        r == (bus.value(clk_i2c3_core_ctrl_REG_ADDR as u64) >> 31u32) & 0x1,
{
    (bus.read32(clk_i2c3_core_ctrl_REG_ADDR as u64) >> 31u32) & 0x1
}

pub fn _DIVIDE_CLOCK_clk_i2c3_core_(bus: &mut Mmio, div: u32)
    ensures
        final(bus).state() == field_step(old(bus).state(), clk_i2c3_core_ctrl_REG_ADDR, 0x3f, div & 0x3f),
{
    set_field(bus, clk_i2c3_core_ctrl_REG_ADDR, 0x3f, div & 0x3f);
}

pub fn _GET_CLOCK_DIVIDE_STATUS_clk_i2c3_core_(bus: &Mmio) -> (r: u32)
    ensures
        r == bus.value(clk_i2c3_core_ctrl_REG_ADDR as u64) & 0x3f,
{
    bus.read32(clk_i2c3_core_ctrl_REG_ADDR as u64) & 0x3f
}

pub fn _ENABLE_CLOCK_clk_wdtimer_apb_(bus: &mut Mmio)
    ensures
        final(bus).state() == field_step(old(bus).state(), clk_wdtimer_apb_ctrl_REG_ADDR, 0x80000000, 0x80000000),
{
    set_field(bus, clk_wdtimer_apb_ctrl_REG_ADDR, 0x80000000, 0x80000000);
}

pub fn _DISABLE_CLOCK_clk_wdtimer_apb_(bus: &mut Mmio)
    ensures
        final(bus).state() == field_step(old(bus).state(), clk_wdtimer_apb_ctrl_REG_ADDR, 0x80000000, 0x0),
{
    set_field(bus, clk_wdtimer_apb_ctrl_REG_ADDR, 0x80000000, 0x0);
}

pub fn _GET_CLOCK_ENABLE_STATUS_clk_wdtimer_apb_(bus: &Mmio) -> (r: u32)
    ensures
        r == (bus.value(clk_wdtimer_apb_ctrl_REG_ADDR as u64) >> 31u32) & 0x1,
{
    (bus.read32(clk_wdtimer_apb_ctrl_REG_ADDR as u64) >> 31u32) & 0x1
}

pub fn _ENABLE_CLOCK_clk_wdt_coreclk_(bus: &mut Mmio)
    ensures
        final(bus).state() == field_step(old(bus).state(), clk_wdt_coreclk_ctrl_REG_ADDR, 0x80000000, 0x80000000),
{
    set_field(bus, clk_wdt_coreclk_ctrl_REG_ADDR, 0x80000000, 0x80000000);
}

pub fn _DISABLE_CLOCK_clk_wdt_coreclk_(bus: &mut Mmio)
    ensures
        final(bus).state() == field_step(old(bus).state(), clk_wdt_coreclk_ctrl_REG_ADDR, 0x80000000, 0x0),
{
    set_field(bus, clk_wdt_coreclk_ctrl_REG_ADDR, 0x80000000, 0x0);
}

pub fn _GET_CLOCK_ENABLE_STATUS_clk_wdt_coreclk_(bus: &Mmio) -> (r: u32)
    ensures
        r == (bus.value(clk_wdt_coreclk_ctrl_REG_ADDR as u64) >> 31u32) & 0x1,
{
    (bus.read32(clk_wdt_coreclk_ctrl_REG_ADDR as u64) >> 31u32) & 0x1
}

pub fn _DIVIDE_CLOCK_clk_wdt_coreclk_(bus: &mut Mmio, div: u32)
    ensures
        final(bus).state() == field_step(old(bus).state(), clk_wdt_coreclk_ctrl_REG_ADDR, 0x3f, div & 0x3f),
{
    set_field(bus, clk_wdt_coreclk_ctrl_REG_ADDR, 0x3f, div & 0x3f);
}

pub fn _GET_CLOCK_DIVIDE_STATUS_clk_wdt_coreclk_(bus: &Mmio) -> (r: u32)
    ensures
        r == bus.value(clk_wdt_coreclk_ctrl_REG_ADDR as u64) & 0x3f,
{
    bus.read32(clk_wdt_coreclk_ctrl_REG_ADDR as u64) & 0x3f
}

pub fn _ENABLE_CLOCK_clk_timer0_coreclk_(bus: &mut Mmio)
    ensures
        final(bus).state() == field_step(old(bus).state(), clk_timer0_coreclk_ctrl_REG_ADDR, 0x80000000, 0x80000000),
{
    set_field(bus, clk_timer0_coreclk_ctrl_REG_ADDR, 0x80000000, 0x80000000);
}

pub fn _DISABLE_CLOCK_clk_timer0_coreclk_(bus: &mut Mmio)
    ensures
        final(bus).state() == field_step(old(bus).state(), clk_timer0_coreclk_ctrl_REG_ADDR, 0x80000000, 0x0),
{
    set_field(bus, clk_timer0_coreclk_ctrl_REG_ADDR, 0x80000000, 0x0);
}

pub fn _GET_CLOCK_ENABLE_STATUS_clk_timer0_coreclk_(bus: &Mmio) -> (r: u32)
    ensures
        r == (bus.value(clk_timer0_coreclk_ctrl_REG_ADDR as u64) >> 31u32) & 0x1,
{
    (bus.read32(clk_timer0_coreclk_ctrl_REG_ADDR as u64) >> 31u32) & 0x1
}

pub fn _DIVIDE_CLOCK_clk_timer0_coreclk_(bus: &mut Mmio, div: u32)
    ensures
        final(bus).state() == field_step(old(bus).state(), clk_timer0_coreclk_ctrl_REG_ADDR, 0x3f, div & 0x3f),
{
    set_field(bus, clk_timer0_coreclk_ctrl_REG_ADDR, 0x3f, div & 0x3f);
}

pub fn _GET_CLOCK_DIVIDE_STATUS_clk_timer0_coreclk_(bus: &Mmio) -> (r: u32)
    ensures
        r == bus.value(clk_timer0_coreclk_ctrl_REG_ADDR as u64) & 0x3f,
{
    bus.read32(clk_timer0_coreclk_ctrl_REG_ADDR as u64) & 0x3f
}

pub fn _ENABLE_CLOCK_clk_timer1_coreclk_(bus: &mut Mmio)
    ensures
        final(bus).state() == field_step(old(bus).state(), clk_timer1_coreclk_ctrl_REG_ADDR, 0x80000000, 0x80000000),
{
    set_field(bus, clk_timer1_coreclk_ctrl_REG_ADDR, 0x80000000, 0x80000000);
}

pub fn _DISABLE_CLOCK_clk_timer1_coreclk_(bus: &mut Mmio)
    ensures
        final(bus).state() == field_step(old(bus).state(), clk_timer1_coreclk_ctrl_REG_ADDR, 0x80000000, 0x0),
{
    set_field(bus, clk_timer1_coreclk_ctrl_REG_ADDR, 0x80000000, 0x0);
}

pub fn _GET_CLOCK_ENABLE_STATUS_clk_timer1_coreclk_(bus: &Mmio) -> (r: u32)
    ensures
        r == (bus.value(clk_timer1_coreclk_ctrl_REG_ADDR as u64) >> 31u32) & 0x1,
{
    (bus.read32(clk_timer1_coreclk_ctrl_REG_ADDR as u64) >> 31u32) & 0x1
}

pub fn _DIVIDE_CLOCK_clk_timer1_coreclk_(bus: &mut Mmio, div: u32)
    ensures
        final(bus).state() == field_step(old(bus).state(), clk_timer1_coreclk_ctrl_REG_ADDR, 0x3f, div & 0x3f),
{
    set_field(bus, clk_timer1_coreclk_ctrl_REG_ADDR, 0x3f, div & 0x3f);
}

pub fn _GET_CLOCK_DIVIDE_STATUS_clk_timer1_coreclk_(bus: &Mmio) -> (r: u32)
    ensures
        r == bus.value(clk_timer1_coreclk_ctrl_REG_ADDR as u64) & 0x3f,
{
    bus.read32(clk_timer1_coreclk_ctrl_REG_ADDR as u64) & 0x3f
}

pub fn _ENABLE_CLOCK_clk_timer2_coreclk_(bus: &mut Mmio)
    ensures
        final(bus).state() == field_step(old(bus).state(), clk_timer2_coreclk_ctrl_REG_ADDR, 0x80000000, 0x80000000),
{
    set_field(bus, clk_timer2_coreclk_ctrl_REG_ADDR, 0x80000000, 0x80000000);
}

pub fn _DISABLE_CLOCK_clk_timer2_coreclk_(bus: &mut Mmio)
    ensures
        final(bus).state() == field_step(old(bus).state(), clk_timer2_coreclk_ctrl_REG_ADDR, 0x80000000, 0x0),
{
    set_field(bus, clk_timer2_coreclk_ctrl_REG_ADDR, 0x80000000, 0x0);
}

pub fn _GET_CLOCK_ENABLE_STATUS_clk_timer2_coreclk_(bus: &Mmio) -> (r: u32)
    ensures
        r == (bus.value(clk_timer2_coreclk_ctrl_REG_ADDR as u64) >> 31u32) & 0x1,
{
    (bus.read32(clk_timer2_coreclk_ctrl_REG_ADDR as u64) >> 31u32) & 0x1
}

pub fn _DIVIDE_CLOCK_clk_timer2_coreclk_(bus: &mut Mmio, div: u32)
    ensures
        final(bus).state() == field_step(old(bus).state(), clk_timer2_coreclk_ctrl_REG_ADDR, 0x3f, div & 0x3f),
{
    set_field(bus, clk_timer2_coreclk_ctrl_REG_ADDR, 0x3f, div & 0x3f);
}

pub fn _GET_CLOCK_DIVIDE_STATUS_clk_timer2_coreclk_(bus: &Mmio) -> (r: u32)
    ensures
        r == bus.value(clk_timer2_coreclk_ctrl_REG_ADDR as u64) & 0x3f,
{
    bus.read32(clk_timer2_coreclk_ctrl_REG_ADDR as u64) & 0x3f
}

pub fn _ENABLE_CLOCK_clk_timer3_coreclk_(bus: &mut Mmio)
    ensures
        final(bus).state() == field_step(old(bus).state(), clk_timer3_coreclk_ctrl_REG_ADDR, 0x80000000, 0x80000000),
{
    set_field(bus, clk_timer3_coreclk_ctrl_REG_ADDR, 0x80000000, 0x80000000);
}

pub fn _DISABLE_CLOCK_clk_timer3_coreclk_(bus: &mut Mmio)
    ensures
        final(bus).state() == field_step(old(bus).state(), clk_timer3_coreclk_ctrl_REG_ADDR, 0x80000000, 0x0),
{
    set_field(bus, clk_timer3_coreclk_ctrl_REG_ADDR, 0x80000000, 0x0);
}

pub fn _GET_CLOCK_ENABLE_STATUS_clk_timer3_coreclk_(bus: &Mmio) -> (r: u32)
    ensures
        r == (bus.value(clk_timer3_coreclk_ctrl_REG_ADDR as u64) >> 31u32) & 0x1,
{
    (bus.read32(clk_timer3_coreclk_ctrl_REG_ADDR as u64) >> 31u32) & 0x1
}

pub fn _DIVIDE_CLOCK_clk_timer3_coreclk_(bus: &mut Mmio, div: u32)
    ensures
        final(bus).state() == field_step(old(bus).state(), clk_timer3_coreclk_ctrl_REG_ADDR, 0x3f, div & 0x3f),
{
    set_field(bus, clk_timer3_coreclk_ctrl_REG_ADDR, 0x3f, div & 0x3f);
}

pub fn _GET_CLOCK_DIVIDE_STATUS_clk_timer3_coreclk_(bus: &Mmio) -> (r: u32)
    ensures
        r == bus.value(clk_timer3_coreclk_ctrl_REG_ADDR as u64) & 0x3f,
{
    bus.read32(clk_timer3_coreclk_ctrl_REG_ADDR as u64) & 0x3f
}

pub fn _ENABLE_CLOCK_clk_timer4_coreclk_(bus: &mut Mmio)
    ensures
        final(bus).state() == field_step(old(bus).state(), clk_timer4_coreclk_ctrl_REG_ADDR, 0x80000000, 0x80000000),
{
    set_field(bus, clk_timer4_coreclk_ctrl_REG_ADDR, 0x80000000, 0x80000000);
}

pub fn _DISABLE_CLOCK_clk_timer4_coreclk_(bus: &mut Mmio)
    ensures
        final(bus).state() == field_step(old(bus).state(), clk_timer4_coreclk_ctrl_REG_ADDR, 0x80000000, 0x0),
{
    set_field(bus, clk_timer4_coreclk_ctrl_REG_ADDR, 0x80000000, 0x0);
}

pub fn _GET_CLOCK_ENABLE_STATUS_clk_timer4_coreclk_(bus: &Mmio) -> (r: u32)
    ensures
        r == (bus.value(clk_timer4_coreclk_ctrl_REG_ADDR as u64) >> 31u32) & 0x1,
{
    (bus.read32(clk_timer4_coreclk_ctrl_REG_ADDR as u64) >> 31u32) & 0x1
}

pub fn _DIVIDE_CLOCK_clk_timer4_coreclk_(bus: &mut Mmio, div: u32)
    ensures
        final(bus).state() == field_step(old(bus).state(), clk_timer4_coreclk_ctrl_REG_ADDR, 0x3f, div & 0x3f),
{
    set_field(bus, clk_timer4_coreclk_ctrl_REG_ADDR, 0x3f, div & 0x3f);
}

pub fn _GET_CLOCK_DIVIDE_STATUS_clk_timer4_coreclk_(bus: &Mmio) -> (r: u32)
    ensures
        r == bus.value(clk_timer4_coreclk_ctrl_REG_ADDR as u64) & 0x3f,
{
    bus.read32(clk_timer4_coreclk_ctrl_REG_ADDR as u64) & 0x3f
}

pub fn _ENABLE_CLOCK_clk_timer5_coreclk_(bus: &mut Mmio)
    ensures
        final(bus).state() == field_step(old(bus).state(), clk_timer5_coreclk_ctrl_REG_ADDR, 0x80000000, 0x80000000),
{
    set_field(bus, clk_timer5_coreclk_ctrl_REG_ADDR, 0x80000000, 0x80000000);
}

pub fn _DISABLE_CLOCK_clk_timer5_coreclk_(bus: &mut Mmio)
    ensures
        final(bus).state() == field_step(old(bus).state(), clk_timer5_coreclk_ctrl_REG_ADDR, 0x80000000, 0x0),
{
    set_field(bus, clk_timer5_coreclk_ctrl_REG_ADDR, 0x80000000, 0x0);
}

pub fn _GET_CLOCK_ENABLE_STATUS_clk_timer5_coreclk_(bus: &Mmio) -> (r: u32)
    ensures
        r == (bus.value(clk_timer5_coreclk_ctrl_REG_ADDR as u64) >> 31u32) & 0x1,
{
    (bus.read32(clk_timer5_coreclk_ctrl_REG_ADDR as u64) >> 31u32) & 0x1
}

pub fn _DIVIDE_CLOCK_clk_timer5_coreclk_(bus: &mut Mmio, div: u32)
    ensures
        final(bus).state() == field_step(old(bus).state(), clk_timer5_coreclk_ctrl_REG_ADDR, 0x3f, div & 0x3f),
{
    set_field(bus, clk_timer5_coreclk_ctrl_REG_ADDR, 0x3f, div & 0x3f);
}

pub fn _GET_CLOCK_DIVIDE_STATUS_clk_timer5_coreclk_(bus: &Mmio) -> (r: u32)
    ensures
        r == bus.value(clk_timer5_coreclk_ctrl_REG_ADDR as u64) & 0x3f,
{
    bus.read32(clk_timer5_coreclk_ctrl_REG_ADDR as u64) & 0x3f
}

pub fn _ENABLE_CLOCK_clk_timer6_coreclk_(bus: &mut Mmio)
    ensures
        final(bus).state() == field_step(old(bus).state(), clk_timer6_coreclk_ctrl_REG_ADDR, 0x80000000, 0x80000000),
{
    set_field(bus, clk_timer6_coreclk_ctrl_REG_ADDR, 0x80000000, 0x80000000);
}

pub fn _DISABLE_CLOCK_clk_timer6_coreclk_(bus: &mut Mmio)
    ensures
        final(bus).state() == field_step(old(bus).state(), clk_timer6_coreclk_ctrl_REG_ADDR, 0x80000000, 0x0),
{
    set_field(bus, clk_timer6_coreclk_ctrl_REG_ADDR, 0x80000000, 0x0);
}

pub fn _GET_CLOCK_ENABLE_STATUS_clk_timer6_coreclk_(bus: &Mmio) -> (r: u32)
    ensures
        r == (bus.value(clk_timer6_coreclk_ctrl_REG_ADDR as u64) >> 31u32) & 0x1,
{
    (bus.read32(clk_timer6_coreclk_ctrl_REG_ADDR as u64) >> 31u32) & 0x1
}

pub fn _DIVIDE_CLOCK_clk_timer6_coreclk_(bus: &mut Mmio, div: u32)
    ensures
        final(bus).state() == field_step(old(bus).state(), clk_timer6_coreclk_ctrl_REG_ADDR, 0x3f, div & 0x3f),
{
    set_field(bus, clk_timer6_coreclk_ctrl_REG_ADDR, 0x3f, div & 0x3f);
}

pub fn _GET_CLOCK_DIVIDE_STATUS_clk_timer6_coreclk_(bus: &Mmio) -> (r: u32)
    ensures
        r == bus.value(clk_timer6_coreclk_ctrl_REG_ADDR as u64) & 0x3f,
{
    bus.read32(clk_timer6_coreclk_ctrl_REG_ADDR as u64) & 0x3f
}

pub fn _ENABLE_CLOCK_clk_vp6intc_apb_(bus: &mut Mmio)
    ensures
        final(bus).state() == field_step(old(bus).state(), clk_vp6intc_apb_ctrl_REG_ADDR, 0x80000000, 0x80000000),
{
    set_field(bus, clk_vp6intc_apb_ctrl_REG_ADDR, 0x80000000, 0x80000000);
}

pub fn _DISABLE_CLOCK_clk_vp6intc_apb_(bus: &mut Mmio)
    ensures
        final(bus).state() == field_step(old(bus).state(), clk_vp6intc_apb_ctrl_REG_ADDR, 0x80000000, 0x0),
{
    set_field(bus, clk_vp6intc_apb_ctrl_REG_ADDR, 0x80000000, 0x0);
}

pub fn _GET_CLOCK_ENABLE_STATUS_clk_vp6intc_apb_(bus: &Mmio) -> (r: u32)
    ensures
        r == (bus.value(clk_vp6intc_apb_ctrl_REG_ADDR as u64) >> 31u32) & 0x1,
{
    (bus.read32(clk_vp6intc_apb_ctrl_REG_ADDR as u64) >> 31u32) & 0x1
}

pub fn _ENABLE_CLOCK_clk_pwm_apb_(bus: &mut Mmio)
    ensures
        final(bus).state() == field_step(old(bus).state(), clk_pwm_apb_ctrl_REG_ADDR, 0x80000000, 0x80000000),
{
    set_field(bus, clk_pwm_apb_ctrl_REG_ADDR, 0x80000000, 0x80000000);
}

pub fn _DISABLE_CLOCK_clk_pwm_apb_(bus: &mut Mmio)
    ensures
        final(bus).state() == field_step(old(bus).state(), clk_pwm_apb_ctrl_REG_ADDR, 0x80000000, 0x0),
{
    set_field(bus, clk_pwm_apb_ctrl_REG_ADDR, 0x80000000, 0x0);
}

pub fn _GET_CLOCK_ENABLE_STATUS_clk_pwm_apb_(bus: &Mmio) -> (r: u32)
    ensures
        r == (bus.value(clk_pwm_apb_ctrl_REG_ADDR as u64) >> 31u32) & 0x1,
{
    (bus.read32(clk_pwm_apb_ctrl_REG_ADDR as u64) >> 31u32) & 0x1
}

pub fn _ENABLE_CLOCK_clk_msi_apb_(bus: &mut Mmio)
    ensures
        final(bus).state() == field_step(old(bus).state(), clk_msi_apb_ctrl_REG_ADDR, 0x80000000, 0x80000000),
{
    set_field(bus, clk_msi_apb_ctrl_REG_ADDR, 0x80000000, 0x80000000);
}

pub fn _DISABLE_CLOCK_clk_msi_apb_(bus: &mut Mmio)
    ensures
        final(bus).state() == field_step(old(bus).state(), clk_msi_apb_ctrl_REG_ADDR, 0x80000000, 0x0),
{
    set_field(bus, clk_msi_apb_ctrl_REG_ADDR, 0x80000000, 0x0);
}

pub fn _GET_CLOCK_ENABLE_STATUS_clk_msi_apb_(bus: &Mmio) -> (r: u32)
    ensures
        r == (bus.value(clk_msi_apb_ctrl_REG_ADDR as u64) >> 31u32) & 0x1,
{
    (bus.read32(clk_msi_apb_ctrl_REG_ADDR as u64) >> 31u32) & 0x1
}

pub fn _ENABLE_CLOCK_clk_temp_apb_(bus: &mut Mmio)
    ensures
        final(bus).state() == field_step(old(bus).state(), clk_temp_apb_ctrl_REG_ADDR, 0x80000000, 0x80000000),
{
    set_field(bus, clk_temp_apb_ctrl_REG_ADDR, 0x80000000, 0x80000000);
}

pub fn _DISABLE_CLOCK_clk_temp_apb_(bus: &mut Mmio)
    ensures
        final(bus).state() == field_step(old(bus).state(), clk_temp_apb_ctrl_REG_ADDR, 0x80000000, 0x0),
{
    set_field(bus, clk_temp_apb_ctrl_REG_ADDR, 0x80000000, 0x0);
}

pub fn _GET_CLOCK_ENABLE_STATUS_clk_temp_apb_(bus: &Mmio) -> (r: u32)
    ensures
        r == (bus.value(clk_temp_apb_ctrl_REG_ADDR as u64) >> 31u32) & 0x1,
{
    (bus.read32(clk_temp_apb_ctrl_REG_ADDR as u64) >> 31u32) & 0x1
}

pub fn _ENABLE_CLOCK_clk_temp_sense_(bus: &mut Mmio)
    ensures
        final(bus).state() == field_step(old(bus).state(), clk_temp_sense_ctrl_REG_ADDR, 0x80000000, 0x80000000),
{
    set_field(bus, clk_temp_sense_ctrl_REG_ADDR, 0x80000000, 0x80000000);
}

pub fn _DISABLE_CLOCK_clk_temp_sense_(bus: &mut Mmio)
    ensures
        final(bus).state() == field_step(old(bus).state(), clk_temp_sense_ctrl_REG_ADDR, 0x80000000, 0x0),
{
    set_field(bus, clk_temp_sense_ctrl_REG_ADDR, 0x80000000, 0x0);
}

pub fn _GET_CLOCK_ENABLE_STATUS_clk_temp_sense_(bus: &Mmio) -> (r: u32)
    ensures
        r == (bus.value(clk_temp_sense_ctrl_REG_ADDR as u64) >> 31u32) & 0x1,
{
    (bus.read32(clk_temp_sense_ctrl_REG_ADDR as u64) >> 31u32) & 0x1
}

pub fn _DIVIDE_CLOCK_clk_temp_sense_(bus: &mut Mmio, div: u32)
    ensures
        final(bus).state() == field_step(old(bus).state(), clk_temp_sense_ctrl_REG_ADDR, 0x1f, div & 0x1f),
{
    set_field(bus, clk_temp_sense_ctrl_REG_ADDR, 0x1f, div & 0x1f);
}

pub fn _GET_CLOCK_DIVIDE_STATUS_clk_temp_sense_(bus: &Mmio) -> (r: u32)
    ensures
        r == bus.value(clk_temp_sense_ctrl_REG_ADDR as u64) & 0x1f,
{
    bus.read32(clk_temp_sense_ctrl_REG_ADDR as u64) & 0x1f
}

pub fn _ENABLE_CLOCK_clk_syserr_apb_(bus: &mut Mmio)
    ensures
        final(bus).state() == field_step(old(bus).state(), clk_syserr_apb_ctrl_REG_ADDR, 0x80000000, 0x80000000),
{
    set_field(bus, clk_syserr_apb_ctrl_REG_ADDR, 0x80000000, 0x80000000);
}

pub fn _DISABLE_CLOCK_clk_syserr_apb_(bus: &mut Mmio)
    ensures
        final(bus).state() == field_step(old(bus).state(), clk_syserr_apb_ctrl_REG_ADDR, 0x80000000, 0x0),
{
    set_field(bus, clk_syserr_apb_ctrl_REG_ADDR, 0x80000000, 0x0);
}

pub fn _GET_CLOCK_ENABLE_STATUS_clk_syserr_apb_(bus: &Mmio) -> (r: u32)
    ensures
        r == (bus.value(clk_syserr_apb_ctrl_REG_ADDR as u64) >> 31u32) & 0x1,
{
    (bus.read32(clk_syserr_apb_ctrl_REG_ADDR as u64) >> 31u32) & 0x1
}

} // verus!
