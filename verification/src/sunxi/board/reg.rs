//! D1 user manual
//! https://dl.linux-sunxi.org/D1/D1_User_Manual_V0.1_Draft_Version.pdf
use vstd::prelude::*;

verus! {

// pp 1094
pub const GPIO_BASE_ADDR: u32 = 0x0200_0000;
pub const GPIO_PB_CFG0: u32 = 0x0200_0030;
pub const GPIO_PB_CFG1: u32 = 0x0200_0034;
pub const GPIO_PB_DAT: u32 = 0x0200_0040;
pub const GPIO_PB_DRV0: u32 = 0x0200_0044;
pub const GPIO_PB_DRV1: u32 = 0x0200_0048;
pub const GPIO_PB_PULL: u32 = 0x0200_0054;

// pp 900
pub const CCU_BASE_ADDR: u32 = 0x0200_1000;
pub const CCU_UART_BGR: u32 = 0x0200_190c;

} // verus!
