pub mod ccu;
pub mod gpio;
pub mod jtag;
pub mod time;
pub mod uart;
pub mod spi;
pub mod clint;
pub mod smhc;
