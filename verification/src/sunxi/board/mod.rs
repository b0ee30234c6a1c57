//! The D1 board's own register map and clock control unit driver.
pub mod ccu;
pub mod reg;
