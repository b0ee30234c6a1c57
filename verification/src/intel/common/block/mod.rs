pub mod gpio;
pub mod gpmr;
pub mod itss;
pub mod lpc;
pub mod p2sb;
pub mod pcr;
pub mod pmc;
