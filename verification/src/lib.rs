pub mod amd;
pub mod intel;
pub mod mmio;
pub mod pci;
pub mod sifive;
pub mod southbridge;
pub mod starfive;
pub mod sunxi;
