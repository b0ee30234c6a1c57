pub mod pci;
pub mod rome;
