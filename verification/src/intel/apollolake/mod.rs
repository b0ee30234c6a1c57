pub mod cpu;
pub mod gpio_glk;
pub mod meminit;
pub mod meminit_glk;
pub mod pci_devs;
pub mod pcr_ids;
