use soc::intel::apollolake::gpio_glk::soc_gpio_get_community;
use soc::intel::common::block::gpio::gpio_defs::{bit_width, pad_cfg0_mode_func};
use soc::intel::common::block::gpio::{
    gpio_get, gpio_get_community, gpio_input_pulldown, gpio_lock_pad, gpio_lock_pads, gpio_output,
    set_ioapic_used, GpioEnv, GpioLockAction, GpioLockConfig, GpioPlatform, IoapicIrqsUsed,
    PadConfig,
};
use soc::intel::common::block::p2sb::PCH_DEV_P2SB;
use soc::intel::Error;
use soc::mmio::Mmio;
use soc::pci::pci_read_config8;

fn env() -> GpioEnv {
    GpioEnv {
        romstage_or_before: false,
        smm: false,
        recovery_mode: false,
        smm_lock_gpio_pads: false,
        lock_using_pcr: false,
        lock_using_sbi: false,
        untrusted_mode: false,
        itss_pol_cfg: true,
    }
}

fn platform(env: GpioEnv) -> GpioPlatform {
    GpioPlatform {
        pcr: Mmio::new(),
        pci_cfg: Mmio::new(),
        irqs: IoapicIrqsUsed::new(),
        sbi_queue: Vec::new(),
        env,
    }
}

#[test]
fn communities_and_offsets() {
    let comms = soc_gpio_get_community();
    assert_eq!(comms.len(), 4);
    let c = gpio_get_community(5, &comms).unwrap();
    assert_eq!(c.port, 0xc4);
    assert_eq!(c.pad_config_offset(5), 0x600 + 5 * 16);
    let c = gpio_get_community(85, &comms).unwrap();
    assert_eq!(c.port, 0xc5);
    assert_eq!(c.relative_pad_in_comm(85), 5);
    assert_eq!(gpio_get_community(500, &comms).err(), Some(Error::MissingCommunityPad));
}

#[test]
fn output_reads_back_through_gpio_get() {
    let mut p = platform(env());
    // whatever the pad's register held before
    p.pcr.load32(0xd0c4_0600 + 7 * 16, 0xffff_ffff);
    assert_eq!(gpio_output(&mut p, 7, 0), Ok(()));
    assert_eq!(gpio_get(&p.pcr, 7), Ok(0));
    assert_eq!(gpio_output(&mut p, 7, 1), Ok(()));
    assert_eq!(gpio_get(&p.pcr, 7), Ok(1));
    assert_eq!(gpio_get(&p.pcr, 999), Err(Error::MissingCommunityPad));
}

#[test]
fn configure_pad_keeps_bits_it_does_not_own() {
    let mut p = platform(env());
    let dw0 = 0xd0c5_0600 + 3 * 16;
    p.pcr.load32(dw0, 0x0001_e0fe);
    let pc = PadConfig::create(83, 0x4000_0201, 0x3c00);
    assert_eq!(pc.configure_pad(&mut p), Ok(()));
    // DW0: bits outside 0xfffe_1f01 kept, bits inside from the configuration
    assert_eq!(p.pcr.read32(dw0), (0x4000_0201 & 0xfffe_1f01) | (0x0001_e0fe & !0xfffe_1f01));
    // DW1: the owned bits 13:8
    assert_eq!(p.pcr.read32(dw0 + 4), 0x3c00);
}

#[test]
fn input_pulldown_configuration() {
    let mut p = platform(env());
    gpio_input_pulldown(&mut p, 10);
    let dw0 = 0xd0c4_0600 + 10 * 16;
    assert_eq!(p.pcr.read32(dw0), 0x4000_0100);
    assert_eq!(p.pcr.read32(dw0 + 4), 0x1000);
}

#[test]
fn ioapic_routing_marks_the_irq_used() {
    let mut p = platform(env());
    let dw0 = 0xd0c4_0600 + 2 * 16;
    // IRQ 33 in DW1
    p.pcr.load32(dw0 + 4, 33);
    let pc = PadConfig::create(2, 0x0010_0000 | 0x80_0000, 0);
    assert_eq!(pc.configure_pad(&mut p), Ok(()));
    assert_eq!(p.irqs.words[1], 1 << 1);
    // active-low polarity
    assert_eq!(p.pcr.read32(0xd0d0_3204), 1 << 1);

    let mut irqs = IoapicIrqsUsed::new();
    set_ioapic_used(&mut irqs, 65);
    assert_eq!(irqs.words[2], 2);
}

#[test]
fn locking_pads() {
    // before ramstage nothing is locked
    let mut p = platform(GpioEnv { romstage_or_before: true, ..env() });
    assert_eq!(gpio_lock_pad(&mut p, 3, GpioLockAction::LockFull), Err(Error::SkipGpioPad));
    // outside SMM the communities have no lock register
    let mut p = platform(env());
    assert_eq!(gpio_lock_pad(&mut p, 3, GpioLockAction::LockFull), Err(Error::UndefinedOffset));
    let mut p = platform(GpioEnv { untrusted_mode: true, ..env() });
    assert_eq!(gpio_lock_pad(&mut p, 3, GpioLockAction::LockFull), Err(Error::UntrustedMode));
    // in SMM the P2SB is unhidden and hidden again around the locks
    let smm = GpioEnv { smm: true, smm_lock_gpio_pads: true, ..env() };
    let mut p = platform(smm);
    let list = [GpioLockConfig { pad: 3, lock_action: GpioLockAction::LockConfig }];
    assert_eq!(gpio_lock_pads(&mut p, &list), Ok(()));
    assert_eq!(pci_read_config8(&p.pci_cfg, PCH_DEV_P2SB, 0xe1) & 1, 1);
    assert_eq!(gpio_lock_pads(&mut p, &[]), Err(Error::NullGpioPads));
    let mut p = platform(env());
    assert_eq!(gpio_lock_pads(&mut p, &list), Err(Error::NoSmm));
}

#[test]
fn pad_field_helpers() {
    assert_eq!(bit_width(3), 7);
    assert_eq!(bit_width(0), 0);
    assert_eq!(bit_width(31), 0x7fff_ffff);
    assert_eq!(pad_cfg0_mode_func(2), 2 << 10);
    let pc = PadConfig::create(1, 2, 3);
    assert_eq!(pc.soc_gpio_pad_config_fixup(0, 0x55), 0x55);
}

#[test]
fn sideband_lock_result_follows_the_transaction() {
    let pcr = Mmio::new();
    let lock = GpioLockConfig { pad: 3, lock_action: GpioLockAction::LockConfig };
    let mut queue = Vec::new();
    let queued = lock.gpio_pad_config_lock_using_sbi(&pcr, &mut queue, 5, 0x42, 0x880, 0x8);
    assert_eq!(queued, Ok(()));
    assert_eq!(queue.len(), 1);
    assert_eq!(queue[0].after_cfg_writes, 5);
    assert_eq!(queue[0].after_pcr_writes, 0);
    assert_eq!(queue[0].session.data, 0x8);
    assert_eq!(lock.gpio_pad_config_lock_sbi_result(queued, Err(Error::SbiFailure)), Err(Error::SbiFailure));
    assert_eq!(lock.gpio_pad_config_lock_sbi_result(queued, Ok(())), Ok(()));
    let unlock = GpioLockConfig { pad: 3, lock_action: GpioLockAction::Unlock };
    let queued = unlock.gpio_pad_config_lock_using_sbi(&pcr, &mut queue, 5, 0x42, 0x880, 0x8);
    assert_eq!(queued, Err(Error::MissingLockAction));
    assert_eq!(unlock.gpio_pad_config_lock_sbi_result(queued, Ok(())), Err(Error::MissingLockAction));
    let tx = GpioLockConfig { pad: 3, lock_action: GpioLockAction::LockTx };
    let queued = tx.gpio_pad_config_lock_using_sbi(&pcr, &mut queue, 5, 0x42, 0x881, 0x8);
    assert_eq!(queue.len(), 1);
    assert_eq!(tx.gpio_pad_config_lock_sbi_result(queued, Err(Error::SbiFailure)), Ok(()));
}
