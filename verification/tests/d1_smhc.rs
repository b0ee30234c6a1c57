use soc::mmio::RegOp;
use soc::sunxi::d1::ccu::{Clocks, Smhc0};
use soc::sunxi::d1::gpio::take_pin;
use soc::sunxi::d1::smhc::card::{CardCurrentState, CardStatus, CardType};
use soc::sunxi::d1::smhc::idmac::{Descriptor, DescriptorConfig, Error as DmaError};
use soc::sunxi::d1::smhc::{
    blocks_to_descriptors, command_word, csd_from_response, csd_v2_from_response, interrupt_outcome, wait_for_interrupt_step, still_programming,
    CommandOptions, DataTransfer, Error, InitAction, InitSession, Interrupt, Response, Smhc,
    SmhcOp, SMHC0_BASE,
};
use soc::sunxi::d1::time::Hz;

fn controller(ops: &mut Vec<SmhcOp>) -> Smhc<Smhc0> {
    let mut gpio = soc::mmio::Mmio::new();
    let pins = (
        take_pin(b'F', 0).into_function::<2>(&mut gpio),
        take_pin(b'F', 1).into_function::<2>(&mut gpio),
        take_pin(b'F', 2).into_function::<2>(&mut gpio),
        take_pin(b'F', 3).into_function::<2>(&mut gpio),
        take_pin(b'F', 4).into_function::<2>(&mut gpio),
        take_pin(b'F', 5).into_function::<2>(&mut gpio),
    );
    let clocks = Clocks { psi: Hz(600_000_000), apb1: Hz(24_000_000) };
    Smhc::new(Smhc0, pins, Hz(400_000), &clocks, ops)
}

#[test]
fn interrupt_bits() {
    assert_eq!(Interrupt::ResponseError.into(), 1 << 1);
    assert_eq!(Interrupt::CommandComplete.into(), 1 << 2);
    assert_eq!(Interrupt::AutoCommandDone.into(), 1 << 14);
    assert_eq!(Interrupt::SDIO.into(), 1 << 16);
    assert_eq!(Interrupt::CardInserted.into(), 1 << 30);
    assert_eq!(Interrupt::CardRemoved.into(), 1 << 31);
}

#[test]
fn interrupt_outcome_checks_errors_before_completion() {
    assert_eq!(interrupt_outcome(0x4, Interrupt::CommandComplete), Some(Ok(())));
    assert_eq!(interrupt_outcome(0x0, Interrupt::CommandComplete), None);
    assert_eq!(interrupt_outcome(0x8, Interrupt::CommandComplete), None);
    assert_eq!(interrupt_outcome(0x104, Interrupt::CommandComplete), Some(Err(Error::ResponseTimeout)));
    assert_eq!(interrupt_outcome(0x42, Interrupt::CommandComplete), Some(Err(Error::ResponseCrc)));
    assert_eq!(interrupt_outcome(0x2, Interrupt::CommandComplete), Some(Err(Error::Response)));
    assert_eq!(interrupt_outcome(0x600, Interrupt::DataTransferComplete), Some(Err(Error::DataStarvationTimeout)));
    assert_eq!(interrupt_outcome(0x200, Interrupt::DataTransferComplete), Some(Err(Error::DataTimeout)));
    assert_eq!(interrupt_outcome(0x80, Interrupt::DataTransferComplete), Some(Err(Error::DataCrc)));
    assert_eq!(interrupt_outcome(0x800, Interrupt::DataTransferComplete), Some(Err(Error::FifoUnderrunOverflow)));
    assert_eq!(interrupt_outcome(0x1000, Interrupt::DataTransferComplete), Some(Err(Error::CommandBusyIllegalWrite)));
    assert_eq!(interrupt_outcome(0x2000, Interrupt::DataTransferComplete), Some(Err(Error::DataStart)));
    assert_eq!(interrupt_outcome(0x8000, Interrupt::DataTransferComplete), Some(Err(Error::DataEnd)));
}

#[test]
fn command_words() {
    assert_eq!(command_word(&CommandOptions::default()), 0x8000_2000);
    assert_eq!(command_word(&CommandOptions::init_cmd(8, 0x1aa, true)), 0x8000_2148);
    assert_eq!(command_word(&CommandOptions::init_cmd(41, 0, false)), 0x8000_2000 | 0x40 | 41);
    assert_eq!(command_word(&CommandOptions::ctrl_cmd(9, 0, Response::Long)), 0x8000_21c9);
    assert_eq!(
        command_word(&CommandOptions::data_cmd(18, 0, DataTransfer::Read, true)),
        0x8000_2000 | 0x1000 | 0x200 | 0x100 | 0x40 | 18
    );
    assert_eq!(
        command_word(&CommandOptions::data_cmd(24, 0, DataTransfer::Write, false)),
        0x8000_2000 | 0x400 | 0x200 | 0x100 | 0x40 | 24
    );
}

#[test]
fn initialize_finds_an_sdhc_card() {
    let (mut s, first) = InitSession::new();
    assert_eq!(first, CommandOptions::init_cmd(8, 0x1aa, true));
    assert_eq!(s.step(Ok(0x1aa)), InitAction::Send(CommandOptions::init_cmd(55, 0, true)));
    assert_eq!(s.step(Ok(0x120)), InitAction::Send(CommandOptions::init_cmd(41, 0x407f_8000, false)));
    // still busy: another round
    assert_eq!(s.step(Ok(0x00ff_8000)), InitAction::Send(CommandOptions::init_cmd(55, 0, true)));
    assert_eq!(s.step(Ok(0)), InitAction::Send(CommandOptions::init_cmd(41, 0x407f_8000, false)));
    assert_eq!(s.step(Ok(0xc0ff_8000)), InitAction::Finished(Ok(CardType::SDHC)));
    assert_eq!(s.step(Ok(0)), InitAction::Finished(Ok(CardType::SDHC)));
}

#[test]
fn initialize_sd1_and_sd2_and_errors() {
    let (mut s, _) = InitSession::new();
    assert_eq!(s.step(Ok(0)), InitAction::Send(CommandOptions::init_cmd(55, 0, true)));
    assert_eq!(s.step(Ok(0)), InitAction::Send(CommandOptions::init_cmd(41, 0x007f_8000, false)));
    assert_eq!(s.step(Ok(0x80ff_8000)), InitAction::Finished(Ok(CardType::SD1)));

    let (mut s, _) = InitSession::new();
    s.step(Ok(0x1aa));
    s.step(Ok(0));
    assert_eq!(s.step(Ok(0x80ff_8000)), InitAction::Finished(Ok(CardType::SD2)));

    let (mut s, _) = InitSession::new();
    assert_eq!(s.step(Err(Error::ResponseTimeout)), InitAction::Finished(Err(Error::ResponseTimeout)));
    assert_eq!(s.step(Ok(0)), InitAction::Finished(Err(Error::ResponseTimeout)));
}

#[test]
fn csd_bytes_are_most_significant_first() {
    let csd = csd_from_response(0x0302_0100, 0x0706_0504, 0x0b0a_0908, 0x0f0e_0d0c);
    assert_eq!(csd, [15, 14, 13, 12, 11, 10, 9, 8, 7, 6, 5, 4, 3, 2, 1, 0]);
}

#[test]
fn card_status_fields() {
    let s = CardStatus::new((1 << 3) | (1 << 5) | (1 << 8) | (4 << 9) | (1 << 19) | (1 << 25));
    assert!(s.auth_seq_error());
    assert!(s.app_cmd());
    assert!(s.ready_for_data());
    assert!(s.error());
    assert!(!s.cc_error());
    assert!(s.is_locked());
    assert_eq!(s.current_state(), CardCurrentState::Tran);
    assert_eq!(CardStatus::new(15 << 9).current_state(), CardCurrentState::Reserved);
    assert_eq!(CardCurrentState::from_u32(8), CardCurrentState::Dis);
    assert!(still_programming(7 << 9));
    assert!(!still_programming(4 << 9));
}

#[test]
fn descriptor_from_config() {
    let cfg = DescriptorConfig {
        disable_int_on_complete: true,
        first: true,
        last: true,
        buff_size: 512,
        buff_addr: 0x4000_1000,
        next_desc: None,
    };
    let d = Descriptor::try_from(cfg).unwrap();
    assert_eq!(d.words(), (0x8000_001e, 512, 0x1000_0400, 0));
    assert!(d.is_owned());
    assert!(!d.is_err());
    let chained = DescriptorConfig { next_desc: Some(0x2010), first: false, last: false, ..cfg };
    assert_eq!(Descriptor::try_from(chained).unwrap().words(), (0x8000_0012, 512, 0x1000_0400, 0x804));
    let odd = DescriptorConfig { buff_size: 510, ..cfg };
    assert_eq!(Descriptor::try_from(odd), Err(DmaError::InvalidBufferSize));
    let big = DescriptorConfig { buff_size: 8192, ..cfg };
    assert_eq!(Descriptor::try_from(big), Err(DmaError::InvalidBufferSize));
    assert_eq!(Descriptor::zeroed().words(), (0, 0, 0, 0));
}

#[test]
fn descriptor_chain() {
    let d = blocks_to_descriptors(&[0x1000, 0x1200, 0x1400], 0x2000).unwrap();
    assert_eq!(d.len(), 3);
    assert_eq!(d[0].words(), (0x8000_0018, 512, 0x400, 0x804));
    assert_eq!(d[1].words(), (0x8000_0010, 512, 0x480, 0x808));
    assert_eq!(d[2].words(), (0x8000_0014, 512, 0x500, 0));
    let one = blocks_to_descriptors(&[0x1000], 0x2000).unwrap();
    assert_eq!(one[0].words(), (0x8000_001c, 512, 0x400, 0));
}

#[test]
fn controller_bring_up_program() {
    let mut ops = Vec::new();
    let _smhc = controller(&mut ops);
    assert_eq!(ops.len(), 22);
    assert_eq!(ops[2], SmhcOp::Reg(RegOp::Write { addr: 0x0200_1830, value: 0x8000_0001 }));
    assert_eq!(ops[6], SmhcOp::Reg(RegOp::WaitClear { addr: SMHC0_BASE, mask: 1 }));
    assert_eq!(ops[21], SmhcOp::Reg(RegOp::Write { addr: SMHC0_BASE + 0x10, value: 512 }));
}

#[test]
fn card_command_programs() {
    let mut ops = Vec::new();
    let smhc = controller(&mut ops);
    let mut ops = Vec::new();
    smhc.reset_card(&mut ops);
    assert_eq!(
        ops,
        vec![
            SmhcOp::Reg(RegOp::Write { addr: SMHC0_BASE + 0x1c, value: 0 }),
            SmhcOp::Reg(RegOp::Write { addr: SMHC0_BASE + 0x18, value: 0x8000_2000 }),
            SmhcOp::WaitInterrupt(Interrupt::CommandComplete),
            SmhcOp::Reg(RegOp::Modify { addr: SMHC0_BASE, and_mask: 0xffff_ffff, or_mask: 2 }),
            SmhcOp::Reg(RegOp::WaitClear { addr: SMHC0_BASE, mask: 2 }),
        ]
    );
    let card = smhc.card(0x1234_0000);
    assert_eq!(card.address(), 0x1234_0000);
    let mut ops = Vec::new();
    card.get_status(&mut ops);
    assert_eq!(ops[0], SmhcOp::Reg(RegOp::Write { addr: SMHC0_BASE + 0x1c, value: 0x1234_0000 }));
    assert_eq!(ops[1], SmhcOp::Reg(RegOp::Write { addr: SMHC0_BASE + 0x18, value: 0x8000_2000 | 0x140 | 13 }));
    let mut ops = Vec::new();
    card.set_wide_bus(&mut ops);
    assert_eq!(ops.len(), 7);
    assert_eq!(ops[6], SmhcOp::Reg(RegOp::Write { addr: SMHC0_BASE + 0x0c, value: 1 }));
}

#[test]
fn block_transfer_programs() {
    let mut ops = Vec::new();
    let smhc = controller(&mut ops);
    let card = smhc.card(0x1234_0000);
    let mut ops = Vec::new();
    assert_eq!(card.read_block(100, 0x4000_0000, 0x5000_0000, &mut ops), Ok(()));
    assert_eq!(
        ops[0],
        SmhcOp::Store { addr: 0x5000_0000, des0: 0x8000_001c, des1: 512, des2: 0x1000_0000, des3: 0 }
    );
    assert_eq!(ops[3], SmhcOp::Reg(RegOp::Write { addr: SMHC0_BASE + 0x84, value: 0x1400_0000 }));
    assert_eq!(ops[4], SmhcOp::Reg(RegOp::Write { addr: SMHC0_BASE + 0x14, value: 512 }));
    assert_eq!(*ops.last().unwrap(), SmhcOp::WaitInterrupt(Interrupt::DataTransferComplete));

    // 20 blocks go in two chunks, 16 then 4
    let bufs: Vec<u32> = (0..20).map(|i| 0x4000_0000 + 512 * i).collect();
    let mut ops = Vec::new();
    assert_eq!(card.write_blocks(1000, &bufs, 0x5000_0000, &mut ops), Ok(()));
    let stores = ops.iter().filter(|o| matches!(o, SmhcOp::Store { .. })).count();
    assert_eq!(stores, 20);
    let ready = ops.iter().filter(|o| matches!(o, SmhcOp::WaitCardReady { rca: 0x1234_0000 })).count();
    assert_eq!(ready, 2);
    let cmds: Vec<u32> = ops
        .iter()
        .filter_map(|o| match o {
            SmhcOp::Reg(RegOp::Write { addr, value }) if *addr == SMHC0_BASE + 0x1c => Some(*value),
            _ => None,
        })
        .collect();
    assert_eq!(cmds, vec![1000, 1016]);
    let counts: Vec<u32> = ops
        .iter()
        .filter_map(|o| match o {
            SmhcOp::Reg(RegOp::Write { addr, value }) if *addr == SMHC0_BASE + 0x14 => Some(*value),
            _ => None,
        })
        .collect();
    assert_eq!(counts, vec![16 * 512, 4 * 512]);

    let mut ops = Vec::new();
    assert_eq!(card.read_blocks(0, &[], 0x5000_0000, &mut ops), Ok(()));
    assert!(ops.is_empty());
}

#[test]
fn csd_v2_capacity_from_response_words() {
    // CSD 40 0E 00 32 5B 59 00 00 1D 69 7F 80 0A 40 00 8B, received as four
    // words with the least significant one first.
    let csd = csd_v2_from_response(0x0a40_008b, 0x1d69_7f80, 0x5b59_0000, 0x400e_0032);
    assert_eq!(csd.card_capacity_blocks(), 7_710_720);
    assert_eq!(csd.card_capacity_bytes(), 3_947_888_640);
    assert!(csd.verify_crc7());
}

#[test]
fn interrupt_wait_ends_with_acknowledge() {
    assert_eq!(wait_for_interrupt_step(SMHC0_BASE, 0x0, Interrupt::CommandComplete), None);
    let ack = RegOp::Write { addr: SMHC0_BASE + 0x38, value: 0x4 };
    assert_eq!(wait_for_interrupt_step(SMHC0_BASE, 0x4, Interrupt::CommandComplete), Some((Ok(()), ack)));
    assert_eq!(
        wait_for_interrupt_step(SMHC0_BASE, 0x104, Interrupt::CommandComplete),
        Some((Err(Error::ResponseTimeout), ack))
    );
}
