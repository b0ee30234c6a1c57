use soc::mmio::{BusWrite, Mmio};

#[test]
fn read_gives_back_the_last_write() {
    let mut m = Mmio::new();
    assert_eq!(m.read32(0x100), 0);
    m.write32(0x100, 7);
    m.write32(0x104, 9);
    assert_eq!(m.read32(0x100), 7);
    m.write32(0x100, 8);
    assert_eq!(m.read32(0x100), 8);
    assert_eq!(m.read32(0x104), 9);
    assert_eq!(m.write_count(), 3);
    assert_eq!(m.write_at(0), BusWrite { addr: 0x100, value: 7, width: 4 });
    assert_eq!(m.write_at(2), BusWrite { addr: 0x100, value: 8, width: 4 });
}

#[test]
fn loading_is_not_writing_and_rmw_is_idempotent() {
    let mut m = Mmio::new();
    m.load32(0x10, 0xf0f0);
    assert_eq!(m.write_count(), 0);
    m.rmw32(0x10, 0xff00, 0x3);
    assert_eq!(m.read32(0x10), 0xf003);
    m.rmw32(0x10, 0xff00, 0x3);
    assert_eq!(m.read32(0x10), 0xf003);
    assert_eq!(m.write_count(), 2);
}

#[test]
fn narrow_and_wide_writes_keep_their_width() {
    let mut m = Mmio::new();
    m.load32(0x200, 0x1122_3344);
    m.write_lanes(0x200, 1, 1, 0xab);
    assert_eq!(m.read32(0x200), 0x1122_ab44);
    assert_eq!(m.write_at(0), BusWrite { addr: 0x201, value: 0xab, width: 1 });
    m.write_lanes(0x200, 2, 2, 0xcdef);
    assert_eq!(m.read32(0x200), 0xcdef_ab44);
    assert_eq!(m.write_at(1), BusWrite { addr: 0x202, value: 0xcdef, width: 2 });
    m.write64(0x300, 0x0102_0304_0506_0708);
    assert_eq!(m.read32(0x300), 0x0506_0708);
    assert_eq!(m.read32(0x304), 0x0102_0304);
    assert_eq!(m.write_count(), 3);
    assert_eq!(m.write_at(2), BusWrite { addr: 0x300, value: 0x0102_0304_0506_0708, width: 8 });
}
