use soc::sunxi::d1::time::{Bps, Hz, U32Ext};

#[test]
fn u32_ext_wraps_rate_and_frequency() {
    assert_eq!(115_200u32.bps(), Bps(115_200));
    assert_eq!(24_000_000u32.hz(), Hz(24_000_000));
}
