//! StarFive JH7100: clock generator, reset generator, pad control and
//! system control, each brought up by writing named register fields.
use vstd::prelude::*;
use crate::mmio::{Mmio, RegState, st_rmw};

pub mod clock;
pub mod iopadctl;
pub mod rstgen;
pub mod syscon;

verus! {

/// The register state after setting the field `mask` of register `addr` to
/// the bits of `value` within the mask.
pub open spec fn field_step(s: RegState, addr: u32, mask: u32, value: u32) -> RegState {
    st_rmw(s, addr as u64, !mask, value & mask)
}

/// Sets the field `mask` of register `addr` to the bits of `value` within it.
pub fn set_field(bus: &mut Mmio, addr: u32, mask: u32, value: u32)
    ensures
        final(bus).state() == field_step(old(bus).state(), addr, mask, value),
{
    bus.rmw32(addr as u64, !mask, value & mask);
}

/// What the drivers' command interface answers.
#[derive(Clone, Copy, Debug, PartialEq, Eq, Structural)]
pub enum DriverError {
    NotImplemented,
}

/// Whether `data` is the two-byte command `on`.
pub open spec fn is_on(data: Seq<u8>) -> bool {
    data =~= seq![0x6fu8, 0x6eu8]
}

/// Whether `data` is the command `early`.
pub open spec fn is_early(data: Seq<u8>) -> bool {
    data =~= seq![0x65u8, 0x61u8, 0x72u8, 0x6cu8, 0x79u8]
}

pub fn cmd_is_on(data: &[u8]) -> (r: bool)
    ensures
        r == is_on(data@),
{
    data.len() == 2 && data[0] == 0x6f && data[1] == 0x6e
}

pub fn cmd_is_early(data: &[u8]) -> (r: bool)
    ensures
        r == is_early(data@),
{
    data.len() == 5 && data[0] == 0x65 && data[1] == 0x61 && data[2] == 0x72 && data[3] == 0x6c
        && data[4] == 0x79
}

} // verus!
