//! Interrupt and timer subsystem (ITSS): IRQ polarity.
use vstd::prelude::*;
use crate::mmio::{Mmio, RegState, st_rmw};
use crate::intel::common::block::pcr::{pcr_rmw32, spec_pcr_reg_address};
use crate::intel::apollolake::pcr_ids::PID_ITSS;

verus! {

pub const PCR_ITSS_IPC0_CONF: u16 = 0x3200;
/// Highest IRQ number that the ITSS routes.
pub const ITSS_MAX_IRQ: i32 = 119;
/// IRQs per interrupt polarity control register.
pub const IRQS_PER_IPC: i32 = 32;

/// The PCR state after setting the polarity of `irq` (active low when
/// `active_low` is nonzero); IRQs outside 0..=119 leave it unchanged.
pub open spec fn itss_polarity_step(s: RegState, irq: i32, active_low: i32) -> RegState {
    if irq < 0 || irq > ITSS_MAX_IRQ {
        s
    } else {
        let reg = (PCR_ITSS_IPC0_CONF + 4 * (irq / 32)) as u16;
        let mask = 1u32 << ((irq % 32) as u32);
        st_rmw(
            s,
            spec_pcr_reg_address(PID_ITSS as u8, reg),
            !mask,
            if active_low != 0 {
                mask
            } else {
                0
            },
        )
    }
}

/// Sets the polarity of `irq` in the interrupt polarity control registers.
pub fn itss_set_irq_polarity(pcr: &mut Mmio, irq: i32, active_low: i32)
    ensures
        final(pcr).state() == itss_polarity_step(old(pcr).state(), irq, active_low),
{
    let port = PID_ITSS;
    if irq < 0 || irq > ITSS_MAX_IRQ {
        return;
    }
    let reg: u16 = PCR_ITSS_IPC0_CONF + 4 * ((irq / IRQS_PER_IPC) as u16);
    let mask: u32 = 1u32 << ((irq % IRQS_PER_IPC) as u32);
    pcr_rmw32(
        pcr,
        port as u8,
        reg,
        !mask,
        if active_low != 0 {
            mask
        } else {
            0
        },
    );
}

} // verus!
