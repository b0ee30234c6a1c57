//! Core-local interruptor: machine timer compare and software interrupts.
use vstd::prelude::*;

pub mod msip;
pub mod mtimecmp;

verus! {

pub const UART0_BASE: u64 = 0x0250_0000;
pub const UART_THR: u64 = 0;
pub const UART_RBR: u64 = 0;
pub const UART_LSR: u64 = 0x14;
pub const UART_USR: u64 = 0x7c;

pub const CLINT_BASE: u64 = 0x0400_0000;
pub const MSIP0: u64 = 0;
pub const MTIMECMPL: u64 = 0x4000;

} // verus!
