//! Clock control unit driver: the UART bus gating reset register.
use vstd::prelude::*;
use crate::sunxi::board::reg::CCU_BASE_ADDR;

verus! {

/// Offset of the UART bus gating reset register in the CCU block.
pub const UART_BGR_OFFSET: usize = 0x090c;

/// What the driver's command interface answers.
#[derive(Clone, Copy, Debug, PartialEq, Eq, Structural)]
pub enum DriverError {
    NotImplemented,
}

/// The clock control unit at its base address.
pub struct CCU {
    base: usize,
}

impl CCU {
    pub closed spec fn spec_base(&self) -> usize {
        self.base
    }

    pub fn new() -> (c: CCU)
        ensures
            c.spec_base() == CCU_BASE_ADDR,
    {
        CCU { base: CCU_BASE_ADDR as usize }
    }

    /// The register block's address.
    pub fn ptr(&self) -> (r: usize)
        ensures
            r == self.spec_base(),
    {
        self.base
    }

    /// Address of the UART bus gating reset register.
    pub fn bgr_addr(&self) -> (r: usize)
        requires
            self.spec_base() + UART_BGR_OFFSET <= usize::MAX,
        ensures
            r == self.spec_base() + UART_BGR_OFFSET,
    {
        self.base + UART_BGR_OFFSET
    }

    pub fn init(&mut self) -> (r: Result<(), DriverError>)
        ensures
            r is Ok,
    {
        Ok(())
    }

    /// Reads nothing and reports all of `data` as read.
    pub fn pread(&self, data: &mut [u8], _offset: usize) -> (r: Result<usize, DriverError>)
        ensures
            r == Ok::<usize, DriverError>(old(data)@.len() as usize),
            final(data)@ == old(data)@,
    {
        Ok(data.len())
    }

    /// Writes nothing and reports all of `data` as written.
    pub fn pwrite(&mut self, data: &[u8], _offset: usize) -> (r: Result<usize, DriverError>)
        ensures
            r == Ok::<usize, DriverError>(data@.len() as usize),
    {
        Ok(data.len())
    }

    pub fn ctl(&mut self) -> (r: Result<usize, DriverError>)
        ensures
            r == Err::<usize, DriverError>(DriverError::NotImplemented),
    {
        Err(DriverError::NotImplemented)
    }

    pub fn stat(&self, _data: &mut [u8]) -> (r: Result<usize, DriverError>)
        ensures
            r == Err::<usize, DriverError>(DriverError::NotImplemented),
    {
        Err(DriverError::NotImplemented)
    }

    pub fn shutdown(&mut self) {
    }
}

impl Default for CCU {
    fn default() -> (c: Self)
        ensures
            c.spec_base() == CCU_BASE_ADDR,
    {
        Self::new()
    }
}

} // verus!
