//! The device handle and the operations that start from it.

use crate::registers::{
    data_ready, register, transmit_empty, window_fits, LINE_STATUS_DR, LINE_STATUS_THRE,
    REG_TOTAL_SIZE,
};
use crate::receive::{Receive, ReceiveModel};
use crate::setup::Setup;
use crate::transmit::{Transmit, TransmitModel};
use vstd::prelude::*;

verus! {

/// Why an operation gave up.
#[derive(Clone, Copy, Debug, PartialEq, Eq)]
pub enum Fault {
    /// The transmitter holding register did not become empty within the poll budget.
    TxNotEmpty,
    /// No received byte became available within the poll budget.
    DataNotReady,
}

/// One device, known by the address at which its register window starts.
#[derive(Clone, Copy, Debug, PartialEq, Eq)]
pub struct UART {
    base_addr: usize,
}

impl UART {
    /// The address at which the register window starts.
    pub closed spec fn base(&self) -> usize {
        self.base_addr
    }

    /// The whole register window lies in the address space.
    #[verifier::type_invariant]
    pub open spec fn wf(&self) -> bool {
        window_fits(self.base())
    }

    /// Begins the setup of the device whose register window starts at
    /// `base_addr`. The handle to the device is the result of that setup.
    pub fn new(base_addr: usize) -> (setup: Setup)
        requires
            window_fits(base_addr),
        ensures
            setup@.uart.base() == base_addr,
            setup@.written == 0,
            setup@.inv(),
    {
        Setup::start(UART { base_addr })
    }

    /// Size of the register window in bytes.
    pub fn size(&self) -> (bytes: usize)
        ensures
            bytes == REG_TOTAL_SIZE,
            bytes == 8,
    {
        REG_TOTAL_SIZE
    }

    /// Begins the sending of `to_send`.
    pub fn send_byte(&self, to_send: u8) -> (transmit: Transmit)
        ensures
            transmit@ == TransmitModel::start(*self, to_send),
            transmit@.inv(),
    {
        proof {
            use_type_invariant(self);
        }
        Transmit::start(*self, to_send)
    }

    /// Begins the receiving of one byte.
    pub fn read_byte(&self) -> (receive: Receive)
        ensures
            receive@ == ReceiveModel::start(*self),
            receive@.inv(),
    {
        proof {
            use_type_invariant(self);
        }
        Receive::start(*self)
    }

    /// Whether a line status value says that a byte can be sent.
    pub fn is_transmit_empty(status: u8) -> (empty: bool)
        ensures
            empty == transmit_empty(status),
    {
        status & LINE_STATUS_THRE != 0
    }

    /// Whether a line status value says that a byte is ready to be read.
    pub fn is_data_ready(status: u8) -> (ready: bool)
        ensures
            ready == data_ready(status),
    {
        status & LINE_STATUS_DR != 0
    }

    /// The address of the register at `offset`.
    pub(crate) fn register(&self, offset: usize) -> (addr: usize)
        requires
            offset < REG_TOTAL_SIZE,
        ensures
            addr == register(self.base(), offset),
            addr == self.base() + offset,
    {
        proof {
            use_type_invariant(self);
        }
        self.base_addr + offset
    }
}

} // verus!
