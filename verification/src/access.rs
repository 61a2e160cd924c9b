//! Register accesses: what an operation asks for and what has been carried out.

use vstd::prelude::*;

verus! {

/// One register access that has been carried out, with the byte that it moved.
#[derive(Clone, Copy, Debug, PartialEq, Eq)]
pub enum Access {
    /// The byte `value` was read from address `addr`.
    Read { addr: usize, value: u8 },
    /// The byte `value` was written to address `addr`.
    Write { addr: usize, value: u8 },
}

impl Access {
    /// The address that the access went to.
    pub open spec fn addr(self) -> usize {
        match self {
            Access::Read { addr, .. } => addr,
            Access::Write { addr, .. } => addr,
        }
    }

    /// The byte that the access moved.
    pub open spec fn value(self) -> u8 {
        match self {
            Access::Read { value, .. } => value,
            Access::Write { value, .. } => value,
        }
    }
}

/// What a running operation needs from its caller before it can go on.
#[derive(Debug, PartialEq, Eq)]
pub enum Request<T> {
    /// Read the byte at `addr` and report it.
    Read { addr: usize },
    /// Write `value` to `addr` and report that it is done.
    Write { addr: usize, value: u8 },
    /// Nothing more: the operation has ended with this result.
    Done(T),
}

/// The reads of one address that returned `values`, in order.
pub open spec fn reads_of(addr: usize, values: Seq<u8>) -> Seq<Access> {
    Seq::new(values.len(), |i: int| Access::Read { addr, value: values[i] })
}

} // verus!
