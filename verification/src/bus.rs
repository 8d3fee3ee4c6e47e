//! Bus transactions and their outcomes.
//!
//! The driver never touches the bus. It says which transaction is due, as a
//! [`Transaction`]; whoever owns the bus performs it and reports how it went,
//! as an [`Outcome`].

use vstd::prelude::*;

verus! {

/// One transaction on the bus.
#[derive(Clone, Copy, Debug, PartialEq, Eq)]
pub enum Transaction {
    /// A write of two bytes to the device: the address of a register, then
    /// the value to store in it.
    Write {
        /// 7-bit address of the device.
        device: u8,
        /// Address of the register.
        register: u8,
        /// The byte to store.
        value: u8,
    },
    /// A write of one byte to the device, the address of a register,
    /// followed without a stop by a read of `count` bytes.
    WriteRead {
        /// 7-bit address of the device.
        device: u8,
        /// Address of the first register to read.
        register: u8,
        /// How many bytes to read.
        count: usize,
    },
}

/// How a transaction went.
#[derive(Debug, PartialEq, Eq)]
pub enum Outcome<E> {
    /// A write was acknowledged.
    Written,
    /// A read delivered these bytes, lowest register address first.
    Read(Vec<u8>),
    /// The bus reported an error.
    Failed(E),
}

impl Transaction {
    /// The 7-bit address of the device the transaction is directed to.
    pub open spec fn target(self) -> u8 {
        match self {
            Transaction::Write { device, .. } => device,
            Transaction::WriteRead { device, .. } => device,
        }
    }

    /// The bytes the transaction writes, in the order they go on the bus.
    pub open spec fn payload(self) -> Seq<u8> {
        match self {
            Transaction::Write { register, value, .. } => seq![register, value],
            Transaction::WriteRead { register, .. } => seq![register],
        }
    }

    /// Whether `outcome` is a way this transaction can go: any failure, an
    /// acknowledgement for a write, for a read as many bytes as were asked
    /// for.
    pub open spec fn answered_by<E>(self, outcome: Outcome<E>) -> bool {
        match outcome {
            Outcome::Failed(_) => true,
            Outcome::Written => self is Write,
            Outcome::Read(bytes) => self matches Transaction::WriteRead { count, .. }
                && bytes@.len() == count,
        }
    }

    /// The 7-bit address of the device the transaction is directed to.
    pub fn device(&self) -> (device: u8)
        ensures
            device == self.target(),
    {
        match *self {
            Transaction::Write { device, .. } => device,
            Transaction::WriteRead { device, .. } => device,
        }
    }

    /// The bytes to write, in the order they go on the bus.
    pub fn bytes(&self) -> (bytes: Vec<u8>)
        ensures
            bytes@ == self.payload(),
    {
        match *self {
            Transaction::Write { register, value, .. } => vec![register, value],
            Transaction::WriteRead { register, .. } => vec![register],
        }
    }
}

} // verus!
