//! The register map of the sensor.
//!
//! Registers come in two kinds. Those of [`Lps22ReadRegister`] can only be
//! read; those of [`Lps22ReadWriteRegister`] can be read and written. What a
//! register can be used for is a matter of which of the traits
//! [`ReadRegister`] and [`WriteRegister`] its type implements, so a write to
//! a read-only register does not compile.

use vstd::prelude::*;

verus! {

/// A register that can be read.
pub trait ReadRegister {
    /// The address a read of this register is directed to.
    spec fn read_address(&self) -> u8;

    /// The one-byte address of the register.
    fn addr(&self) -> (a: u8)
        ensures
            a == self.read_address(),
    ;
}

/// A register that can be written.
pub trait WriteRegister {
    /// The address a write to this register is directed to.
    spec fn write_address(&self) -> u8;

    /// The one-byte address of the register.
    fn addr(&self) -> (a: u8)
        ensures
            a == self.write_address(),
    ;
}

/// Registers that can be read and written.
#[allow(non_camel_case_types)]
#[derive(Clone, Copy, Debug, PartialEq, Eq)]
pub enum Lps22ReadWriteRegister {
    /// Interrupt configuration.
    INTERRUPT_CFG,
    /// Pressure threshold, low byte.
    THS_P_L,
    /// Pressure threshold, high byte.
    THS_P_H,
    /// Interface control.
    IF_CTRL,
    /// Control register 1.
    CTRL_REG1,
    /// Control register 2.
    CTRL_REG2,
    /// Control register 3.
    CTRL_REG3,
    /// FIFO control.
    FIFO_CTRL,
    /// FIFO watermark.
    FIFO_WTM,
    /// Pressure offset, low byte.
    RPDS_L,
    /// Pressure offset, high byte.
    RPDS_H,
}

/// Registers that can only be read.
#[allow(non_camel_case_types)]
#[derive(Clone, Copy, Debug, PartialEq, Eq)]
pub enum Lps22ReadRegister {
    /// Device identity.
    WHO_AM_I,
    /// Reference pressure, low byte.
    REF_P_L,
    /// Reference pressure, high byte.
    REF_P_H,
    /// Interrupt source.
    INT_SOURCE,
    /// FIFO status 1.
    FIFO_STATUS1,
    /// FIFO status 2.
    FIFO_STATUS2,
    /// Status.
    STATUS,
    /// Pressure output, lowest byte.
    PRESSURE_OUT_XL,
    /// Pressure output, middle byte.
    PRESSURE_OUT_L,
    /// Pressure output, highest byte.
    PRESSURE_OUT_H,
    /// Temperature output, low byte.
    TEMP_OUT_L,
    /// Temperature output, high byte.
    TEMP_OUT_H,
    /// FIFO pressure output, lowest byte.
    FIFO_DATA_OUT_PRESS_XL,
    /// FIFO pressure output, middle byte.
    FIFO_DATA_OUT_PRESS_L,
    /// FIFO pressure output, highest byte.
    FIFO_DATA_OUT_PRESS_H,
    /// FIFO temperature output, low byte.
    FIFO_DATA_OUT_TEMP_L,
    /// FIFO temperature output, high byte.
    FIFO_DATA_OUT_TEMP_H,
}

impl Lps22ReadWriteRegister {
    /// The address of the register, as the register table of the datasheet
    /// gives it.
    pub open spec fn address(self) -> u8 {
        match self {
            Lps22ReadWriteRegister::INTERRUPT_CFG => 0x0B,
            Lps22ReadWriteRegister::THS_P_L => 0x0C,
            Lps22ReadWriteRegister::THS_P_H => 0x0D,
            Lps22ReadWriteRegister::IF_CTRL => 0x0E,
            Lps22ReadWriteRegister::CTRL_REG1 => 0x10,
            Lps22ReadWriteRegister::CTRL_REG2 => 0x11,
            Lps22ReadWriteRegister::CTRL_REG3 => 0x12,
            Lps22ReadWriteRegister::FIFO_CTRL => 0x13,
            Lps22ReadWriteRegister::FIFO_WTM => 0x14,
            Lps22ReadWriteRegister::RPDS_L => 0x18,
            Lps22ReadWriteRegister::RPDS_H => 0x19,
        }
    }
}

impl Lps22ReadRegister {
    /// The address of the register, as the register table of the datasheet
    /// gives it.
    pub open spec fn address(self) -> u8 {
        match self {
            Lps22ReadRegister::WHO_AM_I => 0x0F,
            Lps22ReadRegister::REF_P_L => 0x15,
            Lps22ReadRegister::REF_P_H => 0x16,
            Lps22ReadRegister::INT_SOURCE => 0x24,
            Lps22ReadRegister::FIFO_STATUS1 => 0x25,
            Lps22ReadRegister::FIFO_STATUS2 => 0x26,
            Lps22ReadRegister::STATUS => 0x27,
            Lps22ReadRegister::PRESSURE_OUT_XL => 0x28,
            Lps22ReadRegister::PRESSURE_OUT_L => 0x29,
            Lps22ReadRegister::PRESSURE_OUT_H => 0x2A,
            Lps22ReadRegister::TEMP_OUT_L => 0x2B,
            Lps22ReadRegister::TEMP_OUT_H => 0x2C,
            Lps22ReadRegister::FIFO_DATA_OUT_PRESS_XL => 0x78,
            Lps22ReadRegister::FIFO_DATA_OUT_PRESS_L => 0x79,
            Lps22ReadRegister::FIFO_DATA_OUT_PRESS_H => 0x7A,
            Lps22ReadRegister::FIFO_DATA_OUT_TEMP_L => 0x7B,
            Lps22ReadRegister::FIFO_DATA_OUT_TEMP_H => 0x7C,
        }
    }
}

impl WriteRegister for Lps22ReadWriteRegister {
    open spec fn write_address(&self) -> u8 {
        self.address()
    }

    fn addr(&self) -> (a: u8) {
        match *self {
            Lps22ReadWriteRegister::INTERRUPT_CFG => 0x0B,
            Lps22ReadWriteRegister::THS_P_L => 0x0C,
            Lps22ReadWriteRegister::THS_P_H => 0x0D,
            Lps22ReadWriteRegister::IF_CTRL => 0x0E,
            Lps22ReadWriteRegister::CTRL_REG1 => 0x10,
            Lps22ReadWriteRegister::CTRL_REG2 => 0x11,
            Lps22ReadWriteRegister::CTRL_REG3 => 0x12,
            Lps22ReadWriteRegister::FIFO_CTRL => 0x13,
            Lps22ReadWriteRegister::FIFO_WTM => 0x14,
            Lps22ReadWriteRegister::RPDS_L => 0x18,
            Lps22ReadWriteRegister::RPDS_H => 0x19,
        }
    }
}

impl ReadRegister for Lps22ReadWriteRegister {
    open spec fn read_address(&self) -> u8 {
        self.address()
    }

    fn addr(&self) -> (a: u8) {
        WriteRegister::addr(self)
    }
}

impl ReadRegister for Lps22ReadRegister {
    open spec fn read_address(&self) -> u8 {
        self.address()
    }

    fn addr(&self) -> (a: u8) {
        match *self {
            Lps22ReadRegister::WHO_AM_I => 0x0F,
            Lps22ReadRegister::REF_P_L => 0x15,
            Lps22ReadRegister::REF_P_H => 0x16,
            Lps22ReadRegister::INT_SOURCE => 0x24,
            Lps22ReadRegister::FIFO_STATUS1 => 0x25,
            Lps22ReadRegister::FIFO_STATUS2 => 0x26,
            Lps22ReadRegister::STATUS => 0x27,
            Lps22ReadRegister::PRESSURE_OUT_XL => 0x28,
            Lps22ReadRegister::PRESSURE_OUT_L => 0x29,
            Lps22ReadRegister::PRESSURE_OUT_H => 0x2A,
            Lps22ReadRegister::TEMP_OUT_L => 0x2B,
            Lps22ReadRegister::TEMP_OUT_H => 0x2C,
            Lps22ReadRegister::FIFO_DATA_OUT_PRESS_XL => 0x78,
            Lps22ReadRegister::FIFO_DATA_OUT_PRESS_L => 0x79,
            Lps22ReadRegister::FIFO_DATA_OUT_PRESS_H => 0x7A,
            Lps22ReadRegister::FIFO_DATA_OUT_TEMP_L => 0x7B,
            Lps22ReadRegister::FIFO_DATA_OUT_TEMP_H => 0x7C,
        }
    }
}

/// A register that can be read and written has one address, whichever of the
/// two it is used for.
pub proof fn lemma_one_address_for_both_uses(register: Lps22ReadWriteRegister)
    ensures
        register.read_address() == register.write_address(),
        register.read_address() == register.address(),
{
}

/// No two registers that can be read and written share an address.
pub proof fn lemma_read_write_addresses_distinct(
    a: Lps22ReadWriteRegister,
    b: Lps22ReadWriteRegister,
)
    requires
        a.address() == b.address(),
    ensures
        a == b,
{
}

/// No two read-only registers share an address.
pub proof fn lemma_read_addresses_distinct(a: Lps22ReadRegister, b: Lps22ReadRegister)
    requires
        a.address() == b.address(),
    ensures
        a == b,
{
}

/// A read-only register never has the address of a register that can be
/// written.
pub proof fn lemma_kinds_disjoint(writable: Lps22ReadWriteRegister, readable: Lps22ReadRegister)
    ensures
        writable.address() != readable.address(),
{
}

} // verus!
