//! The two bus addresses the sensor can answer to.

use vstd::prelude::*;

verus! {

/// I2C address of the sensor, selected by the level of its SA0 pad.
#[allow(non_camel_case_types)]
#[derive(Clone, Copy, Debug, PartialEq, Eq)]
pub enum I2cAddress {
    /// SA0 pad tied to the supply voltage.
    SA0_PAD_VOLTAGE,
    /// SA0 pad tied to ground.
    SA0_PAD_GROUND,
}

impl I2cAddress {
    /// The 7-bit address that goes on the bus.
    pub open spec fn value(self) -> u8 {
        match self {
            I2cAddress::SA0_PAD_VOLTAGE => 0x5D,
            I2cAddress::SA0_PAD_GROUND => 0x5C,
        }
    }

    /// The 7-bit address that goes on the bus.
    pub fn addr(&self) -> (a: u8)
        ensures
            a == self.value(),
    {
        match *self {
            I2cAddress::SA0_PAD_VOLTAGE => 0x5D,
            I2cAddress::SA0_PAD_GROUND => 0x5C,
        }
    }
}

/// Both addresses fit in seven bits, and the two pad levels never select the
/// same one.
pub proof fn lemma_device_addresses(a: I2cAddress, b: I2cAddress)
    ensures
        a.value() < 128,
        a.value() == b.value() ==> a == b,
{
}

} // verus!
