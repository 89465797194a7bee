//! The register map of the INA219.
//!
//! The chip has six 16-bit registers, selected by a one-byte address written
//! on the bus before the two data bytes are transferred.

use vstd::prelude::*;

verus! {

/// Addresses of the internal registers of the INA219.
#[derive(Debug, Copy, Clone, Eq, PartialEq, Structural)]
pub enum RegisterName {
    /// Configuration register
    Configuration,
    /// Shunt voltage register
    ShuntVoltage,
    /// Bus voltage register
    BusVoltage,
    /// Power register
    Power,
    /// Current register
    Current,
    /// Calibration register
    Calibration,
}

impl RegisterName {
    /// The one-byte address under which the register is reachable.
    pub open spec fn spec_address(self) -> u8 {
        match self {
            RegisterName::Configuration => 0x00,
            RegisterName::ShuntVoltage => 0x01,
            RegisterName::BusVoltage => 0x02,
            RegisterName::Power => 0x03,
            RegisterName::Current => 0x04,
            RegisterName::Calibration => 0x05,
        }
    }

    /// The one-byte address under which the register is reachable.
    pub fn address(self) -> (r: u8)
        ensures
            r == self.spec_address(),
    {
        match self {
            RegisterName::Configuration => 0x00,
            RegisterName::ShuntVoltage => 0x01,
            RegisterName::BusVoltage => 0x02,
            RegisterName::Power => 0x03,
            RegisterName::Current => 0x04,
            RegisterName::Calibration => 0x05,
        }
    }
}

/// A value that lives in one fixed register of the chip.
pub trait Register {
    /// The register the value lives in.
    fn register_name() -> RegisterName;
}

/// A register value that the application reads from the chip.
pub trait ReadRegister: Register + Sized {
    /// The value represented by the 16 bits read from the register.
    fn from_bits(bits: u16) -> Self;
}

/// A register value that the application writes to the chip.
pub trait WriteRegister: Register {
    /// The 16 bits to write to the register.
    fn as_bits(&self) -> u16;
}

} // verus!
