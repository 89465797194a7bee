//! Types wrapping the measurements of the INA219.
//!
//! These types turn the raw register words into typed physical quantities:
//! the shunt voltage in units of 10µV, the bus voltage in units of 4mV
//! together with the two status flags it carries, and the raw current and
//! power register contents left for a calibration to interpret.

use crate::configuration::{BusVoltageRange, ShuntVoltageRange};
use crate::register::{ReadRegister, Register, RegisterName};
use vstd::prelude::*;

verus! {

/// A collection of all the measurements collected by the INA219.
#[derive(Debug, Copy, Clone, Eq, PartialEq)]
pub struct Measurements<Current, Power> {
    /// Measured `BusVoltage`
    pub bus_voltage: BusVoltage,
    /// Measured `ShuntVoltage`
    pub shunt_voltage: ShuntVoltage,
    /// Measured `Current`
    pub current: Current,
    /// Measured `Power`
    pub power: Power,
}

/// Errors that can arise when current and power are calculated.
#[derive(Debug, Copy, Clone, Eq, PartialEq, Structural)]
pub enum MathErrors {
    /// The INA219 reported a math overflow during the calculation
    MathOverflow,
}

/// The signed value represented by the 16 register bits, two's complement.
pub open spec fn spec_signed(bits: u16) -> i16 {
    if bits <= 32767 {
        bits as i16
    } else {
        (bits - 65536) as i16
    }
}

/// The 16 register bits representing a signed value, two's complement.
pub open spec fn spec_unsigned(v: i16) -> u16 {
    if v >= 0 {
        v as u16
    } else {
        (v + 65536) as u16
    }
}

/// Division truncating towards zero, the way the machine divides.
pub open spec fn spec_div_trunc(a: int, b: int) -> int {
    if a >= 0 {
        a / b
    } else {
        -((-a) / b)
    }
}

/// A shunt voltage measurement as read from the shunt voltage register.
#[derive(Default, Copy, Clone, Eq, PartialEq, Structural, Debug)]
pub struct ShuntVoltage(i16);

impl ShuntVoltage {
    /// The measured voltage in units of 10µV.
    pub closed spec fn spec_10uv(self) -> i16 {
        self.0
    }

    /// Whether a reading in units of 10µV lies within `range`.
    pub open spec fn spec_in_range(ten_uv: i16, range: ShuntVoltageRange) -> bool {
        -(range.spec_max_mv() as int) * 100 <= ten_uv <= (range.spec_max_mv() as int) * 100
    }

    /// Turns the bits read from the register into a `ShuntVoltage`, checking
    /// that it is in the maximum measurement range of the INA219.
    pub fn from_bits(bits: u16) -> (r: Option<Self>)
        ensures
            r is Some <==> Self::spec_in_range(spec_signed(bits), ShuntVoltageRange::Fsr320mv),
            r matches Some(sv) ==> sv.spec_10uv() == spec_signed(bits),
    {
        Self::from_bits_with_range(ShuntVoltageRegister(bits), ShuntVoltageRange::Fsr320mv)
    }

    /// Turns the bits of the register into a `ShuntVoltage`, checking that it
    /// is in the range given by `range`.
    pub fn from_bits_with_range(reg: ShuntVoltageRegister, range: ShuntVoltageRange) -> (r: Option<
        Self,
    >)
        ensures
            r is Some <==> Self::spec_in_range(spec_signed(reg.0), range),
            r matches Some(sv) ==> sv.spec_10uv() == spec_signed(reg.0),
    {
        let raw = Self::from_bits_unchecked(reg);
        let ten_uv = raw.shunt_voltage_10uv();
        let max = range.max_mv();
        if ten_uv >= -max * 100 && ten_uv <= max * 100 {
            Some(raw)
        } else {
            None
        }
    }

    /// Turns the bits of the register into a `ShuntVoltage` without
    /// performing any range checks.
    pub fn from_bits_unchecked(reg: ShuntVoltageRegister) -> (r: Self)
        ensures
            r.spec_10uv() == spec_signed(reg.0),
    {
        let bits = reg.0;
        if bits <= 32767 {
            ShuntVoltage(bits as i16)
        } else {
            ShuntVoltage((bits as i32 - 65536) as i16)
        }
    }

    /// Get the shunt voltage in 10µV, the resolution reported by the INA219.
    pub fn shunt_voltage_10uv(self) -> (r: i16)
        ensures
            r == self.spec_10uv(),
    {
        self.0
    }

    /// Get the shunt voltage in µV.
    pub fn shunt_voltage_uv(self) -> (r: i32)
        ensures
            r == self.spec_10uv() * 10,
    {
        (self.0 as i32) * 10
    }

    /// Get the shunt voltage in mV, truncating trailing digits.
    pub fn shunt_voltage_mv(self) -> (r: i16)
        ensures
            r == spec_div_trunc(self.spec_10uv() as int, 100),
    {
        self.0 / 100
    }

    /// Create a `ShuntVoltage` from a value of unit 10µV.
    pub fn from_10uv(uv: i16) -> (r: Self)
        ensures
            r.spec_10uv() == uv,
    {
        Self(uv)
    }

    /// The raw register bits of this reading, two's complement.
    pub fn raw(self) -> (r: u16)
        ensures
            r == spec_unsigned(self.spec_10uv()),
    {
        if self.0 >= 0 {
            self.0 as u16
        } else {
            (self.0 as i32 + 65536) as u16
        }
    }
}

/// The raw contents of the shunt voltage register.
#[derive(Debug, Copy, Clone, Eq, PartialEq, Structural)]
pub struct ShuntVoltageRegister(pub u16);

impl Register for ShuntVoltageRegister {
    fn register_name() -> RegisterName {
        RegisterName::ShuntVoltage
    }
}

impl ReadRegister for ShuntVoltageRegister {
    fn from_bits(bits: u16) -> Self {
        Self(bits)
    }
}

/// Contents of the bus voltage register.
///
/// This contains, next to the measurement, two flags about the last
/// measurement: conversion ready in bit 1 and math overflow in bit 0.
#[derive(Default, Copy, Clone, Eq, PartialEq, Structural, Debug)]
pub struct BusVoltage(u16);

impl BusVoltage {
    /// The raw register word the reading was made from.
    pub closed spec fn spec_bits(self) -> u16 {
        self.0
    }

    /// The measured voltage in units of 4mV: the register word above its
    /// three flag and padding bits.
    pub open spec fn spec_voltage_4mv(self) -> u16 {
        self.spec_bits() >> 3
    }

    /// The measured voltage in mV.
    pub open spec fn spec_voltage_mv(self) -> u16 {
        (self.spec_voltage_4mv() * 4) as u16
    }

    /// Whether the conversion ready flag (bit 1) is set.
    pub open spec fn spec_conversion_ready(self) -> bool {
        self.spec_bits() & 0b10 != 0
    }

    /// Whether the math overflow flag (bit 0) is set.
    pub open spec fn spec_math_overflowed(self) -> bool {
        self.spec_bits() & 1 != 0
    }

    /// Whether a register word encodes a voltage within `range`.
    pub open spec fn spec_in_range(bits: u16, range: BusVoltageRange) -> bool {
        ((bits >> 3) as int) * 4 <= (range.spec_max_v() as int) * 1000
    }

    /// Create a `BusVoltage` from the contents of the register, checking that
    /// the voltage lies in `range`.
    pub fn from_bits_with_range(reg: BusVoltageRegister, range: BusVoltageRange) -> (r: Option<
        Self,
    >)
        ensures
            r is Some <==> Self::spec_in_range(reg.0, range),
            r matches Some(bv) ==> bv.spec_bits() == reg.0,
    {
        let new = Self(reg.0);
        proof {
            let bits = reg.0;
            assert(bits >> 3 < 8192) by (bit_vector);
        }
        if new.voltage_mv() <= range.max_v() * 1000 {
            Some(new)
        } else {
            None
        }
    }

    /// Create a `BusVoltage` from the contents of the register, performing no
    /// range checks.
    pub fn from_bits_unchecked(reg: BusVoltageRegister) -> (r: Self)
        ensures
            r.spec_bits() == reg.0,
    {
        Self(reg.0)
    }

    /// Return the bus voltage in the internal resolution of 4mV.
    pub fn voltage_4mv(self) -> (r: u16)
        ensures
            r == self.spec_voltage_4mv(),
    {
        self.0 >> 3
    }

    /// Return the bus voltage in mV.
    pub fn voltage_mv(self) -> (r: u16)
        ensures
            r == self.spec_voltage_mv(),
    {
        proof {
            let bits = self.0;
            assert(bits >> 3 < 8192) by (bit_vector);
        }
        (self.0 >> 3) * 4
    }

    /// Check if the conversion ready flag is set.
    ///
    /// The registers of the INA219 always return the last measured values.
    /// This flag can be used to check whether **new** data is available:
    /// it is set when a conversion finishes and cleared when the operating
    /// mode is written (except to power down or ADC off) or the power
    /// register is read.
    pub fn is_conversion_ready(self) -> (r: bool)
        ensures
            r == self.spec_conversion_ready(),
    {
        self.0 & 0b10 != 0
    }

    /// Check if the math overflow flag is set.
    ///
    /// The flag indicates that the power or current calculation overflowed;
    /// the bus and shunt voltage readings remain valid.
    pub fn has_math_overflowed(self) -> (r: bool)
        ensures
            r == self.spec_math_overflowed(),
    {
        self.0 & 1 != 0
    }

    /// Create a `BusVoltage` from a given value in mV.
    ///
    /// The overflow flag and the ready flag will both be clear; millivolts
    /// beyond the 4mV resolution are dropped.
    pub fn from_mv(mv: u16) -> (r: Self)
        ensures
            r.spec_bits() == ((mv / 4) as u16) << 3,
            !r.spec_conversion_ready(),
            !r.spec_math_overflowed(),
    {
        let bits = (mv / 4) << 3;
        proof {
            let q = (mv / 4) as u16;
            assert(q < 16384 ==> ((q << 3) & 0b10 == 0 && (q << 3) & 1 == 0)) by (bit_vector);
        }
        Self(bits)
    }
}

/// The raw contents of the bus voltage register.
#[derive(Debug, Copy, Clone, Eq, PartialEq, Structural)]
pub struct BusVoltageRegister(pub u16);

impl Register for BusVoltageRegister {
    fn register_name() -> RegisterName {
        RegisterName::BusVoltage
    }
}

impl ReadRegister for BusVoltageRegister {
    fn from_bits(bits: u16) -> Self {
        Self(bits)
    }
}

/// The raw value read from the current register.
#[derive(Debug, Default, Copy, Clone, Eq, PartialEq, Structural)]
pub struct CurrentRegister(pub u16);

impl Register for CurrentRegister {
    fn register_name() -> RegisterName {
        RegisterName::Current
    }
}

impl ReadRegister for CurrentRegister {
    fn from_bits(bits: u16) -> Self {
        Self(bits)
    }
}

/// The raw value read from the power register.
#[derive(Debug, Default, Copy, Clone, Eq, PartialEq, Structural)]
pub struct PowerRegister(pub u16);

impl Register for PowerRegister {
    fn register_name() -> RegisterName {
        RegisterName::Power
    }
}

impl ReadRegister for PowerRegister {
    fn from_bits(bits: u16) -> Self {
        Self(bits)
    }
}

} // verus!
