//! A small INA219 power monitor built on the fixed-point physical units.
//!
//! This driver derives its calibration from a sense resistor and a maximum
//! expected current, both given in nano units, and renders every reading as
//! a human-readable string with an SI prefix.

#![allow(non_snake_case)]

use crate::bus::{u16_from_be, I2cBus};
use crate::measurements::spec_signed;
use crate::physic;
use vstd::prelude::*;
use vstd::string::{StrSliceExecFns, StringExecFns};

verus! {

/// The default bus address this monitor expects the chip at.
pub const INA219_ADDR: u8 = 0x42;

/// Scaling constant of the calibration formula, lifted to nano units so that
/// no resolution is lost: Ampere · Ohm / 100000, shifted left by 12 bits.
pub const calibratescale: i64 = 10_000_000_000_000 * 4096;

/// The options the monitor is opened with.
#[derive(Debug, Copy, Clone, Eq, PartialEq, Structural)]
pub struct Opts {
    Address: u8,
    SenseResistor: physic::ElectricResistance,
    MaxCurrent: physic::ElectricCurrent,
}

impl Opts {
    /// The bus address of the chip.
    pub closed spec fn spec_address(self) -> u8 {
        self.Address
    }

    /// The sense resistor in nano Ohm.
    pub closed spec fn spec_sense_resistor(self) -> i64 {
        self.SenseResistor
    }

    /// The maximum expected current in nano Ampere.
    pub closed spec fn spec_max_current(self) -> i64 {
        self.MaxCurrent
    }

    /// Whether the calibration arithmetic is defined for these options: the
    /// current resolution must not vanish, and none of the fixed-point
    /// products may exceed 64 bits.
    pub open spec fn spec_valid(self) -> bool {
        &&& 1 <= self.spec_sense_resistor()
        &&& 0x8000 <= self.spec_max_current()
        &&& self.spec_max_current() * 20 + 0x4000 <= i64::MAX
        &&& (self.spec_max_current() as int / 0x8000) * self.spec_sense_resistor() <= i64::MAX
    }

    /// Bundle an address, a sense resistor and a maximum expected current.
    pub fn new(add: u8, sense: physic::ElectricResistance, maxCurrent: physic::ElectricCurrent) -> (r:
        Opts)
        ensures
            r.spec_address() == add,
            r.spec_sense_resistor() == sense,
            r.spec_max_current() == maxCurrent,
    {
        Opts { Address: add, SenseResistor: sense, MaxCurrent: maxCurrent }
    }

    /// The factory options: address 0x42, a 0.1 Ohm sense resistor and 1
    /// Ampere of maximum current.
    pub fn default() -> (r: Opts)
        ensures
            r.spec_address() == INA219_ADDR,
            r.spec_sense_resistor() == 100 * physic::MilliOhm,
            r.spec_max_current() == 1 * physic::Ampere,
            r.spec_valid(),
    {
        Opts {
            Address: INA219_ADDR,
            SenseResistor: 100 * physic::MilliOhm,  // 0.1 Ohm
            MaxCurrent: 1 * physic::Ampere,
        }
    }
}

/// One formatted reading of each quantity the chip measures.
pub struct PowerMonitor {
    Shunt: String,
    Voltage: String,
    Current: String,
    Power: String,
}

impl PowerMonitor {
    /// The formatted shunt voltage.
    pub closed spec fn spec_shunt(&self) -> Seq<char> {
        self.Shunt@
    }

    /// The formatted bus voltage.
    pub closed spec fn spec_voltage(&self) -> Seq<char> {
        self.Voltage@
    }

    /// The formatted current.
    pub closed spec fn spec_current(&self) -> Seq<char> {
        self.Current@
    }

    /// The formatted power.
    pub closed spec fn spec_power(&self) -> Seq<char> {
        self.Power@
    }

    /// Bundle the four formatted readings.
    pub fn new(shunt: String, voltage: String, current: String, power: String) -> (r: PowerMonitor)
        ensures
            r.spec_shunt() == shunt@,
            r.spec_voltage() == voltage@,
            r.spec_current() == current@,
            r.spec_power() == power@,
    {
        PowerMonitor { Shunt: shunt, Voltage: voltage, Current: current, Power: power }
    }
}

/// The formatted string of a potential of `v` nano Volt.
pub open spec fn spec_potential_string(v: i64) -> Seq<char> {
    physic::spec_nano_string(v) + seq!['V']
}

/// The formatted string of a current of `v` nano Ampere.
pub open spec fn spec_current_string(v: i64) -> Seq<char> {
    physic::spec_nano_string(v) + seq!['A']
}

/// The formatted string of a power of `v` nano Watt.
pub open spec fn spec_power_string(v: i64) -> Seq<char> {
    physic::spec_nano_string(v) + seq!['W']
}

/// Power monitor over one chip: owns the transport, the options and the two
/// register resolutions derived from them.
pub struct INA219<I2C> {
    i2c: I2C,
    opt: Opts,
    CurrentLSB: physic::ElectricCurrent,
    PowerLSB: physic::Power,
}

impl<I2C, E> INA219<I2C> where I2C: I2cBus<Error = E> {
    /// The options the monitor was opened with.
    pub closed spec fn spec_opts(&self) -> Opts {
        self.opt
    }

    /// The value of one current register count, in nano Ampere.
    pub closed spec fn spec_current_lsb(&self) -> i64 {
        self.CurrentLSB
    }

    /// The value of one power register count, in nano Watt.
    pub closed spec fn spec_power_lsb(&self) -> i64 {
        self.PowerLSB
    }

    /// The current resolution the options calibrate the chip to: the maximum
    /// current spread over the register's 15 magnitude bits.
    pub open spec fn spec_derived_current_lsb(opt: Opts) -> int {
        opt.spec_max_current() as int / 0x8000
    }

    /// The power resolution the options calibrate the chip to, rounded per
    /// the datasheet's formula.
    pub open spec fn spec_derived_power_lsb(opt: Opts) -> int {
        (opt.spec_max_current() as int * 20 + 0x4000) / 0x8000
    }

    /// Wrap a transport; nothing is written until `init` or `calibrate`.
    pub fn new(i2c: I2C, opts: Opts) -> (r: INA219<I2C>)
        ensures
            r.spec_opts() == opts,
            r.spec_current_lsb() == 0,
            r.spec_power_lsb() == 0,
    {
        INA219 { i2c, opt: opts, CurrentLSB: 0, PowerLSB: 0 }
    }

    /// Calibrate the chip for the stored options, then configure it for
    /// continuous measurements at 12-bit resolution.
    pub fn init(&mut self) -> (r: Result<(), E>)
        requires
            old(self).spec_opts().spec_valid(),
        ensures
            final(self).spec_opts() == old(self).spec_opts(),
            final(self).spec_current_lsb() == Self::spec_derived_current_lsb(old(self).spec_opts()),
            final(self).spec_power_lsb() == Self::spec_derived_power_lsb(old(self).spec_opts()),
    {
        let ReConfigVal: u16 = 0x1FFF;

        let sense = self.opt.SenseResistor;
        let max_current = self.opt.MaxCurrent;
        let _ = self.calibrate(sense, max_current);

        let addr = self.opt.Address;
        let cmd = [0u8, (ReConfigVal >> 8) as u8, (ReConfigVal & 0xFF) as u8];
        match self.i2c.write(addr, cmd.as_slice()) {
            Ok(()) => Ok(()),
            Err(e) => Err(e),
        }
    }

    /// Derive the two register resolutions from a sense resistor and a
    /// maximum current, and write the calibration register.
    ///
    /// The register word is the calibration scale divided by the product of
    /// current resolution and sense resistance; only its low 16 bits are
    /// written, high byte first.
    pub fn calibrate(&mut self, sense: physic::ElectricResistance, maxCurrent: physic::ElectricCurrent) -> (r:
        Result<(), E>)
        requires
            1 <= sense,
            0x8000 <= maxCurrent,
            maxCurrent * 20 + 0x4000 <= i64::MAX,
            (maxCurrent as int / 0x8000) * sense <= i64::MAX,
        ensures
            final(self).spec_opts() == old(self).spec_opts(),
            final(self).spec_current_lsb() == maxCurrent as int / 0x8000,
            final(self).spec_power_lsb() == (maxCurrent as int * 20 + 0x4000) / 0x8000,
    {
        self.CurrentLSB = maxCurrent / 0x8000;
        self.PowerLSB = (maxCurrent * 20 + 0x4000) / 0x8000;

        // Calibration register = 0.04096 / (current LSB · shunt resistance),
        // with the resolutions in Amps and Ohms; 16 bits of it are written
        let lsb = self.CurrentLSB;
        proof {
            assert(lsb * sense <= i64::MAX && 1 <= lsb * sense) by (nonlinear_arith)
                requires
                    1 <= lsb,
                    1 <= sense,
                    lsb * sense <= i64::MAX,
            ;
        }
        let cal: i64 = calibratescale / (lsb * sense);
        let cal_bits: u64 = cal as u64;
        proof {
            let c = cal_bits;
            assert(((c >> 8) & 0xFF) < 256 && (c & 0xFF) < 256) by (bit_vector);
        }
        let addr = self.opt.Address;
        let cmd = [5u8, ((cal_bits >> 8) & 0xFF) as u8, (cal_bits & 0xFF) as u8];
        match self.i2c.write(addr, cmd.as_slice()) {
            Ok(()) => Ok(()),
            Err(e) => Err(e),
        }
    }

    /// Read the shunt voltage and format it in Volt.
    pub fn shunt_voltage(&mut self) -> (r: Result<String, E>)
        requires
            old(self).spec_opts().spec_valid(),
        ensures
            final(self).spec_opts() == old(self).spec_opts(),
            r matches Ok(s) ==> exists|bits: u16|
                s@ == spec_potential_string((spec_signed(bits) as int * physic::MicroVolt) as i64),
            final(self).spec_current_lsb() == Self::spec_derived_current_lsb(old(self).spec_opts()),
            final(self).spec_power_lsb() == Self::spec_derived_power_lsb(old(self).spec_opts()),
    {
        // the chip needs to be calibrated before every reading
        let sense = self.opt.SenseResistor;
        let max_current = self.opt.MaxCurrent;
        let _ = self.calibrate(sense, max_current);

        let value = match self.read(1) {
            Ok(v) => v,
            Err(e) => {
                return Err(e);
            },
        };
        let signed = i16_from_bits(value);
        let nano_volt: i64 = (signed as i64) * physic::MicroVolt;
        let mut s = physic::nanoAsString(nano_volt);
        proof {
            reveal_strlit("V");
        }
        s.append("V");
        proof {
            assert(s@ =~= spec_potential_string(nano_volt));
        }
        Ok(s)
    }

    /// Read the bus voltage and format it in Volt.
    pub fn voltage(&mut self) -> (r: Result<String, E>)
        requires
            old(self).spec_opts().spec_valid(),
        ensures
            final(self).spec_opts() == old(self).spec_opts(),
            r matches Ok(s) ==> exists|bits: u16|
                s@ == spec_potential_string(
                    ((((bits >> 3) as int) * 4) * physic::MilliVolt) as i64,
                ),
            final(self).spec_current_lsb() == Self::spec_derived_current_lsb(old(self).spec_opts()),
            final(self).spec_power_lsb() == Self::spec_derived_power_lsb(old(self).spec_opts()),
    {
        // the chip needs to be calibrated before every reading
        let sense = self.opt.SenseResistor;
        let max_current = self.opt.MaxCurrent;
        let _ = self.calibrate(sense, max_current);

        let value = match self.read(2) {
            Ok(v) => v,
            Err(e) => {
                return Err(e);
            },
        };
        proof {
            let b = value;
            assert(b >> 3 < 8192) by (bit_vector);
        }
        let milli_volt: u16 = (value >> 3) * 4;
        let nano_volt: i64 = (milli_volt as i64) * physic::MilliVolt;
        let mut s = physic::nanoAsString(nano_volt);
        proof {
            reveal_strlit("V");
        }
        s.append("V");
        proof {
            assert(s@ =~= spec_potential_string(nano_volt));
        }
        Ok(s)
    }

    /// Read the bus voltage and return it in milli Volt.
    pub fn voltage_raw(&mut self) -> (r: Result<u16, E>)
        requires
            old(self).spec_opts().spec_valid(),
        ensures
            final(self).spec_opts() == old(self).spec_opts(),
            r matches Ok(mv) ==> exists|bits: u16| mv as int == ((bits >> 3) as int) * 4,
            final(self).spec_current_lsb() == Self::spec_derived_current_lsb(old(self).spec_opts()),
            final(self).spec_power_lsb() == Self::spec_derived_power_lsb(old(self).spec_opts()),
    {
        // the chip needs to be calibrated before every reading
        let sense = self.opt.SenseResistor;
        let max_current = self.opt.MaxCurrent;
        let _ = self.calibrate(sense, max_current);

        let value = match self.read(2) {
            Ok(v) => v,
            Err(e) => {
                return Err(e);
            },
        };
        proof {
            let b = value;
            assert(b >> 3 < 8192) by (bit_vector);
        }
        Ok((value >> 3) * 4)
    }

    /// Read the power register and format it in Watt.
    pub fn power(&mut self) -> (r: Result<String, E>)
        requires
            old(self).spec_opts().spec_valid(),
        ensures
            final(self).spec_opts() == old(self).spec_opts(),
            r matches Ok(s) ==> exists|bits: u16|
                s@ == spec_power_string((spec_signed(bits) as int * physic::MilliVolt) as i64),
            final(self).spec_current_lsb() == Self::spec_derived_current_lsb(old(self).spec_opts()),
            final(self).spec_power_lsb() == Self::spec_derived_power_lsb(old(self).spec_opts()),
    {
        // the chip needs to be calibrated before every reading
        let sense = self.opt.SenseResistor;
        let max_current = self.opt.MaxCurrent;
        let _ = self.calibrate(sense, max_current);

        let value = match self.read(3) {
            Ok(v) => v,
            Err(e) => {
                return Err(e);
            },
        };
        let signed = i16_from_bits(value);
        let nano_watt: i64 = (signed as i64) * physic::MilliVolt;
        let mut s = physic::nanoAsString(nano_watt);
        proof {
            reveal_strlit("W");
        }
        s.append("W");
        proof {
            assert(s@ =~= spec_power_string(nano_watt));
        }
        Ok(s)
    }

    /// Read the current register and format it in Ampere.
    pub fn current(&mut self) -> (r: Result<String, E>)
        requires
            old(self).spec_opts().spec_valid(),
        ensures
            final(self).spec_opts() == old(self).spec_opts(),
            r matches Ok(s) ==> exists|bits: u16|
                s@ == spec_current_string((spec_signed(bits) as int * physic::MilliAmpere) as i64),
            final(self).spec_current_lsb() == Self::spec_derived_current_lsb(old(self).spec_opts()),
            final(self).spec_power_lsb() == Self::spec_derived_power_lsb(old(self).spec_opts()),
    {
        // the chip needs to be calibrated before every reading
        let sense = self.opt.SenseResistor;
        let max_current = self.opt.MaxCurrent;
        let _ = self.calibrate(sense, max_current);

        let value = match self.read(4) {
            Ok(v) => v,
            Err(e) => {
                return Err(e);
            },
        };
        let signed = i16_from_bits(value);
        let nano_ampere: i64 = (signed as i64) * physic::MilliAmpere;
        let mut s = physic::nanoAsString(nano_ampere);
        proof {
            reveal_strlit("A");
        }
        s.append("A");
        proof {
            assert(s@ =~= spec_current_string(nano_ampere));
        }
        Ok(s)
    }

    /// Read the current register and return its signed raw value.
    pub fn current_raw(&mut self) -> (r: Result<i16, E>)
        requires
            old(self).spec_opts().spec_valid(),
        ensures
            final(self).spec_opts() == old(self).spec_opts(),
            final(self).spec_current_lsb() == Self::spec_derived_current_lsb(old(self).spec_opts()),
            final(self).spec_power_lsb() == Self::spec_derived_power_lsb(old(self).spec_opts()),
    {
        // the chip needs to be calibrated before every reading
        let sense = self.opt.SenseResistor;
        let max_current = self.opt.MaxCurrent;
        let _ = self.calibrate(sense, max_current);

        let value = match self.read(4) {
            Ok(v) => v,
            Err(e) => {
                return Err(e);
            },
        };
        Ok(i16_from_bits(value))
    }

    /// Read and format all four quantities in one go.
    pub fn sense(&mut self) -> (r: Result<PowerMonitor, E>)
        requires
            old(self).spec_opts().spec_valid(),
        ensures
            final(self).spec_opts() == old(self).spec_opts(),
            final(self).spec_current_lsb() == Self::spec_derived_current_lsb(old(self).spec_opts()),
            final(self).spec_power_lsb() == Self::spec_derived_power_lsb(old(self).spec_opts()),
    {
        // the chip needs to be calibrated before every reading
        let sense = self.opt.SenseResistor;
        let max_current = self.opt.MaxCurrent;
        let _ = self.calibrate(sense, max_current);

        let shunt = match self.shunt_voltage() {
            Ok(s) => s,
            Err(e) => {
                return Err(e);
            },
        };
        let voltage = match self.voltage() {
            Ok(s) => s,
            Err(e) => {
                return Err(e);
            },
        };
        let current = match self.current() {
            Ok(s) => s,
            Err(e) => {
                return Err(e);
            },
        };
        let power = match self.power() {
            Ok(s) => s,
            Err(e) => {
                return Err(e);
            },
        };
        Ok(PowerMonitor::new(shunt, voltage, current, power))
    }

    /// Read one register: write its address byte, read two big-endian bytes.
    fn read(&mut self, register: u8) -> (r: Result<u16, E>)
        ensures
            final(self).spec_opts() == old(self).spec_opts(),
            final(self).spec_current_lsb() == old(self).spec_current_lsb(),
            final(self).spec_power_lsb() == old(self).spec_power_lsb(),
    {
        let addr = self.opt.Address;
        let cmd = [register];
        match self.i2c.write_read(addr, cmd.as_slice()) {
            Ok(bytes) => Ok(u16_from_be(bytes)),
            Err(e) => Err(e),
        }
    }
}

/// The signed 16-bit value stored in a register word.
fn i16_from_bits(bits: u16) -> (r: i16)
    ensures
        r == spec_signed(bits),
{
    if bits <= 32767 {
        bits as i16
    } else {
        (bits as i32 - 65536) as i16
    }
}

} // verus!
