//! Driver for the INA219 current/power monitor.
//!
//! The driver talks to the chip through an I2C transport capability (the
//! [`bus::I2cBus`] trait), encodes configuration and calibration choices into
//! the chip's 16-bit registers, and decodes raw register bits into typed
//! physical quantities. It caches the last written configuration, checks
//! every reading against the configured measurement ranges, and reports
//! device anomalies apart from transport failures.

pub mod address;
pub mod bus;
pub mod calibration;
pub mod configuration;
pub mod errors;
pub mod ina219;
pub mod measurements;
pub mod physic;
pub mod register;

use crate::address::Address;
use crate::bus::{u16_from_be, u16_to_be, I2cBus};
use crate::calibration::{Calibration, UnCalibrated};
use crate::configuration::{BusVoltageRange, Configuration, Reset, ShuntVoltageRange};
use crate::errors::{
    BusVoltageReadError, ConfigurationReadError, InitializationError, InitializationErrorReason,
    MeasurementError, ShuntVoltageReadError,
};
use crate::measurements::{spec_signed, BusVoltage, Measurements, ShuntVoltage};
use crate::register::RegisterName;
use vstd::prelude::*;

verus! {

/// How often the driver polls the configuration register for the default
/// value before it gives up on a reset.
pub const MAX_RESET_READ_RETRIES: u8 = 10;

/// Interpret the four register words one measurement round reads.
///
/// This is the whole decision the measurement pipeline takes once the bus
/// traffic is done, for every combination of register contents:
/// - a bus voltage outside `bus_range` is an error carrying the reading;
/// - otherwise, without the conversion ready flag there is no new data;
/// - a shunt voltage outside `shunt_range` is an error carrying the reading;
/// - with the math overflow flag set, the bus and shunt readings are handed
///   back inside the overflow error;
/// - otherwise current and power are projected through the calibration.
pub fn interpret_measurements<E, Calib: Calibration>(
    calib: &Calib,
    shunt_range: ShuntVoltageRange,
    bus_range: BusVoltageRange,
    bus_bits: u16,
    shunt_bits: u16,
    power_bits: u16,
    current_bits: u16,
) -> (r: Result<Option<Measurements<Calib::Current, Calib::Power>>, MeasurementError<E>>)
    ensures
        !BusVoltage::spec_in_range(bus_bits, bus_range) ==> (r matches Err(
            MeasurementError::BusVoltageReadError(BusVoltageReadError::BusVoltageOutOfRange {
                should,
                is,
            }),
        ) && should == bus_range && is.spec_bits() == bus_bits),
        BusVoltage::spec_in_range(bus_bits, bus_range) && bus_bits & 0b10 == 0 ==> r == Result::<
            Option<Measurements<Calib::Current, Calib::Power>>,
            MeasurementError<E>,
        >::Ok(None),
        BusVoltage::spec_in_range(bus_bits, bus_range) && bus_bits & 0b10 != 0
            && !ShuntVoltage::spec_in_range(spec_signed(shunt_bits), shunt_range) ==> (r matches Err(
            MeasurementError::ShuntVoltageReadError(
                ShuntVoltageReadError::ShuntVoltageOutOfRange { should, is },
            ),
        ) && should == shunt_range && is.spec_10uv() == spec_signed(shunt_bits)),
        BusVoltage::spec_in_range(bus_bits, bus_range) && bus_bits & 0b10 != 0
            && ShuntVoltage::spec_in_range(spec_signed(shunt_bits), shunt_range) && bus_bits & 1
            != 0 ==> (r matches Err(MeasurementError::MathOverflow(m)) && m.bus_voltage.spec_bits()
            == bus_bits && m.shunt_voltage.spec_10uv() == spec_signed(shunt_bits)),
        BusVoltage::spec_in_range(bus_bits, bus_range) && bus_bits & 0b10 != 0
            && ShuntVoltage::spec_in_range(spec_signed(shunt_bits), shunt_range) && bus_bits & 1
            == 0 ==> (r matches Ok(Some(m)) && m.bus_voltage.spec_bits() == bus_bits
            && m.shunt_voltage.spec_10uv() == spec_signed(shunt_bits) && m.current
            == calib.spec_current_from(current_bits) && m.power == calib.spec_power_from(
            power_bits,
        )),
{
    let bus_voltage = match BusVoltage::from_bits_with_range(
        measurements::BusVoltageRegister(bus_bits),
        bus_range,
    ) {
        Some(bv) => bv,
        None => {
            return Err(
                MeasurementError::from_bus_read_error(
                    BusVoltageReadError::BusVoltageOutOfRange {
                        should: bus_range,
                        is: BusVoltage::from_bits_unchecked(
                            measurements::BusVoltageRegister(bus_bits),
                        ),
                    },
                ),
            );
        },
    };
    if !bus_voltage.is_conversion_ready() {
        // No new data... nothing to do...
        return Ok(None);
    }
    let shunt_voltage = match ShuntVoltage::from_bits_with_range(
        measurements::ShuntVoltageRegister(shunt_bits),
        shunt_range,
    ) {
        Some(sv) => sv,
        None => {
            return Err(
                MeasurementError::from_shunt_read_error(
                    ShuntVoltageReadError::ShuntVoltageOutOfRange {
                        should: shunt_range,
                        is: ShuntVoltage::from_bits_unchecked(
                            measurements::ShuntVoltageRegister(shunt_bits),
                        ),
                    },
                ),
            );
        },
    };
    if bus_voltage.has_math_overflowed() {
        return Err(
            MeasurementError::MathOverflow(
                Measurements { bus_voltage, shunt_voltage, current: (), power: () },
            ),
        );
    }
    Ok(
        Some(
            Measurements {
                bus_voltage,
                shunt_voltage,
                current: calib.current_from_register(measurements::CurrentRegister(current_bits)),
                power: calib.power_from_register(measurements::PowerRegister(power_bits)),
            },
        ),
    )
}

/// Driver for the INA219, generic in the transport and the calibration.
#[derive(Debug)]
pub struct INA219<I2C, Calib> {
    i2c: I2C,
    address: Address,
    config: Option<Configuration>,
    calib: Calib,
}

impl<I2C, Calib> INA219<I2C, Calib> {
    /// The transport the driver owns.
    pub closed spec fn spec_i2c(&self) -> I2C {
        self.i2c
    }

    /// The bus address the driver talks to.
    pub closed spec fn spec_address(&self) -> Address {
        self.address
    }

    /// The last configuration the driver knows the device to hold, if any.
    pub closed spec fn spec_config(&self) -> Option<Configuration> {
        self.config
    }

    /// The calibration the driver projects current and power through.
    pub closed spec fn spec_calib(&self) -> Calib {
        self.calib
    }

    /// The shunt voltage range readings are checked against: the one of the
    /// cached configuration, or the widest when none is cached.
    pub open spec fn spec_shunt_range(&self) -> ShuntVoltageRange {
        match self.spec_config() {
            Some(c) => c.shunt_voltage_range,
            None => ShuntVoltageRange::Fsr320mv,
        }
    }

    /// The bus voltage range readings are checked against: the one of the
    /// cached configuration, or the widest when none is cached.
    pub open spec fn spec_bus_range(&self) -> BusVoltageRange {
        match self.spec_config() {
            Some(c) => c.bus_voltage_range,
            None => BusVoltageRange::Fsr32v,
        }
    }
}

impl<I2C> INA219<I2C, UnCalibrated> where I2C: I2cBus {
    /// Open an INA219 without calibration.
    ///
    /// Performs a reset, checks all register values are in the expected
    /// ranges and leaves the calibration register at its reset value 0.
    pub fn new(i2c: I2C, address: Address) -> (r: Result<
        Self,
        InitializationError<I2C, I2C::Error>,
    >)
        ensures
            r matches Ok(d) ==> d.spec_address() == address && d.spec_calib() == UnCalibrated
                && d.spec_config() == Some(Configuration::spec_default()),
    {
        Self::new_calibrated(i2c, address, UnCalibrated)
    }
}

impl<I2C, Calib> INA219<I2C, Calib> where I2C: I2cBus, Calib: Calibration {
    /// Open an INA219: perform a reset, check all register values are in the
    /// expected ranges, then apply the provided calibration.
    ///
    /// On failure the transport is handed back inside the error, so the
    /// caller keeps its handle.
    pub fn new_calibrated(i2c: I2C, address: Address, calibration: Calib) -> (r: Result<
        Self,
        InitializationError<I2C, I2C::Error>,
    >)
        ensures
            r matches Ok(d) ==> d.spec_address() == address && d.spec_calib() == calibration
                && d.spec_config() == Some(Configuration::spec_default()),
    {
        let mut new = INA219::new_unchecked(i2c, address, calibration);

        // Initialization is done in a helper so that the device can be
        // handed back whatever step fails
        match new.init() {
            Ok(()) => Ok(new),
            Err(e) => Err(InitializationError::new(e, new.destroy())),
        }
    }

    /// Bring the device into a known state:
    /// - perform a reset,
    /// - wait for the reset to finish by polling whether the configuration
    ///   reads as its default,
    /// - check that the calculated registers read zero and both voltages lie
    ///   in their default ranges,
    /// - apply the register value of the calibration.
    fn init(&mut self) -> (r: Result<(), InitializationErrorReason<I2C::Error>>)
        ensures
            final(self).spec_address() == old(self).spec_address(),
            final(self).spec_calib() == old(self).spec_calib(),
            r is Ok ==> final(self).spec_config() == Some(Configuration::spec_default()),
    {
        match self.reset() {
            Ok(()) => (),
            Err(e) => {
                return Err(e);
            },
        }

        // Extra checks that we are talking to a real INA219 that has really
        // been reset: the calculated registers must read zero...
        let cal_bits = match self.read_raw(RegisterName::Calibration) {
            Ok(w) => w,
            Err(e) => {
                return Err(InitializationErrorReason::I2cError(e));
            },
        };
        if cal_bits != 0 {
            return Err(
                InitializationErrorReason::RegisterNotZeroAfterReset(RegisterName::Calibration),
            );
        }
        let current_bits = match self.read_raw(RegisterName::Current) {
            Ok(w) => w,
            Err(e) => {
                return Err(InitializationErrorReason::I2cError(e));
            },
        };
        if current_bits != 0 {
            return Err(
                InitializationErrorReason::RegisterNotZeroAfterReset(RegisterName::Current),
            );
        }
        let power_bits = match self.read_raw(RegisterName::Power) {
            Ok(w) => w,
            Err(e) => {
                return Err(InitializationErrorReason::I2cError(e));
            },
        };
        if power_bits != 0 {
            return Err(InitializationErrorReason::RegisterNotZeroAfterReset(RegisterName::Power));
        }

        // ... and both voltages must lie in the (default) configured ranges
        match self.shunt_voltage() {
            Ok(_) => (),
            Err(e) => {
                return Err(InitializationErrorReason::from_shunt_read_error(e));
            },
        }
        match self.bus_voltage() {
            Ok(_) => (),
            Err(e) => {
                return Err(InitializationErrorReason::from_bus_read_error(e));
            },
        }

        // Calibrate the device; a calibration of 0 is the reset value, so
        // writing it can be skipped
        let bits = self.calib.register_bits();
        if bits != 0 {
            match self.write_register(RegisterName::Calibration, bits) {
                Ok(()) => (),
                Err(e) => {
                    return Err(InitializationErrorReason::I2cError(e));
                },
            }
        }

        Ok(())
    }

    /// Create a new `INA219` assuming the device is already initialized to
    /// the given values.
    ///
    /// This writes neither the configuration nor the calibration.
    pub fn new_unchecked(i2c: I2C, address: Address, calib: Calib) -> (r: Self)
        ensures
            r.spec_i2c() == i2c,
            r.spec_address() == address,
            r.spec_calib() == calib,
            r.spec_config() is None,
    {
        INA219 { i2c, address, config: None, calib }
    }

    /// Destroy the driver returning the underlying transport.
    ///
    /// This leaves the device in its current state.
    pub fn destroy(self) -> (r: I2C)
        ensures
            r == self.spec_i2c(),
    {
        self.i2c
    }

    /// Perform a power-on-reset and wait for it to finish, by polling the
    /// configuration register for its default value a bounded number of
    /// times.
    ///
    /// Make sure to set the calibration after this finishes, so that the
    /// calibration the driver holds matches what the device is calibrated to.
    pub fn reset(&mut self) -> (r: Result<(), InitializationErrorReason<I2C::Error>>)
        ensures
            final(self).spec_address() == old(self).spec_address(),
            final(self).spec_calib() == old(self).spec_calib(),
            r is Ok ==> final(self).spec_config() == Some(Configuration::spec_default()),
            r is Err ==> final(self).spec_config() is None,
    {
        // Set the reset bit
        let mut conf = Configuration::default();
        conf.reset = Reset::Reset;
        match self.set_configuration(conf) {
            Ok(()) => (),
            Err(e) => {
                return Err(InitializationErrorReason::I2cError(e));
            },
        }

        // The reset flag is never read back: the device clears it once the
        // reset is done, so what was just written says nothing about the
        // device's state until the default shows up
        self.config = None;

        // Wait until the device reports that it is done
        let mut attempt: u8 = 0;
        loop
            invariant
                self.spec_address() == old(self).spec_address(),
                self.spec_calib() == old(self).spec_calib(),
                self.spec_config() is None,
                attempt <= MAX_RESET_READ_RETRIES + 1,
            decreases MAX_RESET_READ_RETRIES + 2 - attempt,
        {
            let w = match self.read_raw(RegisterName::Configuration) {
                Ok(w) => w,
                Err(e) => {
                    return Err(InitializationErrorReason::I2cError(e));
                },
            };
            if Configuration::from_bits(w) == Configuration::default() {
                self.config = Some(Configuration::default());
                return Ok(());
            }

            if attempt > MAX_RESET_READ_RETRIES {
                return Err(InitializationErrorReason::ConfigurationNotDefaultAfterReset);
            }

            attempt += 1;
        }
    }

    /// Read the current [`Configuration`].
    ///
    /// If the read configuration does not match the last saved configuration
    /// an error carrying both is returned, and the saved configuration is
    /// updated to the read one, so that a retry succeeds.
    pub fn configuration(&mut self) -> (r: Result<Configuration, ConfigurationReadError<
        I2C::Error,
    >>)
        ensures
            final(self).spec_address() == old(self).spec_address(),
            final(self).spec_calib() == old(self).spec_calib(),
            r matches Ok(c) ==> final(self).spec_config() == Some(c) && (old(self).spec_config()
                matches Some(saved) ==> saved == c),
            r matches Err(ConfigurationReadError::ConfigurationMismatch { read, saved }) ==> (old(
                self,
            ).spec_config() == Some(saved) && read != saved && final(self).spec_config() == Some(
                read,
            )),
            r matches Err(ConfigurationReadError::I2cError(e)) ==> final(self).spec_config() == old(
                self,
            ).spec_config(),
    {
        let w = match self.read_raw(RegisterName::Configuration) {
            Ok(w) => w,
            Err(e) => {
                return Err(ConfigurationReadError::I2cError(e));
            },
        };
        let read = Configuration::from_bits(w);

        match self.config {
            None => {
                self.config = Some(read);
                Ok(read)
            },
            Some(saved) => {
                if read != saved {
                    self.config = Some(read);
                    Err(ConfigurationReadError::ConfigurationMismatch { read, saved })
                } else {
                    Ok(read)
                }
            },
        }
    }

    /// Set a new [`Configuration`].
    ///
    /// On success the written configuration is saved; after a transport
    /// failure nothing is known about the device's state, so the saved
    /// configuration is cleared.
    pub fn set_configuration(&mut self, conf: Configuration) -> (r: Result<(), I2C::Error>)
        ensures
            final(self).spec_address() == old(self).spec_address(),
            final(self).spec_calib() == old(self).spec_calib(),
            r is Ok ==> final(self).spec_config() == Some(conf),
            r is Err ==> final(self).spec_config() is None,
    {
        let bits = conf.as_bits();
        let result = self.write_register(RegisterName::Configuration, bits);

        self.config = match result {
            Ok(()) => Some(conf),
            // We don't know anything about the current configuration
            Err(_) => None,
        };

        result
    }

    /// Trigger a new measurement.
    ///
    /// This writes the active configuration again, which starts a conversion
    /// if the chip is in triggered mode and does nothing in any other mode.
    /// When no configuration is saved it is first read from the device.
    pub fn trigger(&mut self) -> (r: Result<(), I2C::Error>)
        ensures
            final(self).spec_address() == old(self).spec_address(),
            final(self).spec_calib() == old(self).spec_calib(),
            (r is Ok && old(self).spec_config() is Some) ==> final(self).spec_config() == old(
                self,
            ).spec_config(),
            r is Ok ==> final(self).spec_config() is Some,
    {
        let old_config = match self.config {
            Some(c) => c,
            None => match self.configuration() {
                Ok(c) => c,
                Err(ConfigurationReadError::I2cError(e)) => {
                    return Err(e);
                },
                Err(ConfigurationReadError::ConfigurationMismatch { read: _, saved: _ }) => {
                    // A mismatch needs a saved configuration, and nothing was
                    // saved before the read
                    proof {
                        assert(false);
                    }
                    vstd::pervasive::unreached()
                },
            },
        };

        self.set_configuration(old_config)
    }

    /// Set a new [`Calibration`] and write its register value to the device.
    pub fn calibrate(&mut self, value: Calib) -> (r: Result<(), I2C::Error>)
        ensures
            final(self).spec_address() == old(self).spec_address(),
            final(self).spec_config() == old(self).spec_config(),
            final(self).spec_calib() == value,
    {
        self.calib = value;
        let bits = self.calib.register_bits();
        self.write_register(RegisterName::Calibration, bits)
    }

    /// Check for a new measurement, returning `Ok(None)` when no conversion
    /// has finished since the flags were last cleared.
    ///
    /// One bus transaction reads bus voltage, power, shunt voltage and — when
    /// the calibration asks for it — current, in that order: reading the
    /// power register clears the conversion ready flag, so power is fetched
    /// whenever we observe that a conversion was ready. The registers are
    /// interpreted by [`interpret_measurements`].
    pub fn next_measurement(&mut self) -> (r: Result<
        Option<Measurements<Calib::Current, Calib::Power>>,
        MeasurementError<I2C::Error>,
    >)
        ensures
            final(self).spec_address() == old(self).spec_address(),
            final(self).spec_calib() == old(self).spec_calib(),
            final(self).spec_config() == old(self).spec_config(),
            r matches Ok(Some(m)) ==> (m.bus_voltage.spec_conversion_ready()
                && !m.bus_voltage.spec_math_overflowed() && BusVoltage::spec_in_range(
                m.bus_voltage.spec_bits(),
                old(self).spec_bus_range(),
            ) && ShuntVoltage::spec_in_range(
                m.shunt_voltage.spec_10uv(),
                old(self).spec_shunt_range(),
            )),
            r matches Err(MeasurementError::MathOverflow(m)) ==> (
            m.bus_voltage.spec_conversion_ready() && m.bus_voltage.spec_math_overflowed()
                && BusVoltage::spec_in_range(m.bus_voltage.spec_bits(), old(self).spec_bus_range())
                && ShuntVoltage::spec_in_range(
                m.shunt_voltage.spec_10uv(),
                old(self).spec_shunt_range(),
            )),
            r matches Err(MeasurementError::BusVoltageReadError(
                BusVoltageReadError::BusVoltageOutOfRange { should, is },
            )) ==> should == old(self).spec_bus_range() && !BusVoltage::spec_in_range(
                is.spec_bits(),
                should,
            ),
            r matches Err(MeasurementError::ShuntVoltageReadError(
                ShuntVoltageReadError::ShuntVoltageOutOfRange { should, is },
            )) ==> should == old(self).spec_shunt_range() && !ShuntVoltage::spec_in_range(
                is.spec_10uv(),
                should,
            ),
    {
        let mut regs: Vec<u8> = Vec::new();
        regs.push(RegisterName::BusVoltage.address());
        regs.push(RegisterName::Power.address());
        regs.push(RegisterName::ShuntVoltage.address());
        let read_current = self.calib.read_current();
        if read_current {
            regs.push(RegisterName::Current.address());
        }

        let replies = match self.i2c.transaction(self.address.as_byte(), regs.as_slice()) {
            Ok(replies) => replies,
            Err(e) => {
                return Err(MeasurementError::I2cError(e));
            },
        };

        let bus_bits = u16_from_be(replies[0]);
        let power_bits = u16_from_be(replies[1]);
        let shunt_bits = u16_from_be(replies[2]);
        let current_bits = if read_current {
            u16_from_be(replies[3])
        } else {
            0
        };

        let shunt_range = self.active_shunt_range();
        let bus_range = self.active_bus_range();
        interpret_measurements::<I2C::Error, Calib>(
            &self.calib,
            shunt_range,
            bus_range,
            bus_bits,
            shunt_bits,
            power_bits,
            current_bits,
        )
    }

    /// Read the last measured shunt voltage.
    ///
    /// The reading is validated against the shunt voltage range of the last
    /// written configuration, or the widest range when none is known; an
    /// out-of-range reading is handed back inside the error, unchecked.
    pub fn shunt_voltage(&mut self) -> (r: Result<ShuntVoltage, ShuntVoltageReadError<I2C::Error>>)
        ensures
            final(self).spec_address() == old(self).spec_address(),
            final(self).spec_calib() == old(self).spec_calib(),
            final(self).spec_config() == old(self).spec_config(),
            r matches Ok(sv) ==> ShuntVoltage::spec_in_range(
                sv.spec_10uv(),
                old(self).spec_shunt_range(),
            ),
            r matches Err(ShuntVoltageReadError::ShuntVoltageOutOfRange { should, is }) ==> (should
                == old(self).spec_shunt_range() && !ShuntVoltage::spec_in_range(
                is.spec_10uv(),
                should,
            )),
    {
        let bits = match self.read_raw(RegisterName::ShuntVoltage) {
            Ok(w) => w,
            Err(e) => {
                return Err(ShuntVoltageReadError::I2cError(e));
            },
        };
        let reg = measurements::ShuntVoltageRegister(bits);
        let range = self.active_shunt_range();
        match ShuntVoltage::from_bits_with_range(reg, range) {
            Some(sv) => Ok(sv),
            None => Err(
                ShuntVoltageReadError::ShuntVoltageOutOfRange {
                    should: range,
                    is: ShuntVoltage::from_bits_unchecked(reg),
                },
            ),
        }
    }

    /// Read the last measured bus voltage.
    ///
    /// The reading is validated against the bus voltage range of the last
    /// written configuration, or the widest range when none is known; an
    /// out-of-range reading is handed back inside the error, unchecked.
    pub fn bus_voltage(&mut self) -> (r: Result<BusVoltage, BusVoltageReadError<I2C::Error>>)
        ensures
            final(self).spec_address() == old(self).spec_address(),
            final(self).spec_calib() == old(self).spec_calib(),
            final(self).spec_config() == old(self).spec_config(),
            r matches Ok(bv) ==> BusVoltage::spec_in_range(
                bv.spec_bits(),
                old(self).spec_bus_range(),
            ),
            r matches Err(BusVoltageReadError::BusVoltageOutOfRange { should, is }) ==> (should
                == old(self).spec_bus_range() && !BusVoltage::spec_in_range(
                is.spec_bits(),
                should,
            )),
    {
        let bits = match self.read_raw(RegisterName::BusVoltage) {
            Ok(w) => w,
            Err(e) => {
                return Err(BusVoltageReadError::I2cError(e));
            },
        };
        let reg = measurements::BusVoltageRegister(bits);
        let range = self.active_bus_range();
        match BusVoltage::from_bits_with_range(reg, range) {
            Some(bv) => Ok(bv),
            None => Err(
                BusVoltageReadError::BusVoltageOutOfRange {
                    should: range,
                    is: BusVoltage::from_bits_unchecked(reg),
                },
            ),
        }
    }

    /// Read the last measured power, as the raw register contents.
    ///
    /// Reading the power register clears the conversion ready flag on the
    /// device.
    pub fn power_raw(&mut self) -> (r: Result<measurements::PowerRegister, I2C::Error>)
        ensures
            final(self).spec_address() == old(self).spec_address(),
            final(self).spec_calib() == old(self).spec_calib(),
            final(self).spec_config() == old(self).spec_config(),
    {
        match self.read_raw(RegisterName::Power) {
            Ok(w) => Ok(measurements::PowerRegister(w)),
            Err(e) => Err(e),
        }
    }

    /// Read the last measured current, as the raw register contents.
    pub fn current_raw(&mut self) -> (r: Result<measurements::CurrentRegister, I2C::Error>)
        ensures
            final(self).spec_address() == old(self).spec_address(),
            final(self).spec_calib() == old(self).spec_calib(),
            final(self).spec_config() == old(self).spec_config(),
    {
        match self.read_raw(RegisterName::Current) {
            Ok(w) => Ok(measurements::CurrentRegister(w)),
            Err(e) => Err(e),
        }
    }

    /// The shunt voltage range readings are currently checked against.
    fn active_shunt_range(&self) -> (r: ShuntVoltageRange)
        ensures
            r == self.spec_shunt_range(),
    {
        match self.config {
            Some(c) => c.shunt_voltage_range,
            None => ShuntVoltageRange::Fsr320mv,
        }
    }

    /// The bus voltage range readings are currently checked against.
    fn active_bus_range(&self) -> (r: BusVoltageRange)
        ensures
            r == self.spec_bus_range(),
    {
        match self.config {
            Some(c) => c.bus_voltage_range,
            None => BusVoltageRange::Fsr32v,
        }
    }

    /// Read one register: write its address byte, read two big-endian bytes.
    fn read_raw(&mut self, reg: RegisterName) -> (r: Result<u16, I2C::Error>)
        ensures
            final(self).spec_address() == old(self).spec_address(),
            final(self).spec_calib() == old(self).spec_calib(),
            final(self).spec_config() == old(self).spec_config(),
    {
        let cmd = [reg.address()];
        match self.i2c.write_read(self.address.as_byte(), cmd.as_slice()) {
            Ok(bytes) => Ok(u16_from_be(bytes)),
            Err(e) => Err(e),
        }
    }

    /// Write one register: its address byte followed by the two big-endian
    /// data bytes, in one bus write.
    fn write_register(&mut self, reg: RegisterName, value: u16) -> (r: Result<(), I2C::Error>)
        ensures
            final(self).spec_address() == old(self).spec_address(),
            final(self).spec_calib() == old(self).spec_calib(),
            final(self).spec_config() == old(self).spec_config(),
    {
        let bytes = u16_to_be(value);
        let cmd = [reg.address(), bytes[0], bytes[1]];
        self.i2c.write(self.address.as_byte(), cmd.as_slice())
    }
}

} // verus!
