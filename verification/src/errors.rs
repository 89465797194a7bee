//! Errors that can be returned by the different driver operations.
//!
//! Transport failures are always kept apart from range and consistency
//! failures, so callers can retry bus errors without second-guessing the
//! physical readings.

use crate::configuration::{BusVoltageRange, Configuration, ShuntVoltageRange};
use crate::measurements::{BusVoltage, Measurements, ShuntVoltage};
use crate::register::RegisterName;
use vstd::prelude::*;

verus! {

/// Error returned in case the initialization fails.
///
/// It hands the transport back to the caller so the handle is not lost.
#[derive(Debug)]
pub struct InitializationError<I2c, I2cErr> {
    /// Reason why the initialization failed
    pub reason: InitializationErrorReason<I2cErr>,
    /// The transport that was passed in when the driver was created
    pub device: I2c,
}

impl<I2c, I2cErr> InitializationError<I2c, I2cErr> {
    /// Bundle a failure reason with the transport handed back.
    pub fn new(reason: InitializationErrorReason<I2cErr>, device: I2c) -> (r: Self)
        ensures
            r.reason == reason,
            r.device == device,
    {
        Self { reason, device }
    }
}

/// Error conditions that can appear during initialization.
#[derive(Debug, Copy, Clone)]
pub enum InitializationErrorReason<I2cErr> {
    /// An I2C read or write failed
    I2cError(I2cErr),
    /// The configuration was not the default value after a reset
    ConfigurationNotDefaultAfterReset,
    /// A register was not zero when it was expected to be after reset
    RegisterNotZeroAfterReset(RegisterName),
    /// The shunt voltage value was not in the range expected after a reset
    ShuntVoltageOutOfRange,
    /// The bus voltage value was not in the range expected after a reset
    BusVoltageOutOfRange,
}

impl<E> InitializationErrorReason<E> {
    /// The initialization failure a failed shunt voltage read amounts to.
    pub fn from_shunt_read_error(value: ShuntVoltageReadError<E>) -> (r: Self)
        ensures
            value matches ShuntVoltageReadError::I2cError(e) ==> r == Self::I2cError(e),
            value is ShuntVoltageOutOfRange ==> r == Self::ShuntVoltageOutOfRange,
    {
        match value {
            ShuntVoltageReadError::I2cError(e) => Self::I2cError(e),
            ShuntVoltageReadError::ShuntVoltageOutOfRange { should: _, is: _ } => {
                Self::ShuntVoltageOutOfRange
            },
        }
    }

    /// The initialization failure a failed bus voltage read amounts to.
    pub fn from_bus_read_error(value: BusVoltageReadError<E>) -> (r: Self)
        ensures
            value matches BusVoltageReadError::I2cError(e) ==> r == Self::I2cError(e),
            value is BusVoltageOutOfRange ==> r == Self::BusVoltageOutOfRange,
    {
        match value {
            BusVoltageReadError::I2cError(e) => Self::I2cError(e),
            BusVoltageReadError::BusVoltageOutOfRange { should: _, is: _ } => {
                Self::BusVoltageOutOfRange
            },
        }
    }
}

/// Errors that can happen when a measurement is read.
#[derive(Debug, Copy, Clone)]
pub enum MeasurementError<I2cErr> {
    /// An I2C read or write failed
    I2cError(I2cErr),
    /// An error occurred while reading the shunt voltage
    ShuntVoltageReadError(ShuntVoltageReadError<I2cErr>),
    /// An error occurred while reading the bus voltage
    BusVoltageReadError(BusVoltageReadError<I2cErr>),
    /// The INA219 reported a math overflow for the given bus and shunt voltage
    MathOverflow(Measurements<(), ()>),
}

impl<E> MeasurementError<E> {
    /// The measurement failure a failed shunt voltage read amounts to: a bare
    /// transport error stays one, an out-of-range reading is kept whole.
    pub fn from_shunt_read_error(value: ShuntVoltageReadError<E>) -> (r: Self)
        ensures
            value matches ShuntVoltageReadError::I2cError(e) ==> r == Self::I2cError(e),
            value is ShuntVoltageOutOfRange ==> r == Self::ShuntVoltageReadError(value),
    {
        match value {
            ShuntVoltageReadError::I2cError(e) => Self::I2cError(e),
            ShuntVoltageReadError::ShuntVoltageOutOfRange { should, is } => {
                Self::ShuntVoltageReadError(
                    ShuntVoltageReadError::ShuntVoltageOutOfRange { should, is },
                )
            },
        }
    }

    /// The measurement failure a failed bus voltage read amounts to: a bare
    /// transport error stays one, an out-of-range reading is kept whole.
    pub fn from_bus_read_error(value: BusVoltageReadError<E>) -> (r: Self)
        ensures
            value matches BusVoltageReadError::I2cError(e) ==> r == Self::I2cError(e),
            value is BusVoltageOutOfRange ==> r == Self::BusVoltageReadError(value),
    {
        match value {
            BusVoltageReadError::I2cError(e) => Self::I2cError(e),
            BusVoltageReadError::BusVoltageOutOfRange { should, is } => {
                Self::BusVoltageReadError(BusVoltageReadError::BusVoltageOutOfRange { should, is })
            },
        }
    }
}

/// Errors that can happen when the shunt voltage is read.
#[derive(Debug, Copy, Clone)]
pub enum ShuntVoltageReadError<I2cErr> {
    /// The I2C read failed
    I2cError(I2cErr),
    /// The shunt voltage was out of range for the current configuration
    ShuntVoltageOutOfRange {
        /// Currently configured shunt voltage range
        should: ShuntVoltageRange,
        /// The shunt voltage that was read
        is: ShuntVoltage,
    },
}

/// Errors that can happen when the bus voltage is read.
#[derive(Debug, Copy, Clone)]
pub enum BusVoltageReadError<I2cErr> {
    /// The I2C read failed
    I2cError(I2cErr),
    /// The bus voltage was out of range for the current configuration
    BusVoltageOutOfRange {
        /// Currently configured bus voltage range
        should: BusVoltageRange,
        /// The bus voltage that was read
        is: BusVoltage,
    },
}

/// Errors that can happen when the configuration is read.
#[derive(Debug, Copy, Clone)]
pub enum ConfigurationReadError<I2cErr> {
    /// The I2C read failed
    I2cError(I2cErr),
    /// The read configuration did not match the saved configuration
    ConfigurationMismatch {
        /// Configuration read from the device
        read: Configuration,
        /// Configuration saved in the driver
        saved: Configuration,
    },
}

} // verus!
