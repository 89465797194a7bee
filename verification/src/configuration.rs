//! Types used to set the configuration of the INA219.
//!
//! The configuration register packs six fields into one 16-bit word:
//! bit 15 the reset flag, bit 14 reserved, bit 13 the bus voltage range,
//! bits 12-11 the shunt voltage range, bits 10-7 the bus ADC resolution,
//! bits 6-3 the shunt ADC resolution and bits 2-0 the operating mode.
//! Encoding and decoding are total; decoding collapses the redundant
//! resolution bit patterns the datasheet leaves open.

use core::ops::RangeInclusive;
use vstd::prelude::*;

verus! {

/// Perform a system reset or continue work as normal.
///
/// If set to `Reset` all registers are set to their defaults. The flag is
/// cleared after the reset was performed, so it should always read as `Run`.
#[derive(Debug, Copy, Clone, Eq, PartialEq, Structural)]
pub enum Reset {
    /// Continue normal operation
    Run,
    /// Perform system reset
    Reset,
}

impl Reset {
    /// The value of the reset flag, as found in bit 15 of the register.
    pub open spec fn spec_bits(self) -> u16 {
        match self {
            Reset::Run => 0,
            Reset::Reset => 1,
        }
    }

    /// The reset flag carried in bit 15 of a register word.
    pub open spec fn spec_from_register(reg: u16) -> Reset {
        if (reg >> 15) & 1 == 0 {
            Reset::Run
        } else {
            Reset::Reset
        }
    }

    fn from_register(reg: u16) -> (r: Self)
        ensures
            r == Self::spec_from_register(reg),
    {
        if (reg >> 15) & 1 == 0 {
            Reset::Run
        } else {
            Reset::Reset
        }
    }

    fn as_bits(self) -> (r: u16)
        ensures
            r == self.spec_bits(),
    {
        match self {
            Reset::Run => 0,
            Reset::Reset => 1,
        }
    }
}

impl Default for Reset {
    /// Normal operation.
    fn default() -> (r: Self)
        ensures
            r == Reset::Run,
    {
        Reset::Run
    }
}

/// Measurement range for the bus voltage.
#[derive(Debug, Copy, Clone, Eq, PartialEq, Structural)]
pub enum BusVoltageRange {
    /// Maximum bus voltage of 16V
    Fsr16v,
    /// Maximum bus voltage of 32V (still limited by the 26V IC maximum)
    Fsr32v,
}

impl BusVoltageRange {
    /// The value of the range field, as found in bit 13 of the register.
    pub open spec fn spec_bits(self) -> u16 {
        match self {
            BusVoltageRange::Fsr16v => 0,
            BusVoltageRange::Fsr32v => 1,
        }
    }

    /// The range selected by bit 13 of a register word.
    pub open spec fn spec_from_register(reg: u16) -> BusVoltageRange {
        if (reg >> 13) & 1 == 0 {
            BusVoltageRange::Fsr16v
        } else {
            BusVoltageRange::Fsr32v
        }
    }

    /// The upper bound of the range in Volts.
    pub open spec fn spec_max_v(self) -> u16 {
        match self {
            BusVoltageRange::Fsr16v => 16,
            BusVoltageRange::Fsr32v => 32,
        }
    }

    /// The voltage range in Volts.
    pub fn range_v(self) -> (r: RangeInclusive<u16>)
        ensures
            r@.start == 0,
            r@.end == self.spec_max_v(),
            !r@.exhausted,
    {
        match self {
            BusVoltageRange::Fsr16v => RangeInclusive::new(0, 16),
            BusVoltageRange::Fsr32v => RangeInclusive::new(0, 32),
        }
    }

    /// The upper bound of the range in Volts.
    pub fn max_v(self) -> (r: u16)
        ensures
            r == self.spec_max_v(),
    {
        match self {
            BusVoltageRange::Fsr16v => 16,
            BusVoltageRange::Fsr32v => 32,
        }
    }

    fn from_register(reg: u16) -> (r: Self)
        ensures
            r == Self::spec_from_register(reg),
    {
        if (reg >> 13) & 1 == 0 {
            BusVoltageRange::Fsr16v
        } else {
            BusVoltageRange::Fsr32v
        }
    }

    fn as_bits(self) -> (r: u16)
        ensures
            r == self.spec_bits(),
    {
        match self {
            BusVoltageRange::Fsr16v => 0,
            BusVoltageRange::Fsr32v => 1,
        }
    }
}

impl Default for BusVoltageRange {
    /// The full 32V range.
    fn default() -> (r: Self)
        ensures
            r == BusVoltageRange::Fsr32v,
    {
        BusVoltageRange::Fsr32v
    }
}

/// Shunt voltage measurement range.
///
/// This sets the gain of the programmable amplifier and thus the maximum
/// shunt voltage that can be measured.
#[derive(Debug, Copy, Clone, Eq, PartialEq, Structural)]
pub enum ShuntVoltageRange {
    /// Range of ±40mV, gain of 1
    Fsr40mv,
    /// Range of ±80mV, gain of 1/2
    Fsr80mv,
    /// Range of ±160mV, gain of 1/4
    Fsr160mv,
    /// Range of ±320mV, gain of 1/8
    Fsr320mv,
}

impl ShuntVoltageRange {
    /// The value of the gain field, as found in bits 12-11 of the register.
    pub open spec fn spec_bits(self) -> u16 {
        match self {
            ShuntVoltageRange::Fsr40mv => 0,
            ShuntVoltageRange::Fsr80mv => 1,
            ShuntVoltageRange::Fsr160mv => 2,
            ShuntVoltageRange::Fsr320mv => 3,
        }
    }

    /// The range selected by bits 12-11 of a register word.
    pub open spec fn spec_from_register(reg: u16) -> ShuntVoltageRange {
        if (reg >> 11) & 3 == 0 {
            ShuntVoltageRange::Fsr40mv
        } else if (reg >> 11) & 3 == 1 {
            ShuntVoltageRange::Fsr80mv
        } else if (reg >> 11) & 3 == 2 {
            ShuntVoltageRange::Fsr160mv
        } else {
            ShuntVoltageRange::Fsr320mv
        }
    }

    /// The magnitude of the symmetric range in mV.
    pub open spec fn spec_max_mv(self) -> i16 {
        match self {
            ShuntVoltageRange::Fsr40mv => 40,
            ShuntVoltageRange::Fsr80mv => 80,
            ShuntVoltageRange::Fsr160mv => 160,
            ShuntVoltageRange::Fsr320mv => 320,
        }
    }

    /// Maximum range in mV for the shunt voltage measurement.
    pub fn range_mv(self) -> (r: RangeInclusive<i16>)
        ensures
            r@.start == -self.spec_max_mv(),
            r@.end == self.spec_max_mv(),
            !r@.exhausted,
    {
        let max = self.max_mv();
        RangeInclusive::new(-max, max)
    }

    /// The magnitude of the symmetric range in mV.
    pub fn max_mv(self) -> (r: i16)
        ensures
            r == self.spec_max_mv(),
    {
        match self {
            ShuntVoltageRange::Fsr40mv => 40,
            ShuntVoltageRange::Fsr80mv => 80,
            ShuntVoltageRange::Fsr160mv => 160,
            ShuntVoltageRange::Fsr320mv => 320,
        }
    }

    fn from_register(reg: u16) -> (r: Self)
        ensures
            r == Self::spec_from_register(reg),
    {
        let bits = (reg >> 11) & 3;
        if bits == 0 {
            ShuntVoltageRange::Fsr40mv
        } else if bits == 1 {
            ShuntVoltageRange::Fsr80mv
        } else if bits == 2 {
            ShuntVoltageRange::Fsr160mv
        } else {
            ShuntVoltageRange::Fsr320mv
        }
    }

    fn as_bits(self) -> (r: u16)
        ensures
            r == self.spec_bits(),
    {
        match self {
            ShuntVoltageRange::Fsr40mv => 0,
            ShuntVoltageRange::Fsr80mv => 1,
            ShuntVoltageRange::Fsr160mv => 2,
            ShuntVoltageRange::Fsr320mv => 3,
        }
    }
}

impl Default for ShuntVoltageRange {
    /// The full ±320mV range.
    fn default() -> (r: Self)
        ensures
            r == ShuntVoltageRange::Fsr320mv,
    {
        ShuntVoltageRange::Fsr320mv
    }
}

/// Resolution / averaging mode for the shunt or bus voltage.
#[derive(Debug, Copy, Clone, Eq, PartialEq, Structural)]
pub enum Resolution {
    /// Single 9 bit sample
    Res9Bit,
    /// Single 10 bit sample
    Res10Bit,
    /// Single 11 bit sample
    Res11Bit,
    /// Single 12 bit sample
    Res12Bit,
    /// 2 averaged 12 bit samples
    Avg2,
    /// 4 averaged 12 bit samples
    Avg4,
    /// 8 averaged 12 bit samples
    Avg8,
    /// 16 averaged 12 bit samples
    Avg16,
    /// 32 averaged 12 bit samples
    Avg32,
    /// 64 averaged 12 bit samples
    Avg64,
    /// 128 averaged 12 bit samples
    Avg128,
}

impl Resolution {
    /// The canonical four field bits the resolution is written as.
    pub open spec fn spec_bits(self) -> u16 {
        match self {
            Resolution::Res9Bit => 0b0000,
            Resolution::Res10Bit => 0b0001,
            Resolution::Res11Bit => 0b0010,
            Resolution::Res12Bit => 0b0011,
            Resolution::Avg2 => 0b1001,
            Resolution::Avg4 => 0b1010,
            Resolution::Avg8 => 0b1011,
            Resolution::Avg16 => 0b1100,
            Resolution::Avg32 => 0b1101,
            Resolution::Avg64 => 0b1110,
            Resolution::Avg128 => 0b1111,
        }
    }

    /// The resolution selected by a four-bit field value.
    ///
    /// The datasheet leaves several patterns redundant: 0b0100-0b0110 repeat
    /// the single-sample widths and 0b0111 as well as 0b1000 also select the
    /// single 12 bit sample.
    pub open spec fn spec_from_field(field: u16) -> Resolution {
        if field == 0b0000 || field == 0b0100 {
            Resolution::Res9Bit
        } else if field == 0b0001 || field == 0b0101 {
            Resolution::Res10Bit
        } else if field == 0b0010 || field == 0b0110 {
            Resolution::Res11Bit
        } else if field == 0b0011 || field == 0b0111 || field == 0b1000 {
            Resolution::Res12Bit
        } else if field == 0b1001 {
            Resolution::Avg2
        } else if field == 0b1010 {
            Resolution::Avg4
        } else if field == 0b1011 {
            Resolution::Avg8
        } else if field == 0b1100 {
            Resolution::Avg16
        } else if field == 0b1101 {
            Resolution::Avg32
        } else if field == 0b1110 {
            Resolution::Avg64
        } else {
            Resolution::Avg128
        }
    }

    fn from_field(field: u16) -> (r: Self)
        ensures
            r == Self::spec_from_field(field),
    {
        if field == 0b0000 || field == 0b0100 {
            Resolution::Res9Bit
        } else if field == 0b0001 || field == 0b0101 {
            Resolution::Res10Bit
        } else if field == 0b0010 || field == 0b0110 {
            Resolution::Res11Bit
        } else if field == 0b0011 || field == 0b0111 || field == 0b1000 {
            Resolution::Res12Bit
        } else if field == 0b1001 {
            Resolution::Avg2
        } else if field == 0b1010 {
            Resolution::Avg4
        } else if field == 0b1011 {
            Resolution::Avg8
        } else if field == 0b1100 {
            Resolution::Avg16
        } else if field == 0b1101 {
            Resolution::Avg32
        } else if field == 0b1110 {
            Resolution::Avg64
        } else {
            Resolution::Avg128
        }
    }

    fn as_bits(self) -> (r: u16)
        ensures
            r == self.spec_bits(),
    {
        match self {
            Resolution::Res9Bit => 0b0000,
            Resolution::Res10Bit => 0b0001,
            Resolution::Res11Bit => 0b0010,
            Resolution::Res12Bit => 0b0011,
            Resolution::Avg2 => 0b1001,
            Resolution::Avg4 => 0b1010,
            Resolution::Avg8 => 0b1011,
            Resolution::Avg16 => 0b1100,
            Resolution::Avg32 => 0b1101,
            Resolution::Avg64 => 0b1110,
            Resolution::Avg128 => 0b1111,
        }
    }

    /// The time in µs one conversion takes when this resolution is active.
    pub open spec fn spec_conversion_time_us(self) -> u32 {
        match self {
            Resolution::Res9Bit => 84,
            Resolution::Res10Bit => 148,
            Resolution::Res11Bit => 276,
            Resolution::Res12Bit => 532,
            Resolution::Avg2 => 1_060,
            Resolution::Avg4 => 2_130,
            Resolution::Avg8 => 4_260,
            Resolution::Avg16 => 8_510,
            Resolution::Avg32 => 17_020,
            Resolution::Avg64 => 34_050,
            Resolution::Avg128 => 68_100,
        }
    }

    /// Conversion time in µs when this resolution is active.
    ///
    /// Values according to the conversion-time table of the datasheet.
    pub fn conversion_time_us(self) -> (r: u32)
        ensures
            r == self.spec_conversion_time_us(),
    {
        match self {
            Resolution::Res9Bit => 84,
            Resolution::Res10Bit => 148,
            Resolution::Res11Bit => 276,
            Resolution::Res12Bit => 532,
            Resolution::Avg2 => 1_060,
            Resolution::Avg4 => 2_130,
            Resolution::Avg8 => 4_260,
            Resolution::Avg16 => 8_510,
            Resolution::Avg32 => 17_020,
            Resolution::Avg64 => 34_050,
            Resolution::Avg128 => 68_100,
        }
    }
}

impl Default for Resolution {
    /// A single 12 bit sample.
    fn default() -> (r: Self)
        ensures
            r == Resolution::Res12Bit,
    {
        Resolution::Res12Bit
    }
}

/// Which signals are measured during a conversion.
#[derive(Debug, Copy, Clone, Eq, PartialEq, Structural)]
pub enum MeasuredSignals {
    /// Only the shunt voltage is measured
    ShuntVoltage,
    /// Only the bus voltage is measured
    BusVoltage,
    /// Both voltages are measured
    ShutAndBusVoltage,
}

impl MeasuredSignals {
    /// The two mode bits selecting the signals; never 0.
    pub open spec fn spec_bits(self) -> u16 {
        match self {
            MeasuredSignals::ShuntVoltage => 1,
            MeasuredSignals::BusVoltage => 2,
            MeasuredSignals::ShutAndBusVoltage => 3,
        }
    }

    /// The signals selected by two mode bits in 1..=3.
    pub open spec fn spec_from_bits(bits: u16) -> MeasuredSignals {
        if bits == 1 {
            MeasuredSignals::ShuntVoltage
        } else if bits == 2 {
            MeasuredSignals::BusVoltage
        } else {
            MeasuredSignals::ShutAndBusVoltage
        }
    }

    fn from_bits(bits: u16) -> (r: Self)
        requires
            1 <= bits <= 3,
        ensures
            r == Self::spec_from_bits(bits),
    {
        if bits == 1 {
            MeasuredSignals::ShuntVoltage
        } else if bits == 2 {
            MeasuredSignals::BusVoltage
        } else {
            MeasuredSignals::ShutAndBusVoltage
        }
    }
}

impl Default for MeasuredSignals {
    /// Measure both voltages.
    fn default() -> (r: Self)
        ensures
            r == MeasuredSignals::ShutAndBusVoltage,
    {
        MeasuredSignals::ShutAndBusVoltage
    }
}

/// Operating mode of the INA219.
#[derive(Debug, Copy, Clone, Eq, PartialEq, Structural)]
pub enum OperatingMode {
    /// Reduce power usage and disable current into the input pins.
    ///
    /// Recovery takes 40µs.
    PowerDown,
    /// Stop the conversions
    AdcOff,
    /// Trigger a single conversion of the given signals
    Triggered(MeasuredSignals),
    /// Continuously measure the given signals
    Continous(MeasuredSignals),
}

impl OperatingMode {
    /// The three mode bits representing this mode.
    pub open spec fn spec_bits(self) -> u16 {
        match self {
            OperatingMode::PowerDown => 0,
            OperatingMode::AdcOff => 4,
            OperatingMode::Triggered(signals) => signals.spec_bits(),
            OperatingMode::Continous(signals) => (signals.spec_bits() + 4) as u16,
        }
    }

    /// The mode selected by bits 2-0 of a register word.
    pub open spec fn spec_from_register(reg: u16) -> OperatingMode {
        let bits = reg & 7;
        if bits == 0 {
            OperatingMode::PowerDown
        } else if bits == 4 {
            OperatingMode::AdcOff
        } else if bits <= 3 {
            OperatingMode::Triggered(MeasuredSignals::spec_from_bits(bits))
        } else {
            OperatingMode::Continous(MeasuredSignals::spec_from_bits((bits - 4) as u16))
        }
    }

    fn from_register(reg: u16) -> (r: Self)
        ensures
            r == Self::spec_from_register(reg),
    {
        let bits = reg & 7;
        proof {
            assert(reg & 7 < 8) by (bit_vector);
        }
        if bits == 0 {
            OperatingMode::PowerDown
        } else if bits == 4 {
            OperatingMode::AdcOff
        } else if bits <= 3 {
            OperatingMode::Triggered(MeasuredSignals::from_bits(bits))
        } else {
            OperatingMode::Continous(MeasuredSignals::from_bits(bits - 4))
        }
    }

    /// Return the bits representing this mode.
    pub fn as_bits(self) -> (r: u16)
        ensures
            r == self.spec_bits(),
    {
        match self {
            OperatingMode::PowerDown => 0,
            OperatingMode::AdcOff => 4,
            OperatingMode::Triggered(signals) => match signals {
                MeasuredSignals::ShuntVoltage => 1,
                MeasuredSignals::BusVoltage => 2,
                MeasuredSignals::ShutAndBusVoltage => 3,
            },
            OperatingMode::Continous(signals) => {
                let s = match signals {
                    MeasuredSignals::ShuntVoltage => 1,
                    MeasuredSignals::BusVoltage => 2,
                    MeasuredSignals::ShutAndBusVoltage => 3,
                };
                s + 4
            },
        }
    }
}

impl Default for OperatingMode {
    /// Continuously measure both voltages.
    fn default() -> (r: Self)
        ensures
            r == OperatingMode::Continous(MeasuredSignals::ShutAndBusVoltage),
    {
        OperatingMode::Continous(MeasuredSignals::ShutAndBusVoltage)
    }
}

/// The structured contents of the configuration register.
///
/// Configures the way the INA219 performs its measurements.
#[derive(Debug, Copy, Clone, Eq, PartialEq, Structural)]
pub struct Configuration {
    /// Indicate to perform a reset or continue to run normally
    pub reset: Reset,
    /// Maximum measurement range for the bus voltage
    pub bus_voltage_range: BusVoltageRange,
    /// Maximum measurement range for the shunt voltage
    pub shunt_voltage_range: ShuntVoltageRange,
    /// Resolution / averaging mode for the bus voltage measurement
    pub bus_resolution: Resolution,
    /// Resolution / averaging mode for the shunt voltage measurement
    pub shunt_resolution: Resolution,
    /// Which signals to measure, triggered or continuously
    pub operating_mode: OperatingMode,
}

/// Both ADC3 "don't care" bits together with the reserved bit 14: the bits on
/// which a word and its re-encoding may differ.
pub const DONT_CARE_BITS: u16 = 0b0100_0010_0010_0000;

/// The register word the chip holds after a reset.
pub const DEFAULT_CONFIGURATION_BITS: u16 = 0x399F;

impl Configuration {
    /// The register word encoding this configuration.
    pub open spec fn spec_as_bits(self) -> u16 {
        (self.reset.spec_bits() << 15) | (self.bus_voltage_range.spec_bits() << 13) | (
        self.shunt_voltage_range.spec_bits() << 11) | (self.bus_resolution.spec_bits() << 7) | (
        self.shunt_resolution.spec_bits() << 3) | self.operating_mode.spec_bits()
    }

    /// The configuration a register word decodes to.
    pub open spec fn spec_from_bits(reg: u16) -> Configuration {
        Configuration {
            reset: Reset::spec_from_register(reg),
            bus_voltage_range: BusVoltageRange::spec_from_register(reg),
            shunt_voltage_range: ShuntVoltageRange::spec_from_register(reg),
            bus_resolution: Resolution::spec_from_field((reg >> 7) & 0xF),
            shunt_resolution: Resolution::spec_from_field((reg >> 3) & 0xF),
            operating_mode: OperatingMode::spec_from_register(reg),
        }
    }

    /// The configuration the chip falls back to on reset.
    pub open spec fn spec_default() -> Configuration {
        Configuration {
            reset: Reset::Run,
            bus_voltage_range: BusVoltageRange::Fsr32v,
            shunt_voltage_range: ShuntVoltageRange::Fsr320mv,
            bus_resolution: Resolution::Res12Bit,
            shunt_resolution: Resolution::Res12Bit,
            operating_mode: OperatingMode::Continous(MeasuredSignals::ShutAndBusVoltage),
        }
    }

    /// Decode a register word into the configuration it describes.
    pub fn from_bits(reg: u16) -> (r: Self)
        ensures
            r == Self::spec_from_bits(reg),
    {
        proof {
            assert((reg >> 7) & 0xF < 16 && (reg >> 3) & 0xF < 16) by (bit_vector);
        }
        Configuration {
            reset: Reset::from_register(reg),
            bus_voltage_range: BusVoltageRange::from_register(reg),
            shunt_voltage_range: ShuntVoltageRange::from_register(reg),
            bus_resolution: Resolution::from_field((reg >> 7) & 0xF),
            shunt_resolution: Resolution::from_field((reg >> 3) & 0xF),
            operating_mode: OperatingMode::from_register(reg),
        }
    }

    /// Encode this configuration into its register word.
    pub fn as_bits(self) -> (r: u16)
        ensures
            r == self.spec_as_bits(),
    {
        let reset = self.reset.as_bits();
        let bus_range = self.bus_voltage_range.as_bits();
        let shunt_range = self.shunt_voltage_range.as_bits();
        let bus_res = self.bus_resolution.as_bits();
        let shunt_res = self.shunt_resolution.as_bits();
        let mode = self.operating_mode.as_bits();
        (reset << 15) | (bus_range << 13) | (shunt_range << 11) | (bus_res << 7) | (shunt_res << 3)
            | mode
    }

    /// The time in µs until a conversion with this configuration is done, or
    /// `None` when the mode performs no conversions.
    ///
    /// When both signals are measured the conversions run back to back, so the
    /// times add up per the datasheet; the maximum of the two is a lower
    /// bound either way, and we report the larger of the two.
    pub fn conversion_time_us(&self) -> (r: Option<u32>)
        ensures
            r == self.spec_conversion_time_us(),
    {
        let signals = match self.operating_mode {
            OperatingMode::PowerDown => None,
            OperatingMode::AdcOff => None,
            OperatingMode::Triggered(signals) => Some(signals),
            OperatingMode::Continous(signals) => Some(signals),
        };
        match signals {
            None => None,
            Some(MeasuredSignals::ShuntVoltage) => Some(
                self.shunt_resolution.conversion_time_us(),
            ),
            Some(MeasuredSignals::BusVoltage) => Some(self.bus_resolution.conversion_time_us()),
            Some(MeasuredSignals::ShutAndBusVoltage) => {
                let bus = self.bus_resolution.conversion_time_us();
                let shunt = self.shunt_resolution.conversion_time_us();
                if bus >= shunt {
                    Some(bus)
                } else {
                    Some(shunt)
                }
            },
        }
    }

    /// What `conversion_time_us` reports.
    pub open spec fn spec_conversion_time_us(self) -> Option<u32> {
        match self.operating_mode {
            OperatingMode::PowerDown => None,
            OperatingMode::AdcOff => None,
            OperatingMode::Triggered(signals) => Some(self.spec_signal_time_us(signals)),
            OperatingMode::Continous(signals) => Some(self.spec_signal_time_us(signals)),
        }
    }

    /// The conversion time of the measured signals: the active resolution's
    /// time, or the larger of the two when both signals are measured.
    pub open spec fn spec_signal_time_us(self, signals: MeasuredSignals) -> u32 {
        match signals {
            MeasuredSignals::ShuntVoltage => self.shunt_resolution.spec_conversion_time_us(),
            MeasuredSignals::BusVoltage => self.bus_resolution.spec_conversion_time_us(),
            MeasuredSignals::ShutAndBusVoltage => {
                if self.bus_resolution.spec_conversion_time_us()
                    >= self.shunt_resolution.spec_conversion_time_us() {
                    self.bus_resolution.spec_conversion_time_us()
                } else {
                    self.shunt_resolution.spec_conversion_time_us()
                }
            },
        }
    }
}

impl Default for Configuration {
    /// The configuration the chip falls back to on reset.
    fn default() -> (r: Self)
        ensures
            r == Configuration::spec_default(),
    {
        Configuration {
            reset: Reset::Run,
            bus_voltage_range: BusVoltageRange::Fsr32v,
            shunt_voltage_range: ShuntVoltageRange::Fsr320mv,
            bus_resolution: Resolution::Res12Bit,
            shunt_resolution: Resolution::Res12Bit,
            operating_mode: OperatingMode::Continous(MeasuredSignals::ShutAndBusVoltage),
        }
    }
}

impl crate::register::Register for Configuration {
    fn register_name() -> crate::register::RegisterName {
        crate::register::RegisterName::Configuration
    }
}

impl crate::register::ReadRegister for Configuration {
    fn from_bits(bits: u16) -> Self {
        Configuration::from_bits(bits)
    }
}

impl crate::register::WriteRegister for Configuration {
    fn as_bits(&self) -> u16 {
        Configuration::as_bits(*self)
    }
}

/// Decoding inverts encoding: every structured configuration survives the
/// round trip through its register word unchanged.
pub proof fn lemma_decode_encode(c: Configuration)
    ensures
        Configuration::spec_from_bits(c.spec_as_bits()) == c,
{
    let a = c.reset.spec_bits();
    let b = c.bus_voltage_range.spec_bits();
    let s = c.shunt_voltage_range.spec_bits();
    let br = c.bus_resolution.spec_bits();
    let sr = c.shunt_resolution.spec_bits();
    let m = c.operating_mode.spec_bits();
    assert(a < 2 && b < 2 && s < 4 && br < 16 && sr < 16 && m < 8);
    let w = c.spec_as_bits();
    assert(a < 2 && b < 2 && s < 4 && br < 16 && sr < 16 && m < 8 ==> {
        let v = (a << 15) | (b << 13) | (s << 11) | (br << 7) | (sr << 3) | m;
        ((v >> 15) & 1 == a) && ((v >> 13) & 1 == b) && ((v >> 11) & 3 == s) && ((v >> 7) & 0xF
            == br) && ((v >> 3) & 0xF == sr) && (v & 7 == m)
    }) by (bit_vector);
    assert(Reset::spec_from_register(w) == c.reset);
    assert(BusVoltageRange::spec_from_register(w) == c.bus_voltage_range);
    assert(ShuntVoltageRange::spec_from_register(w) == c.shunt_voltage_range);
    assert(Resolution::spec_from_field((w >> 7) & 0xF) == c.bus_resolution);
    assert(Resolution::spec_from_field((w >> 3) & 0xF) == c.shunt_resolution);
    assert(OperatingMode::spec_from_register(w) == c.operating_mode);
}

/// Re-encoding the configuration a word decodes to reproduces the word, up to
/// the reserved bit and, as long as neither resolution decodes to the single
/// 12 bit sample, the two ADC3 "don't care" bits; and decoding the re-encoded
/// word changes nothing.
pub proof fn lemma_encode_decode(w: u16)
    ensures
        Configuration::spec_from_bits(Configuration::spec_from_bits(w).spec_as_bits())
            == Configuration::spec_from_bits(w),
        ({
            let c = Configuration::spec_from_bits(w);
            c.bus_resolution != Resolution::Res12Bit && c.shunt_resolution != Resolution::Res12Bit
        }) ==> (Configuration::spec_from_bits(w).spec_as_bits() | DONT_CARE_BITS) == (w
            | DONT_CARE_BITS),
{
    let c = Configuration::spec_from_bits(w);
    lemma_decode_encode(c);
    let a = (w >> 15) & 1;
    let b = (w >> 13) & 1;
    let s = (w >> 11) & 3;
    let br = (w >> 7) & 0xF;
    let sr = (w >> 3) & 0xF;
    let m = w & 7;
    assert((w >> 15) & 1 < 2 && (w >> 13) & 1 < 2 && (w >> 11) & 3 < 4 && (w >> 7) & 0xF < 16 && (w
        >> 3) & 0xF < 16 && w & 7 < 8) by (bit_vector);

    // each decoded field re-encodes to the same bits, up to the resolution
    // fields' don't care bit
    assert(c.reset.spec_bits() == a);
    assert(c.bus_voltage_range.spec_bits() == b);
    assert(c.shunt_voltage_range.spec_bits() == s);
    assert(c.operating_mode.spec_bits() == m);
    let br2 = c.bus_resolution.spec_bits();
    let sr2 = c.shunt_resolution.spec_bits();

    if c.bus_resolution != Resolution::Res12Bit && c.shunt_resolution != Resolution::Res12Bit {
        assert(br2 == br || (4 <= br <= 6 && br2 + 4 == br));
        assert(sr2 == sr || (4 <= sr <= 6 && sr2 + 4 == sr));
        assert((a < 2 && b < 2 && s < 4 && br < 16 && sr < 16 && m < 8 && br2 < 16 && sr2 < 16 && (
        br2 == br || (4 <= br <= 6 && br2 + 4 == br)) && (sr2 == sr || (4 <= sr <= 6 && sr2 + 4
            == sr)) && a == (w >> 15) & 1 && b == (w >> 13) & 1 && s == (w >> 11) & 3 && br == (w
            >> 7) & 0xF && sr == (w >> 3) & 0xF && m == w & 7) ==> ((((a << 15) | (b << 13) | (s
            << 11) | (br2 << 7) | (sr2 << 3) | m) | 0b0100_0010_0010_0000) == (w
            | 0b0100_0010_0010_0000))) by (bit_vector);
    }
}

/// The default configuration encodes to the datasheet's reset word 0x399F,
/// and that word decodes back to the default configuration.
pub proof fn lemma_default_bits()
    ensures
        Configuration::spec_default().spec_as_bits() == DEFAULT_CONFIGURATION_BITS,
        Configuration::spec_from_bits(DEFAULT_CONFIGURATION_BITS) == Configuration::spec_default(),
{
    let c = Configuration::spec_default();
    assert(c.spec_as_bits() == ((0 as u16) << 15) | ((1 as u16) << 13) | ((3 as u16) << 11) | ((
    3 as u16) << 7) | ((3 as u16) << 3) | (7 as u16));
    assert((((0 as u16) << 15) | ((1 as u16) << 13) | ((3 as u16) << 11) | ((3 as u16) << 7) | ((
    3 as u16) << 3) | (7 as u16)) == 0x399F) by (bit_vector);
    assert(((0x399F as u16) >> 15) & 1 == 0 && ((0x399F as u16) >> 13) & 1 == 1 && ((0x399F as u16)
        >> 11) & 3 == 3 && ((0x399F as u16) >> 7) & 0xF == 3 && ((0x399F as u16) >> 3) & 0xF == 3
        && (0x399F as u16) & 7 == 7) by (bit_vector);
    assert(Configuration::spec_from_bits(0x399F) == c);
}

} // verus!
