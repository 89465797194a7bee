//! Types and trait to calibrate the INA219.
//!
//! A calibration relates the chip's current and power registers to physical
//! units chosen by the caller. The integer calibration derives the register
//! word from a shunt resistance and a chosen current resolution; the
//! uncalibrated variant writes no calibration and suppresses current reads.

use crate::errors::MeasurementError;
use crate::measurements::{
    spec_signed, spec_unsigned, BusVoltage, CurrentRegister, Measurements, PowerRegister,
    ShuntVoltage,
};
use crate::register::{Register, RegisterName, WriteRegister};
use vstd::arithmetic::div_mod::lemma_div_is_ordered_by_denominator;
use vstd::prelude::*;

verus! {

/// Trait describing a calibration for the INA219.
pub trait Calibration: Sized {
    /// Type of the current measurement
    type Current;

    /// Type of the power measurement
    type Power;

    /// The value the calibration register is programmed with.
    spec fn spec_register_bits(&self) -> u16;

    /// Whether the current register is read at all; when false,
    /// `current_from_register` is only ever called with 0.
    spec fn spec_read_current(&self) -> bool;

    /// The current measurement a current register word is projected to.
    spec fn spec_current_from(&self, reg: u16) -> Self::Current;

    /// The power measurement a power register word is projected to.
    spec fn spec_power_from(&self, reg: u16) -> Self::Power;

    /// Return the value that should be written to the calibration register
    /// for this calibration.
    fn register_bits(&self) -> (r: u16)
        ensures
            r == self.spec_register_bits(),
    ;

    /// Indicate whether the calibration needs the current register to be read.
    fn read_current(&self) -> (r: bool)
        ensures
            r == self.spec_read_current(),
    ;

    /// Return the current measurement from the given register value.
    fn current_from_register(&self, reg: CurrentRegister) -> (r: Self::Current)
        ensures
            r == self.spec_current_from(reg.0),
    ;

    /// Return the power measurement from the given register value.
    fn power_from_register(&self, reg: PowerRegister) -> (r: Self::Power)
        ensures
            r == self.spec_power_from(reg.0),
    ;
}

impl<C: Calibration> Register for C {
    fn register_name() -> RegisterName {
        RegisterName::Calibration
    }
}

impl<C: Calibration> WriteRegister for C {
    fn as_bits(&self) -> u16 {
        self.register_bits()
    }
}

/// The current register value the chip computes for a given calibration
/// register value and shunt voltage reading: shunt voltage times calibration,
/// divided by an internal scale of 4096.
pub open spec fn spec_device_current(cal_reg: u16, shunt: ShuntVoltage) -> int {
    (spec_unsigned(shunt.spec_10uv()) * cal_reg) / 4096
}

/// The power register value the chip computes for a given current register
/// value and bus voltage reading: current times the 4mV bus count, divided by
/// an internal scale of 5000.
pub open spec fn spec_device_power(current: int, bus: BusVoltage) -> int {
    (current * bus.spec_voltage_4mv()) / 5000
}

/// Simulate the calculation a real INA219 would produce.
///
/// Fails with a math overflow carrying the unaffected measurements exactly
/// when the current or the power computed by the chip's fixed-point formulas
/// exceeds 16 bits; otherwise both register words are projected through the
/// calibration.
pub fn simulate<C: Calibration>(
    calib: &C,
    bus_voltage: BusVoltage,
    shunt_voltage: ShuntVoltage,
) -> (r: Result<Measurements<C::Current, C::Power>, MeasurementError<core::convert::Infallible>>)
    ensures
        ({
            let current = spec_device_current(calib.spec_register_bits(), shunt_voltage);
            let power = spec_device_power(current, bus_voltage);
            if current > 0xFFFF || power > 0xFFFF {
                r matches Err(MeasurementError::MathOverflow(m)) && m.bus_voltage == bus_voltage
                    && m.shunt_voltage == shunt_voltage
            } else {
                r matches Ok(m) && m.bus_voltage == bus_voltage && m.shunt_voltage == shunt_voltage
                    && m.current == calib.spec_current_from(current as u16) && m.power
                    == calib.spec_power_from(power as u16)
            }
        }),
{
    let calib_reg: u64 = calib.register_bits() as u64;
    let raw: u64 = shunt_voltage.raw() as u64;
    proof {
        assert(raw * calib_reg <= 0xFFFF * 0xFFFF) by (nonlinear_arith)
            requires
                0 <= raw <= 0xFFFF,
                0 <= calib_reg <= 0xFFFF,
        ;
    }
    let current: u64 = (raw * calib_reg) / 4096;
    let bus_4mv: u64 = bus_voltage.voltage_4mv() as u64;
    proof {
        assert(current * bus_4mv <= 0x10000_0000 * 0xFFFF) by (nonlinear_arith)
            requires
                0 <= current <= 0x10000_0000,
                0 <= bus_4mv <= 0xFFFF,
        ;
    }
    let power: u64 = (current * bus_4mv) / 5000;

    if current > 0xFFFF || power > 0xFFFF {
        let on_error_measurement = Measurements {
            bus_voltage,
            shunt_voltage,
            current: (),
            power: (),
        };
        return Err(MeasurementError::MathOverflow(on_error_measurement));
    }
    Ok(
        Measurements {
            bus_voltage,
            shunt_voltage,
            current: calib.current_from_register(CurrentRegister(current as u16)),
            power: calib.power_from_register(PowerRegister(power as u16)),
        },
    )
}

impl<T: Calibration> Calibration for Option<T> {
    type Current = Option<T::Current>;

    type Power = Option<T::Power>;

    open spec fn spec_register_bits(&self) -> u16 {
        match self {
            None => 0,
            Some(cal) => cal.spec_register_bits(),
        }
    }

    open spec fn spec_read_current(&self) -> bool {
        match self {
            None => false,
            Some(cal) => cal.spec_read_current(),
        }
    }

    open spec fn spec_current_from(&self, reg: u16) -> Option<T::Current> {
        match self {
            None => None,
            Some(cal) => Some(cal.spec_current_from(reg)),
        }
    }

    open spec fn spec_power_from(&self, reg: u16) -> Option<T::Power> {
        match self {
            None => None,
            Some(cal) => Some(cal.spec_power_from(reg)),
        }
    }

    fn register_bits(&self) -> u16 {
        match self {
            None => 0,
            Some(cal) => cal.register_bits(),
        }
    }

    fn read_current(&self) -> bool {
        match self {
            None => false,
            Some(cal) => cal.read_current(),
        }
    }

    fn current_from_register(&self, reg: CurrentRegister) -> Option<T::Current> {
        match self {
            None => None,
            Some(cal) => Some(cal.current_from_register(reg)),
        }
    }

    fn power_from_register(&self, reg: PowerRegister) -> Option<T::Power> {
        match self {
            None => None,
            Some(cal) => Some(cal.power_from_register(reg)),
        }
    }
}

/// Empty calibration that does not perform any calibration.
///
/// Use this if you don't want to use the current or power measurements of the
/// INA219.
#[derive(Debug, Default, Copy, Clone, Eq, PartialEq, Structural)]
pub struct UnCalibrated;

impl Calibration for UnCalibrated {
    type Current = ();

    type Power = ();

    open spec fn spec_register_bits(&self) -> u16 {
        0
    }

    open spec fn spec_read_current(&self) -> bool {
        false
    }

    open spec fn spec_current_from(&self, reg: u16) -> () {
        ()
    }

    open spec fn spec_power_from(&self, reg: u16) -> () {
        ()
    }

    fn register_bits(&self) -> u16 {
        0
    }

    fn read_current(&self) -> bool {
        false
    }

    fn current_from_register(&self, _reg: CurrentRegister) -> () {
    }

    fn power_from_register(&self, _reg: PowerRegister) -> () {
    }
}

/// Scaling factor derived from the datasheet constant 0.04096 and the µ SI
/// prefix applied to both factors: 0.04096 * (1/µ)².
pub const SCALING_FACTOR: u64 = 40_960_000_000;

/// The least product of current LSB and shunt resistance the chip can be
/// calibrated for: any smaller and the register word would not fit 16 bits.
pub const PRODUCT_MIN: u64 = 40_960_000_000 / 65535;

/// The greatest product of current LSB and shunt resistance the chip can be
/// calibrated for: any larger and the register word would fall below 2.
pub const PRODUCT_MAX: u64 = 40_960_000_000 / 2;

/// Calibration used by the INA219 to turn the shunt voltage into current and
/// power measurements, in integer microamperes and microwatts.
#[derive(Debug, Copy, Clone, Eq, PartialEq, Structural)]
pub struct IntCalibration {
    /// Value of the least significant bit of the current in µA
    current_lsb: MicroAmpere,
    /// Resistance of the shunt resistor in µOhm
    r_shunt_uohm: u32,
}

impl IntCalibration {
    /// The chosen value of one current register count, in µA.
    pub closed spec fn spec_current_lsb(self) -> i64 {
        self.current_lsb.0
    }

    /// The shunt resistance the calibration was derived from, in µOhm.
    pub closed spec fn spec_r_shunt_uohm(self) -> u32 {
        self.r_shunt_uohm
    }

    /// Whether a current LSB / shunt resistance pair can calibrate the chip:
    /// the product must be such that the register word lands in 2..=0xFFFF.
    pub open spec fn spec_valid(lsb: int, r_shunt_uohm: int) -> bool {
        0 <= lsb && PRODUCT_MIN <= lsb * r_shunt_uohm <= PRODUCT_MAX
    }

    /// The calibration register word for a valid pair: the scaling factor
    /// divided by the product, with the lowest bit forced to 0.
    pub open spec fn spec_cal_word(lsb: int, r_shunt_uohm: int) -> int {
        let q = (SCALING_FACTOR as int) / (lsb * r_shunt_uohm);
        q - (q % 2)
    }

    #[verifier::type_invariant]
    spec fn wf(self) -> bool {
        Self::spec_valid(self.current_lsb.0 as int, self.r_shunt_uohm as int)
    }

    /// Create a new calibration from the least significant bit (LSB) of the
    /// current register in µA and the value of the shunt resistor used in
    /// µOhm.
    ///
    /// Succeeds exactly when the pair is valid: the LSB is not negative and
    /// the product of both values lies in `PRODUCT_MIN..=PRODUCT_MAX`.
    pub fn new(current_lsb: MicroAmpere, r_shunt_uohm: u32) -> (r: Option<Self>)
        ensures
            r is Some <==> Self::spec_valid(current_lsb.0 as int, r_shunt_uohm as int),
            r matches Some(c) ==> c.spec_current_lsb() == current_lsb.0 && c.spec_r_shunt_uohm()
                == r_shunt_uohm,
    {
        if current_lsb.0 < 0 {
            return None;
        }
        let cur: u64 = current_lsb.0 as u64;
        proof {
            assert((cur as int) * (r_shunt_uohm as int) <= 0xFFFF_FFFF_FFFF_FFFF * 0xFFFF_FFFF)
                by (nonlinear_arith)
                requires
                    0 <= cur <= 0xFFFF_FFFF_FFFF_FFFF,
                    0 <= r_shunt_uohm <= 0xFFFF_FFFF,
            ;
        }
        let product: u128 = (cur as u128) * (r_shunt_uohm as u128);

        if (PRODUCT_MIN as u128) <= product && product <= (PRODUCT_MAX as u128) {
            Some(
                Self {
                    current_lsb,
                    r_shunt_uohm,
                },
            )
        } else {
            None
        }
    }

    /// Reconstruct the calibration from the value read from the calibration
    /// register, given the shunt resistance it was derived from.
    ///
    /// Fails when the register or the resistance is 0, or when the current
    /// LSB recomputed from them makes no valid pair.
    pub fn from_bits(bits: u16, r_shunt_uohm: u32) -> (r: Option<Self>)
        ensures
            bits == 0 || r_shunt_uohm == 0 ==> r is None,
            bits != 0 && r_shunt_uohm != 0 ==> {
                let lsb = (SCALING_FACTOR as int) / (bits * r_shunt_uohm);
                &&& (r is Some <==> Self::spec_valid(lsb, r_shunt_uohm as int))
                &&& (r matches Some(c) ==> c.spec_current_lsb() == lsb && c.spec_r_shunt_uohm()
                    == r_shunt_uohm)
            },
    {
        if bits == 0 || r_shunt_uohm == 0 {
            return None;
        }
        proof {
            assert((bits as int) * (r_shunt_uohm as int) <= 0xFFFF * 0xFFFF_FFFF)
                by (nonlinear_arith)
                requires
                    0 <= bits <= 0xFFFF,
                    0 <= r_shunt_uohm <= 0xFFFF_FFFF,
            ;
            assert((bits as int) * (r_shunt_uohm as int) >= 1 * 1) by (nonlinear_arith)
                requires
                    1 <= bits,
                    1 <= r_shunt_uohm,
            ;
        }
        let divisor: u64 = (bits as u64) * (r_shunt_uohm as u64);
        let current_lsb: u64 = SCALING_FACTOR / divisor;

        Self::new(MicroAmpere(current_lsb as i64), r_shunt_uohm)
    }

    /// Turn this calibration into the bits that can be written to the
    /// calibration register: the scaling factor divided by the product of
    /// current LSB and shunt resistance, with the lowest bit cleared as the
    /// datasheet prescribes.
    pub fn as_bits(self) -> (r: u16)
        ensures
            r as int == Self::spec_cal_word(self.spec_current_lsb() as int, self.spec_r_shunt_uohm() as int),
            r % 2 == 0,
            2 <= r,
    {
        proof {
            use_type_invariant(self);
        }
        let cur: i64 = self.current_lsb.0;
        let rs: u32 = self.r_shunt_uohm;
        proof {
            assert((cur as int) * (rs as int) >= PRODUCT_MIN && cur >= 1 && rs >= 1)
                by (nonlinear_arith)
                requires
                    0 <= cur,
                    0 <= rs,
                    PRODUCT_MIN <= (cur as int) * (rs as int),
                    PRODUCT_MIN > 0,
            ;
            assert((cur as int) * (rs as int) <= PRODUCT_MAX);
        }
        let product: u64 = (cur as u64) * (rs as u64);
        let cal: u64 = SCALING_FACTOR / product;
        proof {
            lemma_div_is_ordered_by_denominator(
                SCALING_FACTOR as int,
                PRODUCT_MIN as int,
                product as int,
            );
            lemma_div_is_ordered_by_denominator(
                SCALING_FACTOR as int,
                product as int,
                PRODUCT_MAX as int,
            );
            vstd::arithmetic::div_mod::lemma_fundamental_div_mod_converse(
                SCALING_FACTOR as int,
                PRODUCT_MIN as int,
                65535,
                35185,
            );
            vstd::arithmetic::div_mod::lemma_fundamental_div_mod_converse(
                SCALING_FACTOR as int,
                PRODUCT_MAX as int,
                2,
                0,
            );
        }
        let word: u16 = cal as u16;
        proof {
            assert(2 <= word <= 65535 ==> ((word & !1) % 2 == 0 && 2 <= (word & !1) && (word & !1)
                == word - (word % 2))) by (bit_vector);
        }
        word & !1
    }

    /// The value of the least significant bit of the current register in µA.
    pub fn current_lsb(self) -> (r: MicroAmpere)
        ensures
            r.0 == self.spec_current_lsb(),
    {
        self.current_lsb
    }

    /// The value of the least significant bit of the power register in µW:
    /// twenty times the current LSB, per the datasheet.
    pub fn power_lsb(self) -> (r: MicroWatt)
        ensures
            r.0 == 20 * self.spec_current_lsb(),
    {
        proof {
            use_type_invariant(self);
            lemma_lsb_bound(self);
        }
        MicroWatt(20 * self.current_lsb.0)
    }

    /// The value of the shunt resistor used, in µOhm.
    pub fn r_shunt_uohm(self) -> (r: u32)
        ensures
            r == self.spec_r_shunt_uohm(),
    {
        self.r_shunt_uohm
    }
}

/// A current measurement in µA.
#[derive(Debug, Default, Copy, Clone, Eq, PartialEq, Structural)]
pub struct MicroAmpere(pub i64);

/// A power measurement in µW.
#[derive(Debug, Default, Copy, Clone, Eq, PartialEq, Structural)]
pub struct MicroWatt(pub i64);

impl Calibration for IntCalibration {
    type Current = MicroAmpere;

    type Power = MicroWatt;

    open spec fn spec_register_bits(&self) -> u16 {
        Self::spec_cal_word(self.spec_current_lsb() as int, self.spec_r_shunt_uohm() as int) as u16
    }

    open spec fn spec_read_current(&self) -> bool {
        true
    }

    open spec fn spec_current_from(&self, reg: u16) -> MicroAmpere {
        MicroAmpere((self.spec_current_lsb() * spec_signed(reg)) as i64)
    }

    open spec fn spec_power_from(&self, reg: u16) -> MicroWatt {
        MicroWatt((20 * self.spec_current_lsb() * spec_signed(reg)) as i64)
    }

    fn register_bits(&self) -> u16 {
        Self::as_bits(*self)
    }

    fn read_current(&self) -> bool {
        true
    }

    fn current_from_register(&self, reg: CurrentRegister) -> MicroAmpere {
        proof {
            use_type_invariant(self);
            lemma_lsb_bound(*self);
        }
        let lsb: i64 = self.current_lsb.0;
        let signed: i64 = i64_from_signed_register(reg.0);
        proof {
            assert((lsb as int) * (signed as int) <= PRODUCT_MAX * 32768 && (lsb as int) * (
            signed as int) >= -(PRODUCT_MAX * 32768)) by (nonlinear_arith)
                requires
                    0 <= lsb <= PRODUCT_MAX,
                    -32768 <= signed <= 32767,
            ;
        }
        MicroAmpere(lsb * signed)
    }

    fn power_from_register(&self, reg: PowerRegister) -> MicroWatt {
        proof {
            use_type_invariant(self);
            lemma_lsb_bound(*self);
        }
        let lsb: i64 = self.power_lsb().0;
        let signed: i64 = i64_from_signed_register(reg.0);
        proof {
            assert((lsb as int) * (signed as int) <= 20 * PRODUCT_MAX * 32768 && (lsb as int) * (
            signed as int) >= -(20 * PRODUCT_MAX * 32768)) by (nonlinear_arith)
                requires
                    0 <= lsb <= 20 * PRODUCT_MAX,
                    -32768 <= signed <= 32767,
            ;
        }
        MicroWatt(lsb * signed)
    }
}

/// The current LSB of a well-formed calibration is at most `PRODUCT_MAX`.
proof fn lemma_lsb_bound(c: IntCalibration)
    requires
        IntCalibration::spec_valid(c.spec_current_lsb() as int, c.spec_r_shunt_uohm() as int),
    ensures
        0 <= c.spec_current_lsb() <= PRODUCT_MAX,
        1 <= c.spec_r_shunt_uohm(),
{
    let lsb = c.spec_current_lsb() as int;
    let rs = c.spec_r_shunt_uohm() as int;
    assert(1 <= rs && lsb <= PRODUCT_MAX) by (nonlinear_arith)
        requires
            0 <= lsb,
            0 <= rs,
            PRODUCT_MIN <= lsb * rs <= PRODUCT_MAX,
            PRODUCT_MIN > 0,
    ;
}

/// The signed 16-bit value stored in a register word, widened to 64 bits.
fn i64_from_signed_register(bits: u16) -> (r: i64)
    ensures
        r == spec_signed(bits),
{
    if bits <= 32767 {
        bits as i64
    } else {
        bits as i64 - 65536
    }
}

} // verus!
