use ina219::calibration::{simulate, Calibration, IntCalibration, MicroAmpere, MicroWatt};
use ina219::errors::MeasurementError;
use ina219::measurements::{BusVoltage, ShuntVoltage};

fn as_bits_datasheet(cal: IntCalibration) -> u16 {
    let micro = 1.0 / 1_000_000.0;
    let current_lsb = cal.current_lsb().0 as f64 * micro;
    let r_shunt = f64::from(cal.r_shunt_uohm()) * micro;

    let cal = f64::trunc(0.04096 / (current_lsb * r_shunt));
    assert!(
        !(cal < 0.0 || cal > f64::from(u16::MAX)),
        "Calculation out of range"
    );

    cal as u16 & !1 // According to figure 27 of the datasheet the lowest bit is always 0
}

#[test]
fn calculation_fits_datasheet() {
    for i in 1..=1_000 {
        for r in 1..=1_000 {
            if let Some(cal) = IntCalibration::new(MicroAmpere(i), r) {
                assert_eq!(as_bits_datasheet(cal), cal.as_bits());
            }
        }
    }
}

#[test]
fn datasheet_example_register_value() {
    // 1 mA of current resolution at a 1 Ohm shunt
    let calib = IntCalibration::new(MicroAmpere(1_000), 1_000_000).unwrap();
    assert_eq!(calib.as_bits(), 40);
    assert_eq!(calib.register_bits(), 40);
    assert_eq!(calib.current_lsb(), MicroAmpere(1_000));
    assert_eq!(calib.power_lsb(), MicroWatt(20_000));
    assert_eq!(calib.r_shunt_uohm(), 1_000_000);
}

#[test]
fn rejects_products_outside_the_window() {
    // a negative resolution is never valid
    assert!(IntCalibration::new(MicroAmpere(-1), 1_000_000).is_none());
    // too fine: the register word would not fit 16 bits
    assert!(IntCalibration::new(MicroAmpere(1), 1).is_none());
    assert!(IntCalibration::new(MicroAmpere(625_008), 1).is_none());
    // the edges of the window
    assert!(IntCalibration::new(MicroAmpere(625_009), 1).is_some());
    assert!(IntCalibration::new(MicroAmpere(20_480_000_000), 1).is_some());
    // too coarse: the register word would fall below 2
    assert!(IntCalibration::new(MicroAmpere(20_480_000_001), 1).is_none());
}

#[test]
fn from_bits_inverts_as_bits() {
    let calib = IntCalibration::new(MicroAmpere(100), 1_000_000).unwrap();
    let bits = calib.as_bits();
    assert_eq!(bits, 408);

    let back = IntCalibration::from_bits(bits, 1_000_000).unwrap();
    // 40_960_000_000 / (408 * 1_000_000) = 100 µA
    assert_eq!(back.current_lsb(), MicroAmpere(100));
    assert_eq!(back.r_shunt_uohm(), 1_000_000);

    assert!(IntCalibration::from_bits(0, 1_000_000).is_none());
    assert!(IntCalibration::from_bits(408, 0).is_none());
}

#[test]
fn simulate_matches_datasheet_example() {
    let calib = IntCalibration::new(MicroAmpere(1_000), 1_000_000).unwrap(); // 1mA, 1Ohm
    assert_eq!(calib.as_bits(), 40);

    let bus = BusVoltage::from_mv(20_000); // 20V
    let shunt = ShuntVoltage::from_10uv(4000); // 40mV

    let measurement = simulate(&calib, bus, shunt).expect("Does not overflow");

    // ~40mA; the integer calibration introduces some error
    assert_eq!(measurement.current, MicroAmpere(39_000));
    // 20V * 39mA = 780mW
    assert_eq!(measurement.power, MicroWatt(780_000));
}

#[test]
fn simulate_against_reference_sweep() {
    let calib = IntCalibration::new(MicroAmpere(1_000), 1_000_000).unwrap();
    let cal_reg = u32::from(calib.as_bits());

    for shunt_raw in (0..=u16::MAX).step_by(257) {
        for bus_mv in [0u16, 4, 4096, 16_000, 20_000, 32_000] {
            let bus = BusVoltage::from_mv(bus_mv);
            let shunt = ShuntVoltage::from_10uv(i16::from_ne_bytes(shunt_raw.to_ne_bytes()));

            // the device's fixed-point formulas, computed independently
            let current = (u64::from(shunt_raw) * u64::from(cal_reg)) / 4096;
            let power = (current * u64::from(bus_mv / 4)) / 5000;
            let overflows = current > 0xFFFF || power > 0xFFFF;

            match simulate(&calib, bus, shunt) {
                Ok(m) => {
                    assert!(!overflows);
                    assert_eq!(m.current, MicroAmpere(1_000 * i64::from(current as u16 as i16)));
                    assert_eq!(m.power, MicroWatt(20_000 * i64::from(power as u16 as i16)));
                }
                Err(MeasurementError::MathOverflow(m)) => {
                    assert!(overflows);
                    assert_eq!(m.bus_voltage, bus);
                    assert_eq!(m.shunt_voltage, shunt);
                }
                Err(_) => panic!("simulate can only fail with a math overflow"),
            }
        }
    }
}
