use ina219::calibration::{Calibration, IntCalibration, MicroAmpere};
use ina219::measurements::{BusVoltage, BusVoltageRegister, CurrentRegister, ShuntVoltage};

#[test]
fn shunt_voltage() {
    // Samples from table 7 of the datasheet
    let targets = [
        (
            ShuntVoltage::from_bits(0).unwrap(),
            0, // 10µV
            0, // µV
            0, // mV
        ),
        (
            ShuntVoltage::from_bits(0b0111_1100_1111_1111).unwrap(),
            31999,   // 10µV
            319_990, // µV
            319,     // mV
        ),
        (
            ShuntVoltage::from_bits(0b1111_0000_0101_1111).unwrap(),
            -4001,  // 10µV
            -40010, // µV
            -40,    // mV
        ),
        (
            ShuntVoltage::from_bits(0b1000_0011_0000_0000).unwrap(),
            -32000,   // 10µV
            -320_000, // µV
            -320,     // mV
        ),
    ];
    for (sv, tuv, uv, mv) in targets {
        assert_eq!(sv.shunt_voltage_10uv(), tuv);
        assert_eq!(sv.shunt_voltage_uv(), uv);
        assert_eq!(sv.shunt_voltage_mv(), mv);
    }

    assert!(ShuntVoltage::from_bits(32001).is_none());

    // -320.01 mV
    assert!(ShuntVoltage::from_bits(u16::from_ne_bytes(i16::to_ne_bytes(-32001))).is_none());
}

#[test]
fn shunt_from_value() {
    for x in [i16::MIN, -2, 1, 0, 1, 2, 42, i16::MAX] {
        let mul_10 = x / 10;
        assert_eq!(
            ShuntVoltage::from_10uv(mul_10).shunt_voltage_uv(),
            i32::from(mul_10) * 10
        );
    }
}

#[test]
fn bus_voltage() {
    let bv = BusVoltage::from_bits_unchecked(BusVoltageRegister(0x1f40 << 3));
    assert_eq!(bv.voltage_mv(), 32_000);
    assert!(!bv.is_conversion_ready());
    assert!(!bv.has_math_overflowed());

    let bv = BusVoltage::from_bits_unchecked(BusVoltageRegister(((0x1f40 / 2) << 3) | 0b11));
    assert_eq!(bv.voltage_mv(), 16_000);
    assert!(bv.is_conversion_ready());
    assert!(bv.has_math_overflowed());
}

#[test]
fn bus_from_value() {
    for x in [0, 4, 8, 42, 32_000] {
        let mul_4 = x & !0b11;
        assert_eq!(BusVoltage::from_mv(mul_4).voltage_mv(), mul_4);
    }
}

#[test]
fn current() {
    let calib = IntCalibration::new(MicroAmpere(1), 1_000_000).unwrap();

    let c = calib.current_from_register(CurrentRegister(0xFFFF));
    assert_eq!(c.0, -1);

    let c = calib.current_from_register(CurrentRegister(1));
    assert_eq!(c.0, 1);

    let calib = IntCalibration::new(MicroAmpere(i64::from(u32::MAX)), 1).unwrap();
    let c = calib.current_from_register(CurrentRegister(i16::MAX as u16));
    assert_eq!(c.0, i64::from(i16::MAX) * i64::from(u32::MAX));
}
