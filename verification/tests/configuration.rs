use ina219::configuration::{
    BusVoltageRange, Configuration, MeasuredSignals, OperatingMode, Reset, Resolution,
    ShuntVoltageRange,
};

#[test]
fn default_matches_datasheet() {
    let reset_value = 0b0011_1001_1001_1111;

    assert_eq!(Configuration::default().as_bits(), reset_value);
    assert_eq!(Configuration::from_bits(reset_value), Configuration::default());
}

#[test]
fn is_inverse() {
    // We can not directly check if the same bit pattern is created because
    // some patterns (like the 12 bit resolution) have redundant
    // representations... So we first turn the bits into a full description
    // and then test if we can invert it
    for val in 0..=u16::MAX {
        let register = Configuration::from_bits(val);
        let bits_cleaned = register.as_bits();
        assert_eq!(register, Configuration::from_bits(bits_cleaned));

        if register.shunt_resolution != Resolution::Res12Bit
            && register.bus_resolution != Resolution::Res12Bit
        {
            // Ignore both ADC3 bits and the unused bits as they are
            // (sometimes) don't care
            let bits_to_ignore = 0b0100_0010_0010_0000;

            assert_eq!(val | bits_to_ignore, bits_cleaned | bits_to_ignore);
        }
    }
}

#[test]
fn default_fields_match_datasheet() {
    let conf = Configuration::default();
    assert_eq!(conf.reset, Reset::Run);
    assert_eq!(conf.bus_voltage_range, BusVoltageRange::Fsr32v);
    assert_eq!(conf.shunt_voltage_range, ShuntVoltageRange::Fsr320mv);
    assert_eq!(conf.bus_resolution, Resolution::Res12Bit);
    assert_eq!(conf.shunt_resolution, Resolution::Res12Bit);
    assert_eq!(
        conf.operating_mode,
        OperatingMode::Continous(MeasuredSignals::ShutAndBusVoltage)
    );
}

#[test]
fn conversion_times_match_datasheet() {
    let table = [
        (Resolution::Res9Bit, 84),
        (Resolution::Res10Bit, 148),
        (Resolution::Res11Bit, 276),
        (Resolution::Res12Bit, 532),
        (Resolution::Avg2, 1_060),
        (Resolution::Avg4, 2_130),
        (Resolution::Avg8, 4_260),
        (Resolution::Avg16, 8_510),
        (Resolution::Avg32, 17_020),
        (Resolution::Avg64, 34_050),
        (Resolution::Avg128, 68_100),
    ];
    for (resolution, us) in table {
        assert_eq!(resolution.conversion_time_us(), us);
    }
}

#[test]
fn conversion_time_follows_operating_mode() {
    let mut conf = Configuration::default();
    conf.bus_resolution = Resolution::Avg128;
    conf.shunt_resolution = Resolution::Res9Bit;

    // both signals: the slower one dominates
    assert_eq!(conf.conversion_time_us(), Some(68_100));

    conf.operating_mode = OperatingMode::Triggered(MeasuredSignals::ShuntVoltage);
    assert_eq!(conf.conversion_time_us(), Some(84));

    conf.operating_mode = OperatingMode::Continous(MeasuredSignals::BusVoltage);
    assert_eq!(conf.conversion_time_us(), Some(68_100));

    conf.operating_mode = OperatingMode::PowerDown;
    assert_eq!(conf.conversion_time_us(), None);

    conf.operating_mode = OperatingMode::AdcOff;
    assert_eq!(conf.conversion_time_us(), None);
}

#[test]
fn operating_mode_bits_match_datasheet() {
    assert_eq!(OperatingMode::PowerDown.as_bits(), 0b000);
    assert_eq!(OperatingMode::AdcOff.as_bits(), 0b100);
    assert_eq!(OperatingMode::Triggered(MeasuredSignals::ShuntVoltage).as_bits(), 0b001);
    assert_eq!(OperatingMode::Triggered(MeasuredSignals::BusVoltage).as_bits(), 0b010);
    assert_eq!(OperatingMode::Triggered(MeasuredSignals::ShutAndBusVoltage).as_bits(), 0b011);
    assert_eq!(OperatingMode::Continous(MeasuredSignals::ShuntVoltage).as_bits(), 0b101);
    assert_eq!(OperatingMode::Continous(MeasuredSignals::BusVoltage).as_bits(), 0b110);
    assert_eq!(OperatingMode::Continous(MeasuredSignals::ShutAndBusVoltage).as_bits(), 0b111);
}
