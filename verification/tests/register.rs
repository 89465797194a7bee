use ina219::calibration::UnCalibrated;
use ina219::configuration::Configuration;
use ina219::measurements::{
    BusVoltageRegister, CurrentRegister, PowerRegister, ShuntVoltageRegister,
};
use ina219::register::{Register, RegisterName};

#[test]
fn register_names_match() {
    assert_eq!(
        RegisterName::Configuration.address(),
        <Configuration as Register>::register_name().address()
    );
    assert_eq!(
        RegisterName::ShuntVoltage.address(),
        <ShuntVoltageRegister as Register>::register_name().address()
    );
    assert_eq!(
        RegisterName::BusVoltage.address(),
        <BusVoltageRegister as Register>::register_name().address()
    );
    assert_eq!(
        RegisterName::Power.address(),
        <PowerRegister as Register>::register_name().address()
    );
    assert_eq!(
        RegisterName::Current.address(),
        <CurrentRegister as Register>::register_name().address()
    );
    assert_eq!(
        RegisterName::Calibration.address(),
        <UnCalibrated as Register>::register_name().address()
    );
}

#[test]
fn register_addresses_match_datasheet() {
    assert_eq!(RegisterName::Configuration.address(), 0x00);
    assert_eq!(RegisterName::ShuntVoltage.address(), 0x01);
    assert_eq!(RegisterName::BusVoltage.address(), 0x02);
    assert_eq!(RegisterName::Power.address(), 0x03);
    assert_eq!(RegisterName::Current.address(), 0x04);
    assert_eq!(RegisterName::Calibration.address(), 0x05);
}
