use ina219::address::Address;
use ina219::bus::I2cBus;
use ina219::calibration::{IntCalibration, MicroAmpere, UnCalibrated};
use ina219::configuration::{BusVoltageRange, Configuration, ShuntVoltageRange};
use ina219::errors::{BusVoltageReadError, MeasurementError, ShuntVoltageReadError};
use ina219::measurements::Measurements;
use ina219::errors::InitializationErrorReason;
use ina219::ina219::{Opts, INA219 as PowerMonitorIna};
use ina219::register::RegisterName;
use ina219::register::RegisterName::{BusVoltage, Calibration, Configuration as ConfigurationReg, Current, Power, ShuntVoltage as ShuntVoltageReg};
use ina219::INA219;

const DEV_ADDR: u8 = 0x40;

/// One bus interaction the device under test is expected to perform.
#[derive(Debug, Clone, PartialEq, Eq)]
enum Expect {
    /// A plain write of these bytes
    Write(u8, Vec<u8>),
    /// A write of these bytes answered with two bytes
    WriteRead(u8, Vec<u8>, [u8; 2]),
}

/// The error a mismatching expectation surfaces as.
#[derive(Debug, Clone, Copy, PartialEq, Eq)]
struct MockError;

/// A scripted bus: replays a list of expected interactions and panics on any
/// deviation. A transaction is checked against one `WriteRead` entry per
/// register, the way the grouped reads appear on the wire.
#[derive(Debug)]
struct I2cMock {
    expected: Vec<Expect>,
    position: usize,
}

impl I2cMock {
    fn new(expected: &[Expect]) -> Self {
        I2cMock { expected: expected.to_vec(), position: 0 }
    }

    fn next_expectation(&mut self) -> Expect {
        assert!(
            self.position < self.expected.len(),
            "unexpected bus traffic after {} interactions",
            self.position
        );
        let e = self.expected[self.position].clone();
        self.position += 1;
        e
    }

    fn done(self) {
        assert_eq!(self.position, self.expected.len(), "expected bus traffic did not happen");
    }
}

impl I2cBus for I2cMock {
    type Error = MockError;

    fn write(&mut self, addr: u8, bytes: &[u8]) -> Result<(), MockError> {
        match self.next_expectation() {
            Expect::Write(a, b) => {
                assert_eq!((a, &b[..]), (addr, bytes), "unexpected write");
                Ok(())
            }
            other => panic!("expected {other:?}, device wrote {bytes:?}"),
        }
    }

    fn write_read(&mut self, addr: u8, bytes: &[u8]) -> Result<[u8; 2], MockError> {
        match self.next_expectation() {
            Expect::WriteRead(a, b, reply) => {
                assert_eq!((a, &b[..]), (addr, bytes), "unexpected write-read");
                Ok(reply)
            }
            other => panic!("expected {other:?}, device wrote-read {bytes:?}"),
        }
    }

    fn transaction(&mut self, addr: u8, regs: &[u8]) -> Result<Vec<[u8; 2]>, MockError> {
        let mut replies = Vec::new();
        for reg in regs {
            match self.next_expectation() {
                Expect::WriteRead(a, b, reply) => {
                    assert_eq!((a, &b[..]), (addr, &[*reg][..]), "unexpected transaction read");
                    replies.push(reply);
                }
                other => panic!("expected {other:?}, device asked for register {reg}"),
            }
        }
        Ok(replies)
    }
}

/// Create the expected interaction for a register read
fn read_reg(reg: RegisterName, value: u16) -> Expect {
    Expect::WriteRead(DEV_ADDR, vec![reg.address()], [(value >> 8) as u8, (value & 0xFF) as u8])
}

/// Create the expected interaction for a register write
fn write_reg(reg: RegisterName, value: u16) -> Expect {
    Expect::Write(DEV_ADDR, vec![reg.address(), (value >> 8) as u8, value as u8])
}

/// Create all expected interactions for the initialization sequence
fn init_transactions() -> Vec<Expect> {
    vec![
        // Write the default configuration, and read back to check it was set
        write_reg(ConfigurationReg, 0b1011_1001_1001_1111),
        read_reg(ConfigurationReg, 0b0011_1001_1001_1111),
        // Check that calibration, current and power are all zero, since we
        // performed a reset
        read_reg(Calibration, 0),
        read_reg(Current, 0),
        read_reg(Power, 0),
        // Check that shunt voltage and bus voltage are in the expected range
        read_reg(ShuntVoltageReg, 0),
        read_reg(BusVoltage, 0),
    ]
}

/// Create an uncalibrated `INA219` that will react with the given
/// interactions to a test
fn mock_uncal(transactions: &[Expect]) -> INA219<I2cMock, UnCalibrated> {
    let mut all_transactions = init_transactions();
    all_transactions.extend_from_slice(transactions);
    let mock = I2cMock::new(&all_transactions);

    INA219::new(mock, Address::default()).unwrap()
}

/// Create a calibrated `INA219` that will react with the given interactions
/// to a test
fn mock_cal(transactions: &[Expect]) -> INA219<I2cMock, IntCalibration> {
    let mut all_transactions = init_transactions();
    all_transactions.push(write_reg(RegisterName::Calibration, 409 & !1));
    all_transactions.extend_from_slice(transactions);
    let mock = I2cMock::new(&all_transactions);

    INA219::new_calibrated(
        mock,
        Address::default(),
        IntCalibration::new(MicroAmpere(100), 1_000_000).unwrap(),
    )
    .unwrap()
}

/// Calculate the value for the bus voltage register without the flags
const fn bus_voltage(milli_volts: u16) -> u16 {
    (milli_volts / 4) << 3
}

const CONVERSION_READY: u16 = 0b10;
const MATH_OVERFLOW: u16 = 0b01;

#[test]
fn initialization() {
    let ina = mock_uncal(&[]);
    ina.destroy().done();
}

#[test]
fn initialization_cal() {
    let ina = mock_cal(&[]);
    ina.destroy().done();
}

#[test]
fn read_measurements() {
    let mut ina = mock_uncal(&[
        // Should first read the bus voltage and see that the "Conversion
        // Ready" flag is set
        read_reg(RegisterName::BusVoltage, bus_voltage(16_000) | CONVERSION_READY),
        // Should then read the power register to clear the "Conversion
        // Ready" flag
        read_reg(RegisterName::Power, 0),
        // Since there is a new "Conversion Ready" the driver should read the
        // shunt voltage
        read_reg(RegisterName::ShuntVoltage, 0b0001_1111_0100_0000), // Borrowed from datasheet table
    ]);

    let m = ina
        .next_measurement()
        .expect("No errors occur")
        .expect("There IS a new measurement");

    assert_eq!(m.shunt_voltage.shunt_voltage_mv(), 80);
    assert_eq!(m.bus_voltage.voltage_mv(), 16_000);

    ina.destroy().done();
}

#[test]
fn read_measurements_with_cal() {
    let mut ina = mock_cal(&[
        read_reg(RegisterName::BusVoltage, bus_voltage(16_000) | CONVERSION_READY),
        read_reg(RegisterName::Power, 636),
        read_reg(RegisterName::ShuntVoltage, 0b0001_1111_0100_0000),
        // Additionally to `read_measurements` now the current register
        // should also be read
        read_reg(RegisterName::Current, 796),
    ]);

    let m = ina
        .next_measurement()
        .expect("No errors")
        .expect("There IS a new measurement");
    assert_eq!(m.shunt_voltage.shunt_voltage_mv(), 80);
    assert_eq!(m.bus_voltage.voltage_mv(), 16_000);

    // These should be 80mA and 1280mW, but because of the slight error in
    // the calibration they come out slightly different.
    assert_eq!(m.current.0, 79_600);
    assert_eq!(m.power.0, 1_272_000);

    ina.destroy().done();
}

#[test]
fn math_overflow() {
    let mut ina = mock_cal(&[
        read_reg(
            RegisterName::BusVoltage,
            bus_voltage(16_000) | CONVERSION_READY | MATH_OVERFLOW,
        ),
        read_reg(RegisterName::Power, 636),
        read_reg(RegisterName::ShuntVoltage, 0b0001_1111_0100_0000),
        read_reg(RegisterName::Current, 796),
    ]);

    let err = ina
        .next_measurement()
        .expect_err("The math overflow bit is set so this should return an error");
    match err {
        MeasurementError::MathOverflow(Measurements {
            bus_voltage,
            shunt_voltage,
            ..
        }) => {
            // The error still should contain the values for the unaffected
            // registers
            assert_eq!(bus_voltage.voltage_mv(), 16_000);
            assert_eq!(shunt_voltage.shunt_voltage_mv(), 80);
        }
        _ => panic!("Unexpected error: {err:?}"),
    }

    ina.destroy().done();
}

#[test]
fn no_new_data_yields_none() {
    // conversion ready flag clear: no new data, and no further register is
    // interpreted
    let mut ina = mock_uncal(&[
        read_reg(RegisterName::BusVoltage, bus_voltage(16_000)),
        read_reg(RegisterName::Power, 0),
        read_reg(RegisterName::ShuntVoltage, 0),
    ]);

    let m = ina.next_measurement().expect("No errors occur");
    assert!(m.is_none());

    ina.destroy().done();
}

#[test]
fn bus_out_of_range_values() {
    let mut ina = mock_cal(&[
        // Should only read the bus voltage register
        read_reg(RegisterName::BusVoltage, bus_voltage(32_004) | CONVERSION_READY),
    ]);

    match ina.bus_voltage().unwrap_err() {
        BusVoltageReadError::BusVoltageOutOfRange { should, is } => {
            assert_eq!(is.voltage_mv(), 32_004);
            assert_eq!(should, BusVoltageRange::Fsr32v);
        }
        e @ BusVoltageReadError::I2cError(_) => panic!("Unexpected error:{e:?}"),
    }

    ina.destroy().done();
}

#[test]
fn shunt_out_of_range_values() {
    let mut ina = mock_cal(&[
        // Should only read the shunt voltage register
        read_reg(RegisterName::ShuntVoltage, 32_001),
    ]);

    match ina.shunt_voltage().unwrap_err() {
        ShuntVoltageReadError::ShuntVoltageOutOfRange { should, is } => {
            assert_eq!(is.shunt_voltage_mv(), 320);
            assert_eq!(should, ShuntVoltageRange::Fsr320mv);
        }
        e @ ShuntVoltageReadError::I2cError(_) => panic!("Unexpected error: {e:?}"),
    }

    ina.destroy().done();
}

#[test]
fn configuration_reads_back_what_was_set() {
    let mut conf = Configuration::default();
    conf.bus_voltage_range = BusVoltageRange::Fsr16v;
    conf.shunt_voltage_range = ShuntVoltageRange::Fsr40mv;
    let bits = conf.as_bits();

    let mut ina = mock_uncal(&[
        write_reg(RegisterName::Configuration, bits),
        read_reg(RegisterName::Configuration, bits),
    ]);

    ina.set_configuration(conf).unwrap();
    assert_eq!(ina.configuration().unwrap(), conf);

    ina.destroy().done();
}

#[test]
fn configuration_mismatch_is_reported_and_cache_updated() {
    let written = Configuration::default();
    let on_device = Configuration::from_bits(0x1FFF);
    assert_ne!(written, on_device);

    let mut ina = mock_uncal(&[
        read_reg(RegisterName::Configuration, 0x1FFF),
        read_reg(RegisterName::Configuration, 0x1FFF),
    ]);

    // the cache still holds the default written during initialization
    match ina.configuration() {
        Err(ina219::errors::ConfigurationReadError::ConfigurationMismatch { read, saved }) => {
            assert_eq!(read, on_device);
            assert_eq!(saved, written);
        }
        other => panic!("expected a mismatch, got {other:?}"),
    }

    // the cache was updated to the read value, so a retry succeeds
    assert_eq!(ina.configuration().unwrap(), on_device);

    ina.destroy().done();
}

#[test]
fn trigger_rewrites_the_cached_configuration() {
    let bits = Configuration::default().as_bits();
    let mut ina = mock_uncal(&[write_reg(RegisterName::Configuration, bits)]);

    ina.trigger().unwrap();

    ina.destroy().done();
}

#[test]
fn calibrate_writes_the_new_register_value() {
    let mut ina = mock_cal(&[write_reg(RegisterName::Calibration, 40)]);

    ina.calibrate(IntCalibration::new(MicroAmpere(1_000), 1_000_000).unwrap())
        .unwrap();

    ina.destroy().done();
}

#[test]
fn power_and_current_raw_read_their_registers() {
    let mut ina = mock_cal(&[
        read_reg(RegisterName::Power, 636),
        read_reg(RegisterName::Current, 796),
    ]);

    assert_eq!(ina.power_raw().unwrap().0, 636);
    assert_eq!(ina.current_raw().unwrap().0, 796);

    ina.destroy().done();
}

#[test]
fn initialization_fails_when_configuration_stays_off_default() {
    // the device never reports the default configuration: one write and
    // twelve polls, then the driver gives up
    let mut transactions = vec![write_reg(RegisterName::Configuration, 0b1011_1001_1001_1111)];
    for _ in 0..12 {
        transactions.push(read_reg(RegisterName::Configuration, 0));
    }

    let mock = I2cMock::new(&transactions);
    let err = INA219::new(mock, Address::default()).unwrap_err();
    assert!(matches!(
        err.reason,
        InitializationErrorReason::ConfigurationNotDefaultAfterReset
    ));
    err.device.done();
}

#[test]
fn initialization_fails_when_calibration_is_not_zero() {
    let transactions = vec![
        write_reg(RegisterName::Configuration, 0b1011_1001_1001_1111),
        read_reg(RegisterName::Configuration, 0b0011_1001_1001_1111),
        read_reg(RegisterName::Calibration, 42),
    ];

    let mock = I2cMock::new(&transactions);
    let err = INA219::new(mock, Address::default()).unwrap_err();
    assert!(matches!(
        err.reason,
        InitializationErrorReason::RegisterNotZeroAfterReset(RegisterName::Calibration)
    ));
    err.device.done();
}

/// A bus that fails every operation.
#[derive(Debug)]
struct BrokenBus;

impl I2cBus for BrokenBus {
    type Error = MockError;

    fn write(&mut self, _addr: u8, _bytes: &[u8]) -> Result<(), MockError> {
        Err(MockError)
    }

    fn write_read(&mut self, _addr: u8, _bytes: &[u8]) -> Result<[u8; 2], MockError> {
        Err(MockError)
    }

    fn transaction(&mut self, _addr: u8, _regs: &[u8]) -> Result<Vec<[u8; 2]>, MockError> {
        Err(MockError)
    }
}

#[test]
fn transport_errors_surface_unchanged() {
    let err = INA219::new(BrokenBus, Address::default()).unwrap_err();
    assert!(matches!(err.reason, InitializationErrorReason::I2cError(MockError)));

    let mut ina = INA219::new_unchecked(BrokenBus, Address::default(), UnCalibrated);
    assert!(matches!(ina.set_configuration(Configuration::default()), Err(MockError)));
    assert!(matches!(
        ina.configuration(),
        Err(ina219::errors::ConfigurationReadError::I2cError(MockError))
    ));
    assert!(matches!(
        ina.shunt_voltage(),
        Err(ShuntVoltageReadError::I2cError(MockError))
    ));
    assert!(matches!(
        ina.bus_voltage(),
        Err(BusVoltageReadError::I2cError(MockError))
    ));
    assert!(matches!(
        ina.next_measurement(),
        Err(MeasurementError::I2cError(MockError))
    ));
    assert!(matches!(ina.power_raw(), Err(MockError)));
    assert!(matches!(ina.current_raw(), Err(MockError)));
    assert!(matches!(ina.trigger(), Err(MockError)));
    assert!(matches!(
        ina.calibrate(UnCalibrated),
        Err(MockError)
    ));
}

#[test]
fn power_monitor_initializes_and_formats_readings() {
    // calibration register then configuration, as init performs them
    let mock = I2cMock::new(&[
        Expect::Write(0x42, vec![5, 52, 110]),
        Expect::Write(0x42, vec![0, 0x1F, 0xFF]),
    ]);
    let mut ina = PowerMonitorIna::new(mock, Opts::default());
    ina.init().unwrap();

    // every reading recalibrates first, then reads its register
    let mock = I2cMock::new(&[
        Expect::Write(0x42, vec![5, 52, 110]),
        Expect::WriteRead(0x42, vec![2], [0x1F, 0x48]), // 4004 mV
    ]);
    let mut ina = PowerMonitorIna::new(mock, Opts::default());
    assert_eq!(ina.voltage().unwrap(), "4.004V");

    let mock = I2cMock::new(&[
        Expect::Write(0x42, vec![5, 52, 110]),
        Expect::WriteRead(0x42, vec![2], [0x1F, 0x48]),
    ]);
    let mut ina = PowerMonitorIna::new(mock, Opts::default());
    assert_eq!(ina.voltage_raw().unwrap(), 4004);

    let mock = I2cMock::new(&[
        Expect::Write(0x42, vec![5, 52, 110]),
        Expect::WriteRead(0x42, vec![1], [0x0F, 0xA0]), // 4000 * 10µV = 4mV
    ]);
    let mut ina = PowerMonitorIna::new(mock, Opts::default());
    assert_eq!(ina.shunt_voltage().unwrap(), "4mV");

    let mock = I2cMock::new(&[
        Expect::Write(0x42, vec![5, 52, 110]),
        Expect::WriteRead(0x42, vec![4], [0x00, 0x64]), // 100 mA
    ]);
    let mut ina = PowerMonitorIna::new(mock, Opts::default());
    assert_eq!(ina.current().unwrap(), "100mA");

    let mock = I2cMock::new(&[
        Expect::Write(0x42, vec![5, 52, 110]),
        Expect::WriteRead(0x42, vec![3], [0x00, 0x64]), // 100 mW
    ]);
    let mut ina = PowerMonitorIna::new(mock, Opts::default());
    assert_eq!(ina.power().unwrap(), "100mW");
}
