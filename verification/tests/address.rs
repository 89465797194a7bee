use ina219::address::{Address, Pin};
use ina219::address::Pin::{Gnd, Scl, Sda, Vcc};

#[test]
fn is_pin_reversible() {
    let mut bytes = vec![];

    for a0 in Pin::all_values() {
        for a1 in Pin::all_values() {
            let address = Address::from_pins(a0, a1);
            let (a0_, a1_) = address.as_pins();

            assert_eq!(a0, a0_);
            assert_eq!(a1, a1_);

            bytes.push(address.as_byte());
        }
    }

    bytes.sort_unstable();
    assert_eq!(bytes, (0b100_0000..=0b100_1111).collect::<Vec<u8>>());
}

#[test]
fn is_byte_reversible() {
    for byte in 0b100_0000..=0b100_1111 {
        let address = Address::from_byte(byte).unwrap();
        let byte_ = address.as_byte();

        assert_eq!(byte, byte_);
    }
}

#[test]
fn datasheet_examples() {
    let values = [
        // A1, A0, ADDRESS
        (Gnd, Gnd, 0b100_0000),
        (Gnd, Vcc, 0b100_0001),
        (Gnd, Sda, 0b100_0010),
        (Gnd, Scl, 0b100_0011),
        (Vcc, Gnd, 0b100_0100),
        (Vcc, Vcc, 0b100_0101),
        (Vcc, Sda, 0b100_0110),
        (Vcc, Scl, 0b100_0111),
        (Sda, Gnd, 0b100_1000),
        (Sda, Vcc, 0b100_1001),
        (Sda, Sda, 0b100_1010),
        (Sda, Scl, 0b100_1011),
        (Scl, Gnd, 0b100_1100),
        (Scl, Vcc, 0b100_1101),
        (Scl, Sda, 0b100_1110),
        (Scl, Scl, 0b100_1111),
    ];

    for (a1, a0, byte) in values.iter().copied() {
        let address = Address::from_pins(a0, a1);
        assert_eq!(address.as_byte(), byte);

        let (a0_, a1_) = Address::from_byte(byte).unwrap().as_pins();
        assert_eq!(a0, a0_);
        assert_eq!(a1, a1_);
    }
}

#[test]
fn out_of_window_bytes_are_rejected() {
    assert!(Address::from_byte(42).is_err());
    assert!(Address::from_byte(0x3F).is_err());
    assert!(Address::from_byte(0x50).is_err());
    assert_eq!(Address::from_byte(0).unwrap_err().which(), 0);
    assert_eq!(Address::from_byte(0xFF).unwrap_err().which(), 0xFF);
}

#[test]
fn default_address_is_0x40() {
    assert_eq!(Address::default().as_byte(), 0x40);
    assert_eq!(Address::default().as_pins(), (Pin::Gnd, Pin::Gnd));
}
