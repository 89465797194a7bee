use ina219::physic::{nanoAsString, prefixZeros};
use ina219::physic::{Ampere, MicroAmpere, MilliOhm, MilliVolt, NanoAmpere, Ohm, Volt, Watt};

#[test]
fn unit_constants_chain_by_thousands() {
    assert_eq!(NanoAmpere, 1);
    assert_eq!(MicroAmpere, 1_000);
    assert_eq!(Ampere, 1_000_000_000);
    assert_eq!(MilliVolt, 1_000_000);
    assert_eq!(Volt, 1_000_000_000);
    assert_eq!(MilliOhm, 1_000_000);
    assert_eq!(Ohm, 1_000_000_000);
    assert_eq!(Watt, 1_000_000_000);
}

#[test]
fn nano_as_string_picks_the_prefix_by_magnitude() {
    assert_eq!(nanoAsString(0), "0");
    assert_eq!(nanoAsString(1), "1n");
    assert_eq!(nanoAsString(999), "999n");
    assert_eq!(nanoAsString(1_000), "1µ");
    assert_eq!(nanoAsString(1_500), "1.500µ");
    assert_eq!(nanoAsString(999_999), "999.999µ");
    assert_eq!(nanoAsString(1_000_000), "1m");
    assert_eq!(nanoAsString(1_500_000), "1.500m");
    assert_eq!(nanoAsString(100_000_000), "100m");
    assert_eq!(nanoAsString(1_000_000_000), "1");
    assert_eq!(nanoAsString(4_004_000_000), "4.004");
    assert_eq!(nanoAsString(1_234_567_890), "1.235");
}

#[test]
fn nano_as_string_rounds_half_up_at_the_prefix_border() {
    // just below the threshold the value stays at the smaller prefix
    assert_eq!(nanoAsString(999_999_500), "999.999m");
    // at the threshold it is rounded up into the next prefix
    assert_eq!(nanoAsString(999_999_501), "1");
}

#[test]
fn nano_as_string_keeps_the_sign() {
    assert_eq!(nanoAsString(-1_500), "-1.500µ");
    assert_eq!(nanoAsString(i64::MAX), "9.223G");
    assert_eq!(nanoAsString(i64::MIN), "-9.223G");
}

#[test]
fn prefix_zeros_pads_on_the_left() {
    assert_eq!(prefixZeros(3, 42), "042");
    assert_eq!(prefixZeros(3, 7), "007");
    assert_eq!(prefixZeros(3, 123), "123");
    assert_eq!(prefixZeros(3, 1234), "1234");
    assert_eq!(prefixZeros(0, 7), "7");
    assert_eq!(prefixZeros(5, -42), "00-42");
}
