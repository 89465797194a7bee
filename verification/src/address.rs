//! I2C address of the INA219 on the bus.
//!
//! The address is set by wiring the pins A0 and A1 to one of four signals.
//! It can equally be given as a raw byte, which must lie in the window
//! 0x40..=0x4F reserved for the chip.

use vstd::prelude::*;

verus! {

/// Names of the signal an address pin is connected to.
///
/// The values match the bits used for addressing the INA219.
#[derive(Debug, Copy, Clone, Eq, PartialEq, Structural)]
pub enum Pin {
    /// The pin is connected to GND
    Gnd,
    /// The pin is connected to Vcc
    Vcc,
    /// The pin is connected to SDA
    Sda,
    /// The pin is connected to SCL
    Scl,
}

impl Pin {
    /// The two address bits contributed by wiring a pin to this signal.
    pub open spec fn spec_byte(self) -> u8 {
        match self {
            Pin::Gnd => 0,
            Pin::Vcc => 1,
            Pin::Sda => 2,
            Pin::Scl => 3,
        }
    }

    /// The pin selected by the two lowest bits of a byte.
    pub open spec fn spec_from_lowest_bits(byte: u8) -> Pin {
        if byte & 0b11 == 0 {
            Pin::Gnd
        } else if byte & 0b11 == 1 {
            Pin::Vcc
        } else if byte & 0b11 == 2 {
            Pin::Sda
        } else {
            Pin::Scl
        }
    }

    /// Get the value of the two lowest bits represented by connecting an
    /// address pin to this signal.
    pub fn as_byte(self) -> (r: u8)
        ensures
            r == self.spec_byte(),
    {
        match self {
            Pin::Gnd => 0,
            Pin::Vcc => 1,
            Pin::Sda => 2,
            Pin::Scl => 3,
        }
    }

    fn from_lowest_bits(byte: u8) -> (r: Self)
        ensures
            r == Self::spec_from_lowest_bits(byte),
    {
        let bits = byte & 0b11;
        if bits == 0 {
            Pin::Gnd
        } else if bits == 1 {
            Pin::Vcc
        } else if bits == 2 {
            Pin::Sda
        } else {
            Pin::Scl
        }
    }

    /// All four pin signals, for exhaustive sweeps.
    pub fn all_values() -> (r: [Self; 4])
        ensures
            r@ == seq![Pin::Gnd, Pin::Vcc, Pin::Sda, Pin::Scl],
    {
        let r = [Pin::Gnd, Pin::Vcc, Pin::Sda, Pin::Scl];
        proof {
            assert(r@ =~= seq![Pin::Gnd, Pin::Vcc, Pin::Sda, Pin::Scl]);
        }
        r
    }
}

/// Lowest byte of the valid address window.
pub const MIN_ADDRESS: u8 = 0x40;

/// Highest byte of the valid address window.
pub const MAX_ADDRESS: u8 = 0x4F;

/// I2C address of the INA219 on the bus.
///
/// Always lies in the window `MIN_ADDRESS..=MAX_ADDRESS`: bit 7 is 0 and bits
/// 6-4 are 0b100.
#[derive(Debug, Copy, Clone, Eq, PartialEq, Structural)]
pub struct Address {
    byte: u8,
}

impl Address {
    /// The whole address byte.
    pub closed spec fn spec_byte(self) -> u8 {
        self.byte
    }

    /// The address constructed from the signals wired to the pins A0 and A1.
    pub closed spec fn spec_from_pins(a0: Pin, a1: Pin) -> Address {
        Address { byte: (0b100_0000 as u8) | a0.spec_byte() | (a1.spec_byte() << 2) }
    }

    /// What `from_byte` returns for a given byte.
    pub closed spec fn spec_from_byte(byte: u8) -> Result<Address, OutOfRange> {
        if Self::spec_in_range(byte) {
            Ok(Address { byte })
        } else {
            Err(OutOfRange { which: byte })
        }
    }

    /// The pins (A0, A1) encoded in the low four bits of the address.
    pub open spec fn spec_pins(self) -> (Pin, Pin) {
        (
            Pin::spec_from_lowest_bits(self.spec_byte()),
            Pin::spec_from_lowest_bits(self.spec_byte() >> 2),
        )
    }

    /// Whether a byte lies in the window the INA219 can be addressed at.
    pub open spec fn spec_in_range(byte: u8) -> bool {
        MIN_ADDRESS <= byte <= MAX_ADDRESS
    }

    #[verifier::type_invariant]
    spec fn wf(self) -> bool {
        Self::spec_in_range(self.byte)
    }

    /// Create an address from the two pins A0 and A1.
    pub fn from_pins(a0: Pin, a1: Pin) -> (r: Self)
        ensures
            r == Self::spec_from_pins(a0, a1),
            r.spec_byte() == (0b100_0000 as u8) | a0.spec_byte() | (a1.spec_byte() << 2),
    {
        let b0 = a0.as_byte();
        let b1 = a1.as_byte();
        let byte: u8 = 0b100_0000 | b0 | (b1 << 2);
        proof {
            assert(b0 < 4 && b1 < 4 ==> Self::spec_in_range((0b100_0000 as u8) | b0 | (b1 << 2)))
                by (bit_vector);
        }
        Self { byte }
    }

    /// Create an address from a byte.
    ///
    /// Fails exactly when the byte lies outside the window 0x40..=0x4F.
    pub fn from_byte(byte: u8) -> (r: Result<Self, OutOfRange>)
        ensures
            r == Self::spec_from_byte(byte),
            Self::spec_in_range(byte) ==> (r matches Ok(a) && a.spec_byte() == byte),
            !Self::spec_in_range(byte) ==> (r matches Err(e) && e.spec_which() == byte),
    {
        if MIN_ADDRESS <= byte && byte <= MAX_ADDRESS {
            Ok(Self { byte })
        } else {
            Err(OutOfRange { which: byte })
        }
    }

    /// Get the address as a byte.
    pub fn as_byte(self) -> (r: u8)
        ensures
            r == self.spec_byte(),
            Self::spec_in_range(r),
    {
        proof {
            use_type_invariant(self);
        }
        self.byte
    }

    /// Get the address as the two pins (A0, A1).
    pub fn as_pins(self) -> (r: (Pin, Pin))
        ensures
            r == self.spec_pins(),
    {
        (Pin::from_lowest_bits(self.byte), Pin::from_lowest_bits(self.byte >> 2))
    }
}

impl Default for Address {
    /// The address with both pins wired to GND: 0x40.
    fn default() -> (r: Self)
        ensures
            r == Address::spec_from_pins(Pin::Gnd, Pin::Gnd),
            r.spec_byte() == 0x40,
    {
        let r = Self::from_pins(Pin::Gnd, Pin::Gnd);
        proof {
            assert(((0b100_0000 as u8) | 0 | ((0 as u8) << 2)) == 0x40) by (bit_vector);
        }
        r
    }
}

/// The given byte was not in the window an INA219 can be addressed at.
#[derive(Debug, Copy, Clone, Eq, PartialEq, Structural)]
pub struct OutOfRange {
    which: u8,
}

impl OutOfRange {
    /// The rejected byte.
    pub closed spec fn spec_which(self) -> u8 {
        self.which
    }

    /// The byte that was rejected.
    pub fn which(self) -> (r: u8)
        ensures
            r == self.spec_which(),
    {
        self.which
    }
}

/// Building an address from two pins and reading the pins back returns the
/// same pins, for every pair of pin signals.
pub proof fn lemma_pins_roundtrip(a0: Pin, a1: Pin)
    ensures
        Address::spec_from_pins(a0, a1).spec_pins() == (a0, a1),
{
    let b0 = a0.spec_byte();
    let b1 = a1.spec_byte();
    let byte = Address::spec_from_pins(a0, a1).spec_byte();
    assert(b0 < 4 && b1 < 4 ==> {
        let w = (0b100_0000 as u8) | b0 | (b1 << 2);
        (w & 0b11) == b0 && ((w >> 2) & 0b11) == b1
    }) by (bit_vector);
    assert(Pin::spec_from_lowest_bits(byte) == a0);
    assert(Pin::spec_from_lowest_bits(byte >> 2) == a1);
}

/// Every byte in the valid window round-trips through `from_byte` and
/// `as_byte`; every byte outside it is rejected, carrying the byte.
pub proof fn lemma_byte_roundtrip(byte: u8)
    ensures
        Address::spec_in_range(byte) <==> Address::spec_from_byte(byte) is Ok,
        Address::spec_in_range(byte) ==> Address::spec_from_byte(byte)->Ok_0.spec_byte() == byte,
        !Address::spec_in_range(byte) ==> Address::spec_from_byte(byte)->Err_0.spec_which() == byte,
{
}

} // verus!
