//! The I2C transport capability the driver is written against.
//!
//! The driver owns one value of a type implementing [`I2cBus`] and issues all
//! its bus traffic through it. Implementations adapt whatever bus access the
//! platform offers; a blocking implementation simply performs the transfers
//! before returning. Nothing is assumed about the bytes a device answers
//! with: the driver validates everything it reads.

use vstd::prelude::*;

verus! {

/// A two-wire bus the INA219 is attached to.
///
/// All three operations address one device by its 7-bit bus address. Every
/// operation may fail with the transport's own error, which the driver hands
/// through unchanged.
pub trait I2cBus {
    /// The transport's error type.
    type Error;

    /// Write the bytes to the device, as one bus write.
    fn write(&mut self, addr: u8, bytes: &[u8]) -> (r: Result<(), Self::Error>);

    /// Write the bytes to the device, then read two bytes back, in one
    /// write-then-read cycle.
    fn write_read(&mut self, addr: u8, bytes: &[u8]) -> (r: Result<[u8; 2], Self::Error>);

    /// One bus transaction: for each register address in `regs`, in order,
    /// write that one byte and read two bytes back, all without releasing
    /// the bus in between. Returns one two-byte reply per requested register.
    fn transaction(&mut self, addr: u8, regs: &[u8]) -> (r: Result<Vec<[u8; 2]>, Self::Error>)
        ensures
            r matches Ok(replies) ==> replies@.len() == regs@.len(),
    ;
}

/// The 16-bit register value carried by two big-endian bytes.
pub open spec fn spec_u16_from_be(bytes: [u8; 2]) -> u16 {
    ((bytes[0] as int) * 256 + (bytes[1] as int)) as u16
}

/// Assemble a 16-bit register value from its two big-endian bytes.
pub fn u16_from_be(bytes: [u8; 2]) -> (r: u16)
    ensures
        r == spec_u16_from_be(bytes),
{
    let hi = bytes[0];
    let lo = bytes[1];
    proof {
        assert(((hi as u16) << 8) | (lo as u16) == (hi as u16) * 256 + (lo as u16))
            by (bit_vector);
    }
    ((hi as u16) << 8) | (lo as u16)
}

/// Split a 16-bit register value into its two big-endian bytes.
pub fn u16_to_be(value: u16) -> (r: [u8; 2])
    ensures
        spec_u16_from_be(r) == value,
{
    proof {
        assert((value >> 8) < 256 && (value & 0xFF) < 256 && ((value >> 8) as int) * 256 + ((value
            & 0xFF) as int) == value as int) by (bit_vector);
    }
    let hi = (value >> 8) as u8;
    let lo = (value & 0xFF) as u8;
    [hi, lo]
}

} // verus!
