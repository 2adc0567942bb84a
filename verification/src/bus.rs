//! Trusted boundary to the I2C transport of the rppal crate.
//!
//! Each function below forwards to exactly one rppal call and is believed,
//! not verified. The bytes a read hands back depend on the hardware on the
//! bus, so nothing is assumed about their values; the contracts only state
//! what rppal itself guarantees about lengths and counts.

use vstd::prelude::*;

verus! {

#[verifier::external_type_specification]
#[verifier::external_body]
pub struct ExI2c(rppal::i2c::I2c);

#[verifier::external_type_specification]
#[verifier::external_body]
pub struct ExI2cError(rppal::i2c::Error);

/// Relies on rppal's `I2c::with_bus`: opens the device file of the given
/// I2C bus and prepares it for transactions.
#[verifier::external_body]
pub(crate) fn i2c_with_bus(bus: u8) -> Result<rppal::i2c::I2c, rppal::i2c::Error> {
    rppal::i2c::I2c::with_bus(bus)
}

/// Relies on rppal's `I2c::set_slave_address`: selects which peripheral
/// later transactions address; reserved or out-of-range 7-bit addresses are
/// rejected with an error.
#[verifier::external_body]
pub(crate) fn i2c_set_slave_address(
    i2c: &mut rppal::i2c::I2c,
    addr: u16,
) -> Result<(), rppal::i2c::Error> {
    i2c.set_slave_address(addr)
}

/// Relies on rppal's `I2c::write`: sends the buffer to the addressed
/// peripheral and returns how many bytes went out, at most the buffer's
/// length (the count comes from a plain `io::Write::write`).
#[verifier::external_body]
pub(crate) fn i2c_write(
    i2c: &mut rppal::i2c::I2c,
    data: &[u8],
) -> (r: Result<usize, rppal::i2c::Error>)
    ensures
        r matches Ok(n) ==> n <= data@.len(),
{
    i2c.write(data)
}

/// Relies on rppal's `I2c::read`: fills the buffer with bytes from the
/// addressed peripheral. What arrives depends on the device, so no value is
/// assumed; the buffer keeps its length, and the count of bytes read is at
/// most that length (the count comes from a plain `io::Read::read`).
#[verifier::external_body]
pub(crate) fn i2c_read(
    i2c: &mut rppal::i2c::I2c,
    buf: &mut Vec<u8>,
) -> (r: Result<usize, rppal::i2c::Error>)
    ensures
        final(buf)@.len() == old(buf)@.len(),
        r matches Ok(n) ==> n <= old(buf)@.len(),
{
    i2c.read(buf.as_mut_slice())
}

/// Relies on rppal's `Display` impl for `i2c::Error`: the error's own text.
#[verifier::external_body]
pub(crate) fn i2c_error_text(e: &rppal::i2c::Error) -> String {
    format!("{}", e)
}

/// Relies on rppal's `I2c::smbus_read_byte`: reads one byte from the given
/// register of the addressed peripheral; its value depends on the hardware.
#[verifier::external_body]
pub(crate) fn smbus_read_byte(
    i2c: &rppal::i2c::I2c,
    reg: u8,
) -> Result<u8, rppal::i2c::Error> {
    i2c.smbus_read_byte(reg)
}

/// Relies on rppal's `I2c::smbus_write_byte`: writes one byte to the given
/// register of the addressed peripheral.
#[verifier::external_body]
pub(crate) fn smbus_write_byte(
    i2c: &rppal::i2c::I2c,
    reg: u8,
    value: u8,
) -> Result<(), rppal::i2c::Error> {
    i2c.smbus_write_byte(reg, value)
}

} // verus!
