//! Driver for the EMC2101 fan controller: its register map, PWM duty
//! encoding, lookup-table programming, tachometer decoding, and the
//! read-modify-write discipline on named register bits.
//!
//! Every byte a method writes on the bus is recorded in a ghost write log
//! `(register, value)`, newest last; the contracts pin the logged writes
//! down exactly, up to the register bytes read back from the device.

use vstd::prelude::*;
use vstd::string::StringExecFns;

use crate::bus;
use crate::seqs;

verus! {

pub const EMC2101_REG_CONFIG: u8 = 0x3;

pub const EMC2101_TEMP_FORCE: u8 = 0x0C;

pub const EMC2101_WHOAMI: u8 = 0xFD;

pub const EMC2101_FAN_CONFIG: u8 = 0x4A;

pub const EMC2101_PWM_FREQ: u8 = 0x4D;

pub const EMC2101_REG_FAN_SETTING: u8 = 0x4C;

pub const EMC2101_TACH_LSB: u8 = 0x46;

pub const EMC2101_TACH_MSB: u8 = 0x47;

pub const EMC2101_TACH_LIMIT_LSB: u8 = 0x48;

pub const EMC2101_TACH_LIMIT_MSB: u8 = 0x49;

pub const EMC2101_LUT_START: u8 = 0x50;

pub const MAX_LUT_SPEED: u8 = 0x3F;

pub const EMC2101_FAN_RPM_NUMERATOR: u32 = 5400000;

/// A register byte with one bit forced to the given value, the others kept.
pub open spec fn spec_set_bit8(data: u8, value: bool, bit: u8) -> u8 {
    if value {
        data | (1u8 << bit)
    } else {
        data & !(1u8 << bit)
    }
}

/// One named bit of a register byte.
pub open spec fn spec_get_bit(data: u8, bit: u8) -> bool {
    data & (1u8 << bit) != 0
}

/// Read-modify-write on one named bit: the named bit takes the given value
/// and every other bit of the register byte is preserved.
pub proof fn lemma_set_bit_semantics(data: u8, value: bool, bit: u8)
    requires
        bit < 8,
    ensures
        spec_get_bit(spec_set_bit8(data, value, bit), bit) == value,
        forall|i: u8|
            i < 8 && i != bit ==> spec_get_bit(spec_set_bit8(data, value, bit), i) == spec_get_bit(
                data,
                i,
            ),
{
    assert(bit < 8 ==> spec_get_bit(spec_set_bit8(data, value, bit), bit) == value)
        by (bit_vector);
    assert(forall|i: u8|
        (bit < 8 && i < 8 && i != bit) ==> spec_get_bit(spec_set_bit8(data, value, bit), i)
            == spec_get_bit(data, i)) by (bit_vector);
}

/// Bit-field mutation on a raw register byte.
pub trait RegData {
    /// The byte with one named bit forced to the given value.
    spec fn spec_set_bit(&self, value: bool, bit: u8) -> u8;

    fn set_bit(&self, value: bool, bit: u8) -> (r: u8)
        requires
            bit < 8,
        ensures
            r == self.spec_set_bit(value, bit),
    ;
}

impl RegData for u8 {
    open spec fn spec_set_bit(&self, value: bool, bit: u8) -> u8 {
        spec_set_bit8(*self, value, bit)
    }

    fn set_bit(&self, value: bool, bit: u8) -> (r: u8) {
        if value {
            *self | (1u8 << bit)
        } else {
            *self & !(1u8 << bit)
        }
    }
}

/// The 6-bit duty-cycle register code for a caller-facing percent:
/// `percent * 64 / 100`, rounded to the nearest code, clamped to 63.
pub open spec fn spec_duty_code(percent: u8) -> u8 {
    let scaled = (percent * 64 + 50) / 100;
    if scaled > 63 {
        63u8
    } else {
        scaled as u8
    }
}

/// Converts a duty percent to the 6-bit fan-setting register code.
pub fn percent_to_duty_code(percent: u8) -> (r: u8)
    ensures
        r == spec_duty_code(percent),
        r <= 63,
{
    let scaled: u16 = (percent as u16 * 64 + 50) / 100;
    if scaled > 63 {
        63
    } else {
        scaled as u8
    }
}

/// The duty code never decreases when the percent grows.
pub proof fn lemma_duty_code_monotonic(p1: u8, p2: u8)
    requires
        p1 <= p2,
    ensures
        spec_duty_code(p1) <= spec_duty_code(p2),
{
    vstd::arithmetic::div_mod::lemma_div_is_ordered(p1 * 64 + 50, p2 * 64 + 50, 100);
}

/// Any percent of 100 or more clamps to the largest 6-bit code, 63.
pub proof fn lemma_duty_code_clamps(p: u8)
    requires
        p >= 100,
    ensures
        spec_duty_code(p) == 63,
{
    vstd::arithmetic::div_mod::lemma_div_is_ordered((100 * 64 + 50) as int, p * 64 + 50, 100);
}

/// The lookup-table duty code for a percent: the fraction of the table's
/// largest code 63, rounded to the nearest code.
pub open spec fn spec_lut_duty_code(percent: u8) -> u8 {
    ((percent * 63 + 50) / 100) as u8
}

/// Converts a duty percent to a lookup-table duty code.
pub fn lut_duty_code(percent: u8) -> (r: u8)
    requires
        percent <= 100,
    ensures
        r == spec_lut_duty_code(percent),
        r <= 63,
{
    ((percent as u16 * 63 + 50) / 100) as u8
}

/// The register offset of a lookup-table entry: two bytes per entry from the
/// table's base register.
pub open spec fn spec_lut_offset(index: u8) -> u8 {
    (EMC2101_LUT_START + index * 2) as u8
}

/// The 16-bit tachometer-limit value for a minimum RPM: the hardware
/// numerator divided by the RPM, truncated to 16 bits.
pub open spec fn spec_tach_limit(min_rpm: u16) -> u16 {
    (((EMC2101_FAN_RPM_NUMERATOR as int) / (min_rpm as int)) % 0x10000) as u16
}

pub open spec fn spec_tach_limit_lsb(min_rpm: u16) -> u8 {
    (spec_tach_limit(min_rpm) % 0x100) as u8
}

pub open spec fn spec_tach_limit_msb(min_rpm: u16) -> u8 {
    ((spec_tach_limit(min_rpm) / 0x100) % 0x100) as u8
}

/// Computes the 16-bit tachometer-limit value for a minimum RPM.
pub fn min_rpm_tach_limit(min_rpm: u16) -> (r: u16)
    requires
        min_rpm >= 1,
    ensures
        r == spec_tach_limit(min_rpm),
{
    let q: u32 = EMC2101_FAN_RPM_NUMERATOR / (min_rpm as u32);
    (q % 0x10000) as u16
}

/// The 14-bit tachometer count: the LSB byte, with the MSB masked to its
/// lower 6 bits before combination.
pub open spec fn spec_tach_count(lsb: u8, msb: u8) -> u16 {
    (lsb as u16) | (((msb & 0x3F) as u16) << 8)
}

/// Fan speed from the two tachometer bytes: `0` when both bytes read as
/// all-ones (stalled or disconnected), the hardware numerator divided by the
/// masked count otherwise; a zero count has no speed.
pub open spec fn spec_fan_speed(lsb: u8, msb: u8) -> Option<u16> {
    if lsb == 0xFF && msb == 0xFF {
        Some(0u16)
    } else if spec_tach_count(lsb, msb) == 0 {
        None
    } else {
        Some(
            (((EMC2101_FAN_RPM_NUMERATOR as int) / (spec_tach_count(lsb, msb) as int)) % 0x10000)
                as u16,
        )
    }
}

/// Converts the two tachometer bytes to a fan speed in RPM.
pub fn fan_speed_from_bytes(lsb: u8, msb: u8) -> (r: Option<u16>)
    ensures
        r == spec_fan_speed(lsb, msb),
{
    if lsb == 0xFF && msb == 0xFF {
        return Some(0);
    }
    let raw: u16 = (lsb as u16) | (((msb & 0x3F) as u16) << 8);
    if raw == 0 {
        return None;
    }
    Some(((EMC2101_FAN_RPM_NUMERATOR / (raw as u32)) % 0x10000) as u16)
}

/// The device-id register must name one of the two known silicon revisions.
pub open spec fn spec_device_id_valid(id: u8) -> bool {
    id == 0x16 || id == 0x28
}

pub fn device_id_valid(id: u8) -> (r: bool)
    ensures
        r == spec_device_id_valid(id),
{
    id == 0x16 || id == 0x28
}

/// The byte a register holds after a sequence of `(register, value)` writes:
/// the last write to that register wins; `None` when it was never written.
pub open spec fn spec_reg_state(writes: Seq<(u8, u8)>, reg: u8) -> Option<u8>
    decreases writes.len(),
{
    if writes.len() == 0 {
        None
    } else if writes.last().0 == reg {
        Some(writes.last().1)
    } else {
        spec_reg_state(writes.drop_last(), reg)
    }
}

/// A repeated duty-cycle write is idempotent: when the fan-setting register
/// already holds the code for a percent, writing that percent's code again
/// leaves every register's state exactly as it was.
pub proof fn lemma_repeated_duty_write_noop(writes: Seq<(u8, u8)>, percent: u8)
    requires
        spec_reg_state(writes, EMC2101_REG_FAN_SETTING) == Some(spec_duty_code(percent)),
    ensures
        forall|reg: u8|
            spec_reg_state(
                writes.push((EMC2101_REG_FAN_SETTING, spec_duty_code(percent))),
                reg,
            ) == spec_reg_state(writes, reg),
{
    let w2 = writes.push((EMC2101_REG_FAN_SETTING, spec_duty_code(percent)));
    assert forall|reg: u8| spec_reg_state(w2, reg) == spec_reg_state(writes, reg) by {
        assert(w2.drop_last() =~= writes);
    }
}

/// Errors of the fan-controller driver.
#[derive(Debug)]
pub enum Emc2101Error {
    AhtI2c(rppal::i2c::Error),
    InvalidDeviceId,
    UnkonwnStatus,
}

impl From<rppal::i2c::Error> for Emc2101Error {
    fn from(err: rppal::i2c::Error) -> (r: Emc2101Error) {
        Emc2101Error::AhtI2c(err)
    }
}

impl vstd::std_specs::convert::FromSpecImpl<rppal::i2c::Error> for Emc2101Error {
    open spec fn obeys_from_spec() -> bool {
        true
    }

    open spec fn from_spec(err: rppal::i2c::Error) -> Emc2101Error {
        Emc2101Error::AhtI2c(err)
    }
}

impl Emc2101Error {
    /// A short human-readable text for the error; a bus failure carries the
    /// transport's own text.
    pub fn describe(&self) -> (r: String)
        ensures
            self is InvalidDeviceId ==> r@ == "InvalidDeviceId"@,
            self is UnkonwnStatus ==> r@ == "UnkonwnStatus"@,
    {
        match self {
            Emc2101Error::AhtI2c(e) => String::from_str("I2c Error ").concat(
                bus::i2c_error_text(e).as_str(),
            ),
            Emc2101Error::InvalidDeviceId => String::from_str("InvalidDeviceId"),
            Emc2101Error::UnkonwnStatus => String::from_str("UnkonwnStatus"),
        }
    }
}

/// Handle to an EMC2101 on one I2C bus. The ghost write log records every
/// `(register, value)` pair known to have reached the device, newest last.
pub struct Emc2101 {
    bus: u8,
    addr: u16,
    i2c: rppal::i2c::I2c,
    wlog: Ghost<Seq<(u8, u8)>>,
}

impl Emc2101 {
    /// The register writes this handle has sent on the bus, newest last.
    pub closed spec fn writes(self) -> Seq<(u8, u8)> {
        self.wlog@
    }

    pub closed spec fn bus_id(self) -> u8 {
        self.bus
    }

    pub closed spec fn address(self) -> u16 {
        self.addr
    }

    /// Opens the given bus and addresses the controller. No register is
    /// written yet.
    pub fn new(bus: u8, addr: u16) -> (r: Result<Emc2101, Emc2101Error>)
        ensures
            r matches Ok(dev) ==> dev.bus_id() == bus && dev.address() == addr && dev.writes()
                === Seq::empty(),
            r matches Err(e) ==> e is AhtI2c,
    {
        let mut i2c = match bus::i2c_with_bus(bus) {
            Ok(i) => i,
            Err(e) => return Err(Emc2101Error::AhtI2c(e)),
        };
        match bus::i2c_set_slave_address(&mut i2c, addr) {
            Ok(u) => u,
            Err(e) => return Err(Emc2101Error::AhtI2c(e)),
        };
        Ok(Emc2101 { bus, addr, i2c, wlog: Ghost(Seq::empty()) })
    }

    /// Reads the device-id register; only the two known silicon revisions
    /// are accepted.
    pub fn init(&mut self) -> (r: Result<(), Emc2101Error>)
        ensures
            final(self).writes() === old(self).writes(),
            final(self).bus_id() == old(self).bus_id(),
            final(self).address() == old(self).address(),
            r matches Err(e) ==> e is AhtI2c || e is InvalidDeviceId,
    {
        let id = match bus::smbus_read_byte(&self.i2c, EMC2101_WHOAMI) {
            Ok(b) => b,
            Err(e) => return Err(Emc2101Error::AhtI2c(e)),
        };
        if !device_id_valid(id) {
            return Err(Emc2101Error::InvalidDeviceId);
        }
        Ok(())
    }

    /// Read-modify-write of one named bit of one register: reads the current
    /// byte, forces the bit, writes the byte back. Unrelated bits of the
    /// byte read are preserved in the byte written.
    fn rmw_bit(&mut self, reg: u8, value: bool, bit: u8) -> (r: Result<(), Emc2101Error>)
        requires
            bit < 8,
        ensures
            r is Ok ==> exists|p: u8|
                final(self).writes() === old(self).writes().push((reg, spec_set_bit8(p, value, bit))),
            r is Err ==> final(self).writes() === old(self).writes(),
            r matches Err(e) ==> e is AhtI2c,
            final(self).bus_id() == old(self).bus_id(),
            final(self).address() == old(self).address(),
    {
        let prev = match bus::smbus_read_byte(&self.i2c, reg) {
            Ok(b) => b,
            Err(e) => return Err(Emc2101Error::AhtI2c(e)),
        };
        let next = prev.set_bit(value, bit);
        match bus::smbus_write_byte(&self.i2c, reg, next) {
            Ok(u) => u,
            Err(e) => return Err(Emc2101Error::AhtI2c(e)),
        };
        self.wlog = Ghost(self.wlog@.push((reg, next)));
        proof {
            assert(self.wlog@ === old(self).writes().push((reg, spec_set_bit8(prev, value, bit))));
        }
        Ok(())
    }

    /// Enables or disables the tachometer input (config register, bit 2).
    pub fn enable_tach(&mut self, enable: bool) -> (r: Result<(), Emc2101Error>)
        ensures
            r is Ok ==> exists|p: u8|
                final(self).writes() === old(self).writes().push(
                    (EMC2101_REG_CONFIG, spec_set_bit8(p, enable, 2)),
                ),
            r is Err ==> final(self).writes() === old(self).writes(),
            r matches Err(e) ==> e is AhtI2c,
            final(self).bus_id() == old(self).bus_id(),
            final(self).address() == old(self).address(),
    {
        self.rmw_bit(EMC2101_REG_CONFIG, enable, 2)
    }

    /// Sets or clears fan-speed inversion (fan-config register, bit 4).
    pub fn invert_fan_speed(&mut self, invert: bool) -> (r: Result<(), Emc2101Error>)
        ensures
            r is Ok ==> exists|p: u8|
                final(self).writes() === old(self).writes().push(
                    (EMC2101_FAN_CONFIG, spec_set_bit8(p, invert, 4)),
                ),
            r is Err ==> final(self).writes() === old(self).writes(),
            r matches Err(e) ==> e is AhtI2c,
            final(self).bus_id() == old(self).bus_id(),
            final(self).address() == old(self).address(),
    {
        self.rmw_bit(EMC2101_FAN_CONFIG, invert, 4)
    }

    /// Writes the PWM frequency divisor register.
    pub fn set_pwm_frequency(&mut self, freq: u8) -> (r: Result<(), Emc2101Error>)
        ensures
            r is Ok ==> final(self).writes() === old(self).writes().push(
                (EMC2101_PWM_FREQ, freq),
            ),
            r is Err ==> final(self).writes() === old(self).writes(),
            r matches Err(e) ==> e is AhtI2c,
            final(self).bus_id() == old(self).bus_id(),
            final(self).address() == old(self).address(),
    {
        match bus::smbus_write_byte(&self.i2c, EMC2101_PWM_FREQ, freq) {
            Ok(u) => u,
            Err(e) => return Err(Emc2101Error::AhtI2c(e)),
        };
        self.wlog = Ghost(self.wlog@.push((EMC2101_PWM_FREQ, freq)));
        Ok(())
    }

    /// Selects the PWM clock source and override (fan-config register,
    /// bits 3 and 2, one combined read-modify-write).
    pub fn set_pwm_clock(&mut self, clksel: bool, clkovr: bool) -> (r: Result<(), Emc2101Error>)
        ensures
            r is Ok ==> exists|p: u8|
                final(self).writes() === old(self).writes().push(
                    (EMC2101_FAN_CONFIG, spec_set_bit8(spec_set_bit8(p, clksel, 3), clkovr, 2)),
                ),
            r is Err ==> final(self).writes() === old(self).writes(),
            r matches Err(e) ==> e is AhtI2c,
            final(self).bus_id() == old(self).bus_id(),
            final(self).address() == old(self).address(),
    {
        let prev = match bus::smbus_read_byte(&self.i2c, EMC2101_FAN_CONFIG) {
            Ok(b) => b,
            Err(e) => return Err(Emc2101Error::AhtI2c(e)),
        };
        let next = prev.set_bit(clksel, 3).set_bit(clkovr, 2);
        match bus::smbus_write_byte(&self.i2c, EMC2101_FAN_CONFIG, next) {
            Ok(u) => u,
            Err(e) => return Err(Emc2101Error::AhtI2c(e)),
        };
        self.wlog = Ghost(self.wlog@.push((EMC2101_FAN_CONFIG, next)));
        proof {
            assert(self.wlog@ === old(self).writes().push(
                (EMC2101_FAN_CONFIG, spec_set_bit8(spec_set_bit8(prev, clksel, 3), clkovr, 2)),
            ));
        }
        Ok(())
    }

    /// Enables or disables lookup-table program mode (fan-config register,
    /// bit 5). The hardware ignores table writes outside this mode.
    pub fn enable_program(&mut self, enable: bool) -> (r: Result<(), Emc2101Error>)
        ensures
            r is Ok ==> exists|p: u8|
                final(self).writes() === old(self).writes().push(
                    (EMC2101_FAN_CONFIG, spec_set_bit8(p, enable, 5)),
                ),
            r is Err ==> final(self).writes() === old(self).writes(),
            r matches Err(e) ==> e is AhtI2c,
            final(self).bus_id() == old(self).bus_id(),
            final(self).address() == old(self).address(),
    {
        self.rmw_bit(EMC2101_FAN_CONFIG, enable, 5)
    }

    /// Converts the percent to a 6-bit code, clamped to 63, and writes the
    /// fan-setting register.
    pub fn set_duty_cycle(&mut self, duty: u8) -> (r: Result<(), Emc2101Error>)
        ensures
            r is Ok ==> final(self).writes() === old(self).writes().push(
                (EMC2101_REG_FAN_SETTING, spec_duty_code(duty)),
            ),
            r is Err ==> final(self).writes() === old(self).writes(),
            r matches Err(e) ==> e is AhtI2c,
            final(self).bus_id() == old(self).bus_id(),
            final(self).address() == old(self).address(),
    {
        let code = percent_to_duty_code(duty);
        match bus::smbus_write_byte(&self.i2c, EMC2101_REG_FAN_SETTING, code) {
            Ok(u) => u,
            Err(e) => return Err(Emc2101Error::AhtI2c(e)),
        };
        self.wlog = Ghost(self.wlog@.push((EMC2101_REG_FAN_SETTING, code)));
        Ok(())
    }

    /// Reads the forced-temperature register.
    pub fn get_temp(&mut self) -> (r: Result<u8, Emc2101Error>)
        ensures
            final(self).writes() === old(self).writes(),
            final(self).bus_id() == old(self).bus_id(),
            final(self).address() == old(self).address(),
            r matches Err(e) ==> e is AhtI2c,
    {
        match bus::smbus_read_byte(&self.i2c, EMC2101_TEMP_FORCE) {
            Ok(b) => Ok(b),
            Err(e) => Err(Emc2101Error::AhtI2c(e)),
        }
    }

    /// Forces the temperature reading used by the lookup table (fan-config
    /// register, bit 6).
    pub fn enable_force_temp(&mut self, force: bool) -> (r: Result<(), Emc2101Error>)
        ensures
            r is Ok ==> exists|p: u8|
                final(self).writes() === old(self).writes().push(
                    (EMC2101_FAN_CONFIG, spec_set_bit8(p, force, 6)),
                ),
            r is Err ==> final(self).writes() === old(self).writes(),
            r matches Err(e) ==> e is AhtI2c,
            final(self).bus_id() == old(self).bus_id(),
            final(self).address() == old(self).address(),
    {
        self.rmw_bit(EMC2101_FAN_CONFIG, force, 6)
    }

    /// Reads the two tachometer bytes and converts them to RPM: `0` when
    /// both bytes are all-ones (stalled), the hardware numerator over the
    /// masked count otherwise. A zero count cannot be converted and is
    /// reported as `UnkonwnStatus`.
    pub fn get_fan_speed(&mut self) -> (r: Result<u16, Emc2101Error>)
        ensures
            final(self).writes() === old(self).writes(),
            final(self).bus_id() == old(self).bus_id(),
            final(self).address() == old(self).address(),
            r matches Ok(v) ==> exists|lsb: u8, msb: u8| spec_fan_speed(lsb, msb) == Some(v),
            r matches Err(e) ==> e is AhtI2c || e is UnkonwnStatus,
    {
        let data_lsb = match bus::smbus_read_byte(&self.i2c, EMC2101_TACH_LSB) {
            Ok(b) => b,
            Err(e) => return Err(Emc2101Error::AhtI2c(e)),
        };
        let data_msb = match bus::smbus_read_byte(&self.i2c, EMC2101_TACH_MSB) {
            Ok(b) => b,
            Err(e) => return Err(Emc2101Error::AhtI2c(e)),
        };
        match fan_speed_from_bytes(data_lsb, data_msb) {
            Some(rpm) => Ok(rpm),
            None => Err(Emc2101Error::UnkonwnStatus),
        }
    }

    /// Programs one lookup-table entry: computes the entry's register offset
    /// from the table base and the index, and brackets the two entry writes
    /// (temperature threshold, then scaled duty code) with program-mode
    /// enable and disable, since the hardware ignores them otherwise.
    pub fn set_lut(&mut self, index: u8, temp: u8, fan_pwm: u8) -> (r: Result<(), Emc2101Error>)
        requires
            index < 8,
            fan_pwm <= 100,
        ensures
            r is Ok ==> exists|p1: u8, p2: u8|
                final(self).writes() === old(self).writes().push(
                    (EMC2101_FAN_CONFIG, spec_set_bit8(p1, true, 5)),
                ).push((spec_lut_offset(index), temp)).push(
                    ((spec_lut_offset(index) + 1) as u8, spec_lut_duty_code(fan_pwm)),
                ).push((EMC2101_FAN_CONFIG, spec_set_bit8(p2, false, 5))),
            r is Err ==> old(self).writes().is_prefix_of(final(self).writes()),
            r matches Err(e) ==> e is AhtI2c,
            final(self).bus_id() == old(self).bus_id(),
            final(self).address() == old(self).address(),
    {
        let ghost w0 = self.wlog@;
        proof {
            seqs::lemma_prefix_refl(w0);
        }
        let fan_data = lut_duty_code(fan_pwm);
        let offset = EMC2101_LUT_START + index * 2;
        match self.enable_program(true) {
            Ok(u) => u,
            Err(e) => return Err(e),
        };
        let ghost p1 = choose|p: u8|
            self.wlog@ === w0.push((EMC2101_FAN_CONFIG, spec_set_bit8(p, true, 5)));
        let ghost w1 = self.wlog@;
        proof {
            seqs::lemma_prefix_push(w0, w0, (EMC2101_FAN_CONFIG, spec_set_bit8(p1, true, 5)));
        }
        match bus::smbus_write_byte(&self.i2c, offset, temp) {
            Ok(u) => u,
            Err(e) => return Err(Emc2101Error::AhtI2c(e)),
        };
        self.wlog = Ghost(self.wlog@.push((offset, temp)));
        let ghost w2 = self.wlog@;
        proof {
            seqs::lemma_prefix_push(w0, w1, (offset, temp));
        }
        match bus::smbus_write_byte(&self.i2c, offset + 1, fan_data) {
            Ok(u) => u,
            Err(e) => return Err(Emc2101Error::AhtI2c(e)),
        };
        self.wlog = Ghost(self.wlog@.push(((offset + 1) as u8, fan_data)));
        let ghost w3 = self.wlog@;
        proof {
            seqs::lemma_prefix_push(w0, w2, ((offset + 1) as u8, fan_data));
        }
        match self.enable_program(false) {
            Ok(u) => u,
            Err(e) => return Err(e),
        };
        let ghost p2 = choose|p: u8|
            self.wlog@ === w3.push((EMC2101_FAN_CONFIG, spec_set_bit8(p, false, 5)));
        proof {
            assert(self.wlog@ === w0.push((EMC2101_FAN_CONFIG, spec_set_bit8(p1, true, 5))).push(
                (spec_lut_offset(index), temp),
            ).push(((spec_lut_offset(index) + 1) as u8, spec_lut_duty_code(fan_pwm))).push(
                (EMC2101_FAN_CONFIG, spec_set_bit8(p2, false, 5)),
            ));
        }
        Ok(())
    }

    /// Converts the minimum RPM to the 16-bit tachometer-limit value and
    /// writes it as two bytes, low byte first.
    pub fn set_min_rpm(&mut self, min_rpm: u16) -> (r: Result<(), Emc2101Error>)
        requires
            min_rpm >= 1,
        ensures
            r is Ok ==> final(self).writes() === old(self).writes().push(
                (EMC2101_TACH_LIMIT_LSB, spec_tach_limit_lsb(min_rpm)),
            ).push((EMC2101_TACH_LIMIT_MSB, spec_tach_limit_msb(min_rpm))),
            r is Err ==> old(self).writes().is_prefix_of(final(self).writes()),
            r matches Err(e) ==> e is AhtI2c,
            final(self).bus_id() == old(self).bus_id(),
            final(self).address() == old(self).address(),
    {
        let ghost w0 = self.wlog@;
        proof {
            seqs::lemma_prefix_refl(w0);
        }
        let limit = min_rpm_tach_limit(min_rpm);
        let lsb = (limit % 0x100) as u8;
        let msb = ((limit / 0x100) % 0x100) as u8;
        match bus::smbus_write_byte(&self.i2c, EMC2101_TACH_LIMIT_LSB, lsb) {
            Ok(u) => u,
            Err(e) => return Err(Emc2101Error::AhtI2c(e)),
        };
        self.wlog = Ghost(self.wlog@.push((EMC2101_TACH_LIMIT_LSB, lsb)));
        proof {
            seqs::lemma_prefix_push(w0, w0, (EMC2101_TACH_LIMIT_LSB, lsb));
        }
        match bus::smbus_write_byte(&self.i2c, EMC2101_TACH_LIMIT_MSB, msb) {
            Ok(u) => u,
            Err(e) => return Err(Emc2101Error::AhtI2c(e)),
        };
        self.wlog = Ghost(self.wlog@.push((EMC2101_TACH_LIMIT_MSB, msb)));
        Ok(())
    }

    /// Applies the fixed default configuration: tachometer input on,
    /// fan-speed inversion off, PWM frequency divisor, forced-temperature
    /// mode on, PWM clock selection, program mode on, the given duty, and a
    /// minimum-RPM threshold of 150. Each step is one independent register
    /// write; a failure partway leaves the earlier writes in place.
    pub fn set_default_config(&mut self, fan_duty: u8) -> (r: Result<(), Emc2101Error>)
        ensures
            r is Ok ==> final(self).writes().len() == old(self).writes().len() + 9 && old(
                self,
            ).writes().is_prefix_of(final(self).writes()) && spec_default_config_delta(
                final(self).writes().skip(old(self).writes().len() as int),
                fan_duty,
            ),
            r is Err ==> old(self).writes().is_prefix_of(final(self).writes()),
            r matches Err(e) ==> e is AhtI2c,
            final(self).bus_id() == old(self).bus_id(),
            final(self).address() == old(self).address(),
    {
        let ghost w0 = self.wlog@;
        proof {
            seqs::lemma_prefix_refl(w0);
        }
        match self.enable_tach(true) {
            Ok(u) => u,
            Err(e) => return Err(e),
        };
        let ghost p0 = choose|p: u8|
            self.wlog@ === w0.push((EMC2101_REG_CONFIG, spec_set_bit8(p, true, 2)));
        let ghost e0 = (EMC2101_REG_CONFIG, spec_set_bit8(p0, true, 2));
        let ghost w1 = self.wlog@;
        proof {
            seqs::lemma_prefix_push(w0, w0, e0);
        }
        match self.invert_fan_speed(false) {
            Ok(u) => u,
            Err(e) => return Err(e),
        };
        let ghost p1 = choose|p: u8|
            self.wlog@ === w1.push((EMC2101_FAN_CONFIG, spec_set_bit8(p, false, 4)));
        let ghost e1 = (EMC2101_FAN_CONFIG, spec_set_bit8(p1, false, 4));
        let ghost w2 = self.wlog@;
        proof {
            seqs::lemma_prefix_push(w0, w1, e1);
        }
        match self.set_pwm_frequency(0x1F) {
            Ok(u) => u,
            Err(e) => return Err(e),
        };
        let ghost e2 = (EMC2101_PWM_FREQ, 0x1Fu8);
        let ghost w3 = self.wlog@;
        proof {
            seqs::lemma_prefix_push(w0, w2, e2);
        }
        match self.enable_force_temp(true) {
            Ok(u) => u,
            Err(e) => return Err(e),
        };
        let ghost p3 = choose|p: u8|
            self.wlog@ === w3.push((EMC2101_FAN_CONFIG, spec_set_bit8(p, true, 6)));
        let ghost e3 = (EMC2101_FAN_CONFIG, spec_set_bit8(p3, true, 6));
        let ghost w4 = self.wlog@;
        proof {
            seqs::lemma_prefix_push(w0, w3, e3);
        }
        match self.set_pwm_clock(false, false) {
            Ok(u) => u,
            Err(e) => return Err(e),
        };
        let ghost p4 = choose|p: u8|
            self.wlog@ === w4.push(
                (EMC2101_FAN_CONFIG, spec_set_bit8(spec_set_bit8(p, false, 3), false, 2)),
            );
        let ghost e4 = (EMC2101_FAN_CONFIG, spec_set_bit8(spec_set_bit8(p4, false, 3), false, 2));
        let ghost w5 = self.wlog@;
        proof {
            seqs::lemma_prefix_push(w0, w4, e4);
        }
        match self.enable_program(true) {
            Ok(u) => u,
            Err(e) => return Err(e),
        };
        let ghost p5 = choose|p: u8|
            self.wlog@ === w5.push((EMC2101_FAN_CONFIG, spec_set_bit8(p, true, 5)));
        let ghost e5 = (EMC2101_FAN_CONFIG, spec_set_bit8(p5, true, 5));
        let ghost w6 = self.wlog@;
        proof {
            seqs::lemma_prefix_push(w0, w5, e5);
        }
        match self.set_duty_cycle(fan_duty) {
            Ok(u) => u,
            Err(e) => return Err(e),
        };
        let ghost e6 = (EMC2101_REG_FAN_SETTING, spec_duty_code(fan_duty));
        let ghost w7 = self.wlog@;
        proof {
            seqs::lemma_prefix_push(w0, w6, e6);
        }
        match self.set_min_rpm(150) {
            Ok(u) => u,
            Err(e) => {
                proof {
                    seqs::lemma_prefix_trans(w0, w7, self.wlog@);
                }
                return Err(e);
            },
        };
        let ghost e7 = (EMC2101_TACH_LIMIT_LSB, spec_tach_limit_lsb(150));
        let ghost e8 = (EMC2101_TACH_LIMIT_MSB, spec_tach_limit_msb(150));
        proof {
            let w_final = self.wlog@;
            assert(w_final === w0.push(e0).push(e1).push(e2).push(e3).push(e4).push(e5).push(
                e6,
            ).push(e7).push(e8));
            let delta = w_final.skip(w0.len() as int);
            assert(delta.len() == 9);
            assert(delta[0] == e0);
            assert(delta[1] == e1);
            assert(delta[2] == e2);
            assert(delta[3] == e3);
            assert(delta[4] == e4);
            assert(delta[5] == e5);
            assert(delta[6] == e6);
            assert(delta[7] == e7);
            assert(delta[8] == e8);
            seqs::lemma_prefix_push(w0, w7, e7);
            seqs::lemma_prefix_push(w0, w7.push(e7), e8);
        }
        Ok(())
    }
}

/// The exact shape of the write sequence `set_default_config` appends on
/// success, up to the register bytes read back during the read-modify-write
/// steps.
pub open spec fn spec_default_config_delta(delta: Seq<(u8, u8)>, duty: u8) -> bool {
    &&& delta.len() == 9
    &&& exists|p: u8| delta[0] == (EMC2101_REG_CONFIG, spec_set_bit8(p, true, 2))
    &&& exists|p: u8| delta[1] == (EMC2101_FAN_CONFIG, spec_set_bit8(p, false, 4))
    &&& delta[2] == (EMC2101_PWM_FREQ, 0x1Fu8)
    &&& exists|p: u8| delta[3] == (EMC2101_FAN_CONFIG, spec_set_bit8(p, true, 6))
    &&& exists|p: u8|
        delta[4] == (EMC2101_FAN_CONFIG, spec_set_bit8(spec_set_bit8(p, false, 3), false, 2))
    &&& exists|p: u8| delta[5] == (EMC2101_FAN_CONFIG, spec_set_bit8(p, true, 5))
    &&& delta[6] == (EMC2101_REG_FAN_SETTING, spec_duty_code(duty))
    &&& delta[7] == (EMC2101_TACH_LIMIT_LSB, spec_tach_limit_lsb(150))
    &&& delta[8] == (EMC2101_TACH_LIMIT_MSB, spec_tach_limit_msb(150))
}

} // verus!
