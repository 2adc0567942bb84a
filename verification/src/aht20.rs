//! Driver for the AHT20 humidity/temperature sensor: the trigger–poll–decode
//! measurement protocol and the decoding of its raw 6-byte frame.
//!
//! Every observable step of the protocol is recorded in a ghost event log,
//! newest last: commands written, status bytes read, measurement frames
//! read, and the runs of the caller's inter-poll delay. The measurement
//! contract states the protocol order over that log: one trigger command,
//! then status polls each preceded by a delay, and the frame read only after
//! a status byte whose busy bit is clear.

use vstd::prelude::*;
use vstd::string::StringExecFns;

use crate::bus;
use crate::seqs;

verus! {

/// The fixed 3-byte command that starts a conversion.
pub open spec fn spec_trigger_command() -> Seq<u8> {
    seq![0xACu8, 0x33u8, 0x00u8]
}

/// The 2-byte initialization command sent when the calibration bits are clear.
pub open spec fn spec_init_command() -> Seq<u8> {
    seq![0x08u8, 0x00u8]
}

/// The top status bit signals a conversion in progress.
pub open spec fn spec_status_busy(status: u8) -> bool {
    status & 0x80 != 0
}

/// When none of the calibration-state bits of the status byte is set, the
/// sensor still needs its initialization command.
pub open spec fn spec_needs_init(status: u8) -> bool {
    status & 0x16 == 0
}

/// Humidity raw code: 20 bits packed across frame bytes 1-3,
/// `(b1 << 12) | (b2 << 4) | ((b3 & 0xF0) >> 4)`.
pub open spec fn spec_humidity_raw(b1: u8, b2: u8, b3: u8) -> u32 {
    ((b1 as u32) << 12) | ((b2 as u32) << 4) | (((b3 & 0xF0) as u32) >> 4)
}

/// Temperature raw code: 20 bits packed across frame bytes 3-5,
/// `((b3 & 0x0F) << 16) | (b4 << 8) | b5`.
pub open spec fn spec_temp_raw(b3: u8, b4: u8, b5: u8) -> u32 {
    (((b3 & 0x0F) as u32) << 16) | ((b4 as u32) << 8) | (b5 as u32)
}

/// One step of the sensor protocol, as the ghost event log records it: a
/// command sent on the bus, one run of the caller's inter-poll delay, a
/// status byte read, or a measurement frame read.
pub enum SensorEvent {
    Command(Seq<u8>),
    Delay,
    StatusRead(u8),
    FrameRead(Seq<u8>),
}

/// Errors of the sensor driver. `Timeout` reports an exhausted poll budget
/// during a measurement; `UnkonwnStatus` is a reserved terminal state.
#[derive(Debug)]
pub enum Aht20Error {
    AhtI2c(rppal::i2c::Error),
    UnkonwnStatus,
    Timeout,
}

impl From<rppal::i2c::Error> for Aht20Error {
    fn from(err: rppal::i2c::Error) -> (r: Aht20Error) {
        Aht20Error::AhtI2c(err)
    }
}

impl vstd::std_specs::convert::FromSpecImpl<rppal::i2c::Error> for Aht20Error {
    open spec fn obeys_from_spec() -> bool {
        true
    }

    open spec fn from_spec(err: rppal::i2c::Error) -> Aht20Error {
        Aht20Error::AhtI2c(err)
    }
}

impl Aht20Error {
    /// A short human-readable text for the error; a bus failure carries the
    /// transport's own text.
    pub fn describe(&self) -> (r: String)
        ensures
            self is UnkonwnStatus ==> r@ == "UnkonwnStatus"@,
            self is Timeout ==> r@ == "Timeout"@,
    {
        match self {
            Aht20Error::AhtI2c(e) => String::from_str("I2c Error ").concat(
                bus::i2c_error_text(e).as_str(),
            ),
            Aht20Error::UnkonwnStatus => String::from_str("UnkonwnStatus"),
            Aht20Error::Timeout => String::from_str("Timeout"),
        }
    }
}

/// One humidity/temperature sample, as the two 20-bit raw codes decoded from
/// the sensor frame.
pub struct SensorReading {
    pub humidity_raw: u32,
    pub temp_raw: u32,
}

/// The reading a 6-byte frame decodes to.
pub open spec fn spec_decode(f: Seq<u8>) -> SensorReading {
    SensorReading {
        humidity_raw: spec_humidity_raw(f[1], f[2], f[3]),
        temp_raw: spec_temp_raw(f[3], f[4], f[5]),
    }
}

impl SensorReading {
    /// Decodes a raw 6-byte frame. Decoding is a function of the frame bytes
    /// alone and follows the bit-packing formulas exactly; both raw codes are
    /// 20-bit values.
    pub fn decode(frame: &[u8]) -> (r: SensorReading)
        requires
            frame@.len() == 6,
        ensures
            r == spec_decode(frame@),
            r.humidity_raw == spec_humidity_raw(frame@[1], frame@[2], frame@[3]),
            r.temp_raw == spec_temp_raw(frame@[3], frame@[4], frame@[5]),
            r.humidity_raw < 0x100000,
            r.temp_raw < 0x100000,
    {
        let b1 = frame[1];
        let b2 = frame[2];
        let b3 = frame[3];
        let b4 = frame[4];
        let b5 = frame[5];
        let humidity_raw: u32 = ((b1 as u32) << 12) | ((b2 as u32) << 4) | (((b3 & 0xF0) as u32)
            >> 4);
        let temp_raw: u32 = (((b3 & 0x0F) as u32) << 16) | ((b4 as u32) << 8) | (b5 as u32);
        proof {
            assert(((b1 as u32) << 12) | ((b2 as u32) << 4) | (((b3 & 0xF0) as u32) >> 4)
                < 0x100000) by (bit_vector);
            assert((((b3 & 0x0F) as u32) << 16) | ((b4 as u32) << 8) | (b5 as u32) < 0x100000)
                by (bit_vector);
        }
        SensorReading { humidity_raw, temp_raw }
    }

    /// Relative humidity in thousandths of a percent: the raw code scaled by
    /// `100 / 2^20`, kept exact in milli-units up to truncation.
    pub fn humidity_milli_percent(&self) -> (r: u64)
        ensures
            r == (self.humidity_raw as int) * 100000 / 0x100000,
    {
        (self.humidity_raw as u64) * 100000 / 0x100000
    }

    /// Temperature in millidegrees Celsius: the raw code scaled by
    /// `200 / 2^20`, shifted down by 50 degrees, kept exact in milli-units up
    /// to truncation.
    pub fn temp_milli_celsius(&self) -> (r: i64)
        ensures
            r == (self.temp_raw as int) * 200000 / 0x100000 - 50000,
    {
        let scaled: u64 = (self.temp_raw as u64) * 200000 / 0x100000;
        proof {
            vstd::arithmetic::div_mod::lemma_div_nonincreasing(
                (self.temp_raw as int) * 200000,
                0x100000,
            );
        }
        (scaled as i64) - 50000
    }
}

/// Decoding of a raw frame into human-readable milli-units.
pub trait Aht20Decoder {
    spec fn spec_to_human(&self) -> (u64, i64);

    /// Humidity in thousandths of a percent and temperature in millidegrees
    /// Celsius.
    fn to_human(&self) -> (r: (u64, i64))
        ensures
            r == self.spec_to_human(),
    ;
}

impl Aht20Decoder for [u8; 6] {
    open spec fn spec_to_human(&self) -> (u64, i64) {
        (
            ((spec_humidity_raw(self@[1], self@[2], self@[3]) as int) * 100000 / 0x100000) as u64,
            (((spec_temp_raw(self@[3], self@[4], self@[5]) as int) * 200000 / 0x100000) - 50000)
                as i64,
        )
    }

    fn to_human(&self) -> (r: (u64, i64)) {
        let reading = SensorReading::decode(self.as_slice());
        proof {
            vstd::arithmetic::div_mod::lemma_div_pos_is_pos(
                (reading.humidity_raw as int) * 100000,
                0x100000,
            );
            vstd::arithmetic::div_mod::lemma_div_pos_is_pos(
                (reading.temp_raw as int) * 200000,
                0x100000,
            );
            vstd::arithmetic::div_mod::lemma_div_nonincreasing(
                (reading.temp_raw as int) * 200000,
                0x100000,
            );
        }
        (reading.humidity_milli_percent(), reading.temp_milli_celsius())
    }
}

/// Tests the busy bit of a status byte.
pub fn status_busy(status: u8) -> (r: bool)
    ensures
        r == spec_status_busy(status),
{
    status & 0x80 != 0
}

/// Tests whether a status byte asks for the initialization command.
pub fn needs_init(status: u8) -> (r: bool)
    ensures
        r == spec_needs_init(status),
{
    status & 0x16 == 0
}

/// The events of a measurement's completed busy polls: for each status byte
/// read busy, one run of the caller's delay, then the status read.
pub open spec fn spec_poll_events(polls: Seq<u8>) -> Seq<SensorEvent>
    decreases polls.len(),
{
    if polls.len() == 0 {
        Seq::empty()
    } else {
        spec_poll_events(polls.drop_last()) + seq![
            SensorEvent::Delay,
            SensorEvent::StatusRead(polls.last()),
        ]
    }
}

/// The event shape of one full measurement: the trigger command; busy status
/// polls, each preceded by one run of the caller's delay; one more delayed
/// status poll whose busy bit is clear; and only then the frame read, whose
/// bytes decode to the returned reading.
pub open spec fn spec_measurement_events(delta: Seq<SensorEvent>, r: SensorReading) -> bool {
    exists|polls: Seq<u8>, status: u8, frame: Seq<u8>|
        {
            &&& delta === seq![SensorEvent::Command(spec_trigger_command())] + spec_poll_events(
                polls,
            ) + seq![
                SensorEvent::Delay,
                SensorEvent::StatusRead(status),
                SensorEvent::FrameRead(frame),
            ]
            &&& forall|i: int| 0 <= i < polls.len() ==> spec_status_busy(#[trigger] polls[i])
            &&& !spec_status_busy(status)
            &&& frame.len() == 6
            &&& r == spec_decode(frame)
        }
}

/// Handle to an AHT20 on one I2C bus. The ghost event log records every
/// protocol step known to have happened, newest last.
pub struct Aht20 {
    bus: u8,
    addr: u16,
    i2c: rppal::i2c::I2c,
    log: Ghost<Seq<SensorEvent>>,
}

impl Aht20 {
    /// The protocol steps this handle has taken, newest last.
    pub closed spec fn events(self) -> Seq<SensorEvent> {
        self.log@
    }

    pub closed spec fn bus_id(self) -> u8 {
        self.bus
    }

    pub closed spec fn address(self) -> u16 {
        self.addr
    }

    /// Opens the given bus and addresses the sensor. No command is sent yet.
    pub fn new(bus: u8, addr: u16) -> (r: Result<Aht20, Aht20Error>)
        ensures
            r matches Ok(dev) ==> dev.bus_id() == bus && dev.address() == addr && dev.events()
                === Seq::empty(),
            r matches Err(e) ==> e is AhtI2c,
    {
        let mut i2c = match bus::i2c_with_bus(bus) {
            Ok(i) => i,
            Err(e) => return Err(Aht20Error::AhtI2c(e)),
        };
        match bus::i2c_set_slave_address(&mut i2c, addr) {
            Ok(u) => u,
            Err(e) => return Err(Aht20Error::AhtI2c(e)),
        };
        Ok(Aht20 { bus, addr, i2c, log: Ghost(Seq::empty()) })
    }

    /// Sends the fixed trigger command that starts a conversion.
    pub fn trigger_measure(&mut self) -> (r: Result<(), Aht20Error>)
        ensures
            r is Ok ==> final(self).events() === old(self).events().push(
                SensorEvent::Command(spec_trigger_command()),
            ),
            r is Err ==> final(self).events() === old(self).events(),
            r matches Err(e) ==> e is AhtI2c,
            final(self).bus_id() == old(self).bus_id(),
            final(self).address() == old(self).address(),
    {
        let mut data: Vec<u8> = Vec::new();
        data.push(0xAC);
        data.push(0x33);
        data.push(0x00);
        proof {
            assert(data@ =~= spec_trigger_command());
        }
        match bus::i2c_write(&mut self.i2c, data.as_slice()) {
            Ok(_) => {
                self.log = Ghost(self.log@.push(SensorEvent::Command(spec_trigger_command())));
                Ok(())
            },
            Err(e) => Err(Aht20Error::AhtI2c(e)),
        }
    }

    /// Reads the one-byte status register; the byte returned is the byte
    /// logged.
    pub fn get_status(&mut self) -> (r: Result<u8, Aht20Error>)
        ensures
            r matches Ok(status) ==> final(self).events() === old(self).events().push(
                SensorEvent::StatusRead(status),
            ),
            r is Err ==> final(self).events() === old(self).events(),
            r matches Err(e) ==> e is AhtI2c,
            final(self).bus_id() == old(self).bus_id(),
            final(self).address() == old(self).address(),
    {
        let mut reg: Vec<u8> = Vec::new();
        reg.push(0);
        match bus::i2c_read(&mut self.i2c, &mut reg) {
            Ok(_) => {
                let status = reg[0];
                self.log = Ghost(self.log@.push(SensorEvent::StatusRead(status)));
                Ok(status)
            },
            Err(e) => Err(Aht20Error::AhtI2c(e)),
        }
    }

    /// Reads the raw 6-byte measurement frame; the bytes returned are the
    /// bytes logged.
    pub fn read_frame(&mut self) -> (r: Result<Vec<u8>, Aht20Error>)
        ensures
            r matches Ok(frame) ==> frame@.len() == 6 && final(self).events() === old(
                self,
            ).events().push(SensorEvent::FrameRead(frame@)),
            r is Err ==> final(self).events() === old(self).events(),
            r matches Err(e) ==> e is AhtI2c,
            final(self).bus_id() == old(self).bus_id(),
            final(self).address() == old(self).address(),
    {
        let mut frame: Vec<u8> = Vec::new();
        let mut i: usize = 0;
        while i < 6
            invariant
                frame@.len() == i,
                i <= 6,
            decreases 6 - i,
        {
            frame.push(0);
            i = i + 1;
        }
        match bus::i2c_read(&mut self.i2c, &mut frame) {
            Ok(_) => {
                self.log = Ghost(self.log@.push(SensorEvent::FrameRead(frame@)));
                Ok(frame)
            },
            Err(e) => Err(Aht20Error::AhtI2c(e)),
        }
    }

    /// Reads the status byte; when the calibration bits are clear, sends the
    /// documented initialization command. Returns whether the command was
    /// sent — it was sent exactly when the status byte read asked for it —
    /// and the device then needs a short settle delay before use.
    pub fn init(&mut self) -> (r: Result<bool, Aht20Error>)
        ensures
            r matches Ok(sent) ==> exists|status: u8|
                sent == spec_needs_init(status) && final(self).events() === (if spec_needs_init(
                    status,
                ) {
                    old(self).events().push(SensorEvent::StatusRead(status)).push(
                        SensorEvent::Command(spec_init_command()),
                    )
                } else {
                    old(self).events().push(SensorEvent::StatusRead(status))
                }),
            r is Err ==> final(self).events() === old(self).events() || exists|status: u8|
                final(self).events() === old(self).events().push(SensorEvent::StatusRead(status)),
            r matches Err(e) ==> e is AhtI2c,
            final(self).bus_id() == old(self).bus_id(),
            final(self).address() == old(self).address(),
    {
        let status = match self.get_status() {
            Ok(s) => s,
            Err(e) => return Err(e),
        };
        if needs_init(status) {
            let mut data: Vec<u8> = Vec::new();
            data.push(0x08);
            data.push(0x00);
            proof {
                assert(data@ =~= spec_init_command());
            }
            match bus::i2c_write(&mut self.i2c, data.as_slice()) {
                Ok(_) => {
                    self.log = Ghost(self.log@.push(SensorEvent::Command(spec_init_command())));
                    Ok(true)
                },
                Err(e) => Err(Aht20Error::AhtI2c(e)),
            }
        } else {
            Ok(false)
        }
    }

    /// Full measurement: triggers a conversion, then polls the busy bit,
    /// calling `delay` before each poll, up to `max_attempts` times; once the
    /// busy bit clears, reads and decodes the 6-byte frame. On success the
    /// appended events have exactly the measurement shape: one trigger
    /// command, delayed status polls of which only the last reads non-busy,
    /// and the frame read last, decoding to the result. The poll budget is
    /// bounded; exhausting it surfaces as `Timeout`.
    pub fn get_sensor_data<F: Fn()>(&mut self, max_attempts: u32, delay: F) -> (r: Result<
        SensorReading,
        Aht20Error,
    >)
        requires
            call_requires(delay, ()),
        ensures
            r matches Ok(s) ==> spec_measurement_events(
                final(self).events().skip(old(self).events().len() as int),
                s,
            ),
            r matches Ok(s) ==> s.humidity_raw < 0x100000 && s.temp_raw < 0x100000,
            old(self).events().is_prefix_of(final(self).events()),
            r matches Err(e) ==> e is AhtI2c || e is Timeout,
            final(self).bus_id() == old(self).bus_id(),
            final(self).address() == old(self).address(),
    {
        proof {
            seqs::lemma_prefix_refl(self.log@);
        }
        match self.trigger_measure() {
            Ok(u) => u,
            Err(e) => return Err(e),
        };
        let ghost base = old(self).events().push(SensorEvent::Command(spec_trigger_command()));
        proof {
            seqs::lemma_prefix_push(
                old(self).events(),
                old(self).events(),
                SensorEvent::Command(spec_trigger_command()),
            );
        }
        let ghost mut polls: Seq<u8> = Seq::empty();
        let mut attempts: u32 = 0;
        while attempts < max_attempts
            invariant
                call_requires(delay, ()),
                self.events() === base + spec_poll_events(polls),
                base === old(self).events().push(SensorEvent::Command(spec_trigger_command())),
                forall|k: int| 0 <= k < polls.len() ==> spec_status_busy(#[trigger] polls[k]),
                old(self).events().is_prefix_of(self.events()),
                self.bus_id() == old(self).bus_id(),
                self.address() == old(self).address(),
            decreases max_attempts - attempts,
        {
            let ghost cur = self.events();
            delay();
            self.log = Ghost(self.log@.push(SensorEvent::Delay));
            proof {
                seqs::lemma_prefix_push(old(self).events(), cur, SensorEvent::Delay);
            }
            let ghost cur1 = self.events();
            let status = match self.get_status() {
                Ok(s) => s,
                Err(e) => return Err(e),
            };
            proof {
                seqs::lemma_prefix_push(old(self).events(), cur1, SensorEvent::StatusRead(status));
            }
            let ghost cur2 = self.events();
            if !status_busy(status) {
                let frame = match self.read_frame() {
                    Ok(f) => f,
                    Err(e) => return Err(e),
                };
                proof {
                    seqs::lemma_prefix_push(
                        old(self).events(),
                        cur2,
                        SensorEvent::FrameRead(frame@),
                    );
                    let delta = seq![SensorEvent::Command(spec_trigger_command())]
                        + spec_poll_events(polls) + seq![
                        SensorEvent::Delay,
                        SensorEvent::StatusRead(status),
                        SensorEvent::FrameRead(frame@),
                    ];
                    assert(self.events() =~= old(self).events() + delta);
                    seqs::lemma_concat_skip(old(self).events(), delta);
                    assert(spec_measurement_events(delta, spec_decode(frame@)));
                }
                return Ok(SensorReading::decode(frame.as_slice()));
            }
            proof {
                let grown = polls.push(status);
                assert(grown.drop_last() =~= polls);
                assert(spec_poll_events(grown) === spec_poll_events(polls) + seq![
                    SensorEvent::Delay,
                    SensorEvent::StatusRead(status),
                ]);
                assert(self.events() =~= base + spec_poll_events(grown));
                polls = grown;
            }
            attempts = attempts + 1;
        }
        Err(Aht20Error::Timeout)
    }
}

} // verus!
