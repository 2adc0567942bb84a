//! Scaling of raw ADC channel codes into physical micro-units: pure
//! arithmetic, no I/O.
//!
//! The reference full scale is 6.144 units over a 2048-count half range, so
//! one raw count stands for exactly 3000 micro-units. The per-channel roles
//! are fixed: channel 0 is a current through a 2.5 shunt divisor, channel 1
//! a direct current, channel 2 a voltage through a 33.24/3.24 resistor
//! divider, channel 3 a direct voltage doubled. All results are exact in
//! integer micro-units, up to the one truncating division of channel 2.

use vstd::prelude::*;

verus! {

/// One scaled channel sample: a current in microamperes or a voltage in
/// microvolts, depending on the channel's fixed role.
#[derive(Debug, PartialEq, Eq, Structural, Clone, Copy)]
pub enum BoardAdcData {
    MicroAmps(u64),
    MicroVolts(u64),
}

/// The scaled value of one channel's raw code:
/// channel 0: `raw * 3000 / 2.5` microamperes, exactly `raw * 1200`;
/// channel 1: `raw * 3000` microamperes;
/// channel 2: `raw * 3000 * 3324 / 324` microvolts, exactly `raw * 277000 / 9`;
/// channel 3: `raw * 3000 * 2` microvolts;
/// any other channel is invalid and has no value.
pub open spec fn spec_channel_scaled(raw: u16, ch: u8) -> Option<BoardAdcData> {
    if ch == 0 {
        Some(BoardAdcData::MicroAmps((raw * 1200) as u64))
    } else if ch == 1 {
        Some(BoardAdcData::MicroAmps((raw * 3000) as u64))
    } else if ch == 2 {
        Some(BoardAdcData::MicroVolts(((raw * 277000) / 9) as u64))
    } else if ch == 3 {
        Some(BoardAdcData::MicroVolts((raw * 6000) as u64))
    } else {
        None
    }
}

/// The bare scaled number of a valid channel, without its unit.
pub open spec fn spec_channel_value(raw: u16, ch: u8) -> u64 {
    match spec_channel_scaled(raw, ch) {
        Some(BoardAdcData::MicroAmps(v)) => v,
        Some(BoardAdcData::MicroVolts(v)) => v,
        None => 0u64,
    }
}

/// Scales one channel's raw code to micro-units; channels outside 0-3 are
/// invalid and yield nothing.
pub fn channel_scaled(raw: u16, ch: u8) -> (r: Option<BoardAdcData>)
    ensures
        r == spec_channel_scaled(raw, ch),
{
    if ch == 0 {
        Some(BoardAdcData::MicroAmps(raw as u64 * 1200))
    } else if ch == 1 {
        Some(BoardAdcData::MicroAmps(raw as u64 * 3000))
    } else if ch == 2 {
        proof {
            vstd::arithmetic::div_mod::lemma_div_nonincreasing(raw * 277000, 9);
        }
        Some(BoardAdcData::MicroVolts(raw as u64 * 277000 / 9))
    } else if ch == 3 {
        Some(BoardAdcData::MicroVolts(raw as u64 * 6000))
    } else {
        None
    }
}

/// Per-channel conversion of a raw ADC code.
pub trait BoardAdc {
    spec fn spec_to_humman(&self, ch: u8) -> Option<BoardAdcData>;

    spec fn spec_to_data(&self, ch: u8) -> u64;

    /// The scaled sample with its unit; invalid channels yield nothing.
    fn to_humman(&self, ch: u8) -> (r: Option<BoardAdcData>)
        ensures
            r == self.spec_to_humman(ch),
    ;

    /// The bare scaled number; only the four valid channels have one.
    fn to_data(&self, ch: u8) -> (r: u64)
        requires
            ch < 4,
        ensures
            r == self.spec_to_data(ch),
    ;
}

impl BoardAdc for u16 {
    open spec fn spec_to_humman(&self, ch: u8) -> Option<BoardAdcData> {
        spec_channel_scaled(*self, ch)
    }

    open spec fn spec_to_data(&self, ch: u8) -> u64 {
        spec_channel_value(*self, ch)
    }

    fn to_humman(&self, ch: u8) -> (r: Option<BoardAdcData>) {
        channel_scaled(*self, ch)
    }

    fn to_data(&self, ch: u8) -> (r: u64) {
        match channel_scaled(*self, ch) {
            Some(BoardAdcData::MicroAmps(v)) => v,
            Some(BoardAdcData::MicroVolts(v)) => v,
            None => 0,
        }
    }
}

} // verus!
