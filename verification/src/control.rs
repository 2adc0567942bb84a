//! The thermal control decisions: the duty-selection threshold table, the
//! per-tick decision whether to write a new duty cycle, and the one control
//! step against the fan controller.
//!
//! The specified threshold table has three levels keyed on the CPU
//! temperature: above 80 degrees Celsius the fan runs at 100 percent, above
//! 60 degrees at 30 percent, at or below 60 degrees it is off.

use vstd::prelude::*;

use crate::emc2101::{Emc2101, Emc2101Error, EMC2101_REG_FAN_SETTING, spec_duty_code};

verus! {

/// Duty percent for a CPU temperature in millidegrees Celsius, per the
/// three-level threshold table.
pub open spec fn spec_select_duty(cpu_milli: u32) -> u8 {
    if cpu_milli > 80000 {
        100u8
    } else if cpu_milli > 60000 {
        30u8
    } else {
        0u8
    }
}

/// Selects the duty percent for a CPU temperature in millidegrees Celsius.
pub fn select_duty(cpu_milli: u32) -> (r: u8)
    ensures
        r == spec_select_duty(cpu_milli),
{
    if cpu_milli > 80000 {
        100
    } else if cpu_milli > 60000 {
        30
    } else {
        0
    }
}

/// One tick's outcome: the duty to hold and whether the device needs a write.
#[derive(Debug, PartialEq, Eq, Structural, Clone, Copy)]
pub struct DutyDecision {
    pub new_duty: u8,
    pub write_needed: bool,
}

/// The decision a tick takes from the last applied duty and the CPU
/// temperature sample, when one could be read: without a sample the duty is
/// held; a write is needed exactly when the duty changes.
pub open spec fn spec_decide(last_duty: u8, cpu_milli: Option<u32>) -> DutyDecision {
    let new_duty = match cpu_milli {
        Some(m) => spec_select_duty(m),
        None => last_duty,
    };
    DutyDecision { new_duty, write_needed: new_duty != last_duty }
}

/// Takes one tick's decision.
pub fn decide(last_duty: u8, cpu_milli: Option<u32>) -> (d: DutyDecision)
    ensures
        d == spec_decide(last_duty, cpu_milli),
{
    let new_duty = match cpu_milli {
        Some(m) => select_duty(m),
        None => last_duty,
    };
    DutyDecision { new_duty, write_needed: new_duty != last_duty }
}

/// Idempotence of the tick: once a tick's duty has been committed, a second
/// tick with the same temperature sample decides that no write is needed.
pub proof fn lemma_tick_idempotent(last_duty: u8, cpu_milli: Option<u32>)
    ensures
        !spec_decide(spec_decide(last_duty, cpu_milli).new_duty, cpu_milli).write_needed,
{
}

/// The control loop's memory: the last duty percent applied to the device.
pub struct ControlState {
    last_duty: u8,
}

impl ControlState {
    pub closed spec fn last(self) -> u8 {
        self.last_duty
    }

    /// Starts from the given default duty; callers pick a nonzero one so the
    /// loop does not begin with a stalled fan.
    pub fn new(initial_duty: u8) -> (r: ControlState)
        ensures
            r.last() == initial_duty,
    {
        ControlState { last_duty: initial_duty }
    }

    /// The last duty percent applied to the device.
    pub fn last_duty(&self) -> (r: u8)
        ensures
            r == self.last(),
    {
        self.last_duty
    }

    /// Records the decision's duty once its device write succeeded; a tick
    /// that decided not to write, or whose write failed, leaves the state as
    /// it was.
    pub fn commit(&mut self, d: &DutyDecision, write_ok: bool)
        ensures
            final(self).last() == (if d.write_needed && write_ok {
                d.new_duty
            } else {
                old(self).last()
            }),
    {
        if d.write_needed && write_ok {
            self.last_duty = d.new_duty;
        }
    }
}

/// One control step against the device: decides from the last applied duty
/// and the CPU temperature sample, writes the fan-setting register only when
/// the duty changed, and commits the new duty only when that write
/// succeeded. Returns whether a write was issued; a failed write surfaces as
/// the device error, with the state held. A tick whose decision needs no
/// write owes success: only the device write itself can fail.
pub fn control_step(emc: &mut Emc2101, state: &mut ControlState, cpu_milli: Option<u32>) -> (r:
    Result<bool, Emc2101Error>)
    ensures
        ({
            let d = spec_decide(old(state).last(), cpu_milli);
            &&& r matches Ok(wrote) ==> wrote == d.write_needed && final(state).last()
                == d.new_duty
            &&& r is Ok && d.write_needed ==> final(emc).writes() === old(emc).writes().push(
                (EMC2101_REG_FAN_SETTING, spec_duty_code(d.new_duty)),
            )
            &&& r is Ok && !d.write_needed ==> final(emc).writes() === old(emc).writes()
            &&& r is Err ==> d.write_needed
            &&& r is Err ==> final(state).last() == old(state).last() && final(emc).writes()
                === old(emc).writes()
            &&& r matches Err(e) ==> e is AhtI2c
        }),
        final(emc).bus_id() == old(emc).bus_id(),
        final(emc).address() == old(emc).address(),
{
    let d = decide(state.last_duty, cpu_milli);
    if d.write_needed {
        match emc.set_duty_cycle(d.new_duty) {
            Ok(u) => u,
            Err(e) => return Err(e),
        };
        state.commit(&d, true);
        Ok(true)
    } else {
        proof {
            assert(d.new_duty == state.last_duty);
        }
        Ok(false)
    }
}

} // verus!
