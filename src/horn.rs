use vstd::prelude::*;
use crate::actuators::ActuatorSet;

verus! {

/// Pause between two cycles of a repeated beep, in milliseconds.
pub const GAP_MS: u64 = 50;

/// A continuation of a beep: run the horn task again after `delay_ms` with
/// `times` cycles left, counting the one it completes or starts.
#[derive(Debug, Clone, Copy, PartialEq, Eq, Structural)]
pub struct BeepCall {
    pub delay_ms: u64,
    pub on_ms: u64,
    pub times: u8,
}

/// The horn's two-phase waveform: whether the current cycle is in its
/// on-phase.
#[derive(Debug, Clone, Copy, PartialEq, Eq, Structural)]
pub struct Horn {
    pub is_high: bool,
}

/// The continuation that a horn invocation in phase `is_high` schedules for
/// a beep of `on_ms` with `times` cycles left.
pub open spec fn horn_next(is_high: bool, on_ms: u64, times: u8) -> Option<BeepCall> {
    if !is_high {
        if times == 0 {
            None
        } else {
            Some(BeepCall { delay_ms: on_ms, on_ms, times })
        }
    } else if times > 1 {
        Some(BeepCall { delay_ms: GAP_MS, on_ms, times: (times - 1) as u8 })
    } else {
        None
    }
}

impl Horn {
    /// A horn at rest.
    pub fn new() -> (r: Horn)
        ensures
            !r.is_high,
    {
        Horn { is_high: false }
    }

    /// One invocation of the horn task. At rest with cycles left, it turns
    /// the horn on and asks to be run again once `on_ms` has passed. In the
    /// on-phase it turns the horn off, and, if more cycles remain after this
    /// one, asks to be run again after `GAP_MS` with one cycle fewer.
    pub fn beep_horn(&mut self, out: &mut ActuatorSet, on_ms: u64, times: u8) -> (r: Option<
        BeepCall,
    >)
        ensures
            r == horn_next(old(self).is_high, on_ms, times),
            !old(self).is_high && times == 0 ==> *final(self) == *old(self) && *final(out)
                == *old(out),
            !old(self).is_high && times > 0 ==> final(self).is_high && *final(out) == (
            ActuatorSet { horn: true, ..*old(out) }),
            old(self).is_high ==> !final(self).is_high && *final(out) == (ActuatorSet {
                horn: false,
                ..*old(out)
            }),
    {
        if !self.is_high {
            if times == 0 {
                return None;
            }
            self.is_high = true;
            out.set_horn(true);
            Some(BeepCall { delay_ms: on_ms, on_ms, times })
        } else {
            self.is_high = false;
            out.set_horn(false);
            if times > 1 {
                Some(BeepCall { delay_ms: GAP_MS, on_ms, times: times - 1 })
            } else {
                None
            }
        }
    }
}

/// How many times the horn is turned on by the chain of invocations that
/// starts in phase `is_high` with `times` cycles left, each invocation
/// running the continuation the previous one asked for.
pub open spec fn on_phases(is_high: bool, on_ms: u64, times: u8) -> nat
    decreases 2 * times + (if is_high { 0int } else { 1int }),
{
    if !is_high {
        if times == 0 {
            0
        } else {
            1 + on_phases(true, on_ms, times)
        }
    } else {
        match horn_next(true, on_ms, times) {
            Some(c) => if c.times < times { on_phases(false, c.on_ms, c.times) } else { 0 },
            None => 0,
        }
    }
}

/// A beep asked for with `times` cycles, from a horn at rest, sounds the
/// horn exactly `times` times before the chain ends.
pub proof fn lemma_beep_cycles(on_ms: u64, times: u8)
    ensures
        on_phases(false, on_ms, times) == times,
    decreases times,
{
    if times > 0 {
        assert(on_phases(false, on_ms, times) == 1 + on_phases(true, on_ms, times));
        if times > 1 {
            lemma_beep_cycles(on_ms, (times - 1) as u8);
            assert(on_phases(true, on_ms, times) == on_phases(false, on_ms, (times - 1) as u8));
        } else {
            assert(on_phases(true, on_ms, times) == 0);
        }
    }
}

} // verus!
