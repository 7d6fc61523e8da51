use vstd::prelude::*;
use crate::actuators::Light;
use crate::random::{draw_range, rand_range_of};

verus! {

/// Step of the start countdown. Each variant performs its horn and light
/// actions and then hands over to the next one; `Start` is terminal.
#[derive(Debug, Clone, Copy, PartialEq, Eq, Structural)]
pub enum State {
    Warmup,
    Three,
    Two,
    One,
    Start,
}

/// Compiled-in timing profile: the warm-up period is drawn from
/// `[warmup_lo_secs, warmup_hi_secs)` seconds.
#[derive(Debug, Clone, Copy, PartialEq, Eq, Structural)]
pub struct Config {
    pub warmup_lo_secs: u64,
    pub warmup_hi_secs: u64,
}

/// Shortest warm-up period any profile may draw, in seconds.
pub const WARMUP_FLOOR_SECS: u64 = 20;

/// Bound (exclusive) on any profile's warm-up period, in seconds.
pub const WARMUP_CEIL_SECS: u64 = 90;

/// Time between the minute signals, in milliseconds.
pub const MINUTE_MS: u64 = 60_000;

/// A pending countdown step: the state to enter, the seed the run was armed
/// with, the instant (milliseconds of the monotonic clock) it is due, and the
/// run it belongs to.
#[derive(Debug, Clone, Copy, PartialEq, Eq, Structural)]
pub struct Step {
    pub state: State,
    pub seed: u64,
    pub at: u64,
    pub run: u64,
}

/// A horn request: `times` on/off cycles, each holding the horn for `on_ms`.
#[derive(Debug, Clone, Copy, PartialEq, Eq, Structural)]
pub struct Beep {
    pub on_ms: u64,
    pub times: u8,
}

/// Levels for the three lights, written as one unit.
#[derive(Debug, Clone, Copy, PartialEq, Eq, Structural)]
pub struct LightPattern {
    pub l1: Light,
    pub l2: Light,
    pub l3: Light,
}

/// What entering a state asks for: a beep, possibly a light pattern, and the
/// next step to schedule (none after `Start`).
#[derive(Debug, Clone, Copy, PartialEq, Eq, Structural)]
pub struct Plan {
    pub beep: Beep,
    pub lights: Option<LightPattern>,
    pub next: Option<Step>,
}

impl Config {
    /// The profile's warm-up range is non-empty and within
    /// `[WARMUP_FLOOR_SECS, WARMUP_CEIL_SECS)`.
    pub open spec fn wf(&self) -> bool {
        WARMUP_FLOOR_SECS <= self.warmup_lo_secs && self.warmup_lo_secs < self.warmup_hi_secs
            && self.warmup_hi_secs <= WARMUP_CEIL_SECS
    }

    /// The regatta profile: a warm-up of 30 to 59 seconds.
    pub fn regatta() -> (r: Config)
        ensures
            r.wf(),
            r.warmup_lo_secs == 30,
            r.warmup_hi_secs == 60,
    {
        Config { warmup_lo_secs: 30, warmup_hi_secs: 60 }
    }

    /// A profile with the given warm-up range, if that range is admissible.
    pub fn new(warmup_lo_secs: u64, warmup_hi_secs: u64) -> (r: Option<Config>)
        ensures
            r is Some <==> (Config { warmup_lo_secs, warmup_hi_secs }).wf(),
            r is Some ==> r->0 == (Config { warmup_lo_secs, warmup_hi_secs }),
    {
        let c = Config { warmup_lo_secs, warmup_hi_secs };
        if WARMUP_FLOOR_SECS <= warmup_lo_secs && warmup_lo_secs < warmup_hi_secs
            && warmup_hi_secs <= WARMUP_CEIL_SECS {
            Some(c)
        } else {
            None
        }
    }
}

/// How long the horn sounds on entry to `s`, in milliseconds.
pub open spec fn horn_ms(s: State) -> u64 {
    match s {
        State::Warmup => 800,
        State::Three => 1200,
        State::Two => 400,
        State::One => 400,
        State::Start => 2000,
    }
}

/// The light pattern written on entry to `s`; the warm-up leaves them alone.
pub open spec fn pattern_of(s: State) -> Option<LightPattern> {
    match s {
        State::Warmup => None,
        State::Three => Some(LightPattern { l1: Light::On, l2: Light::On, l3: Light::On }),
        State::Two => Some(LightPattern { l1: Light::Off, l2: Light::On, l3: Light::On }),
        State::One => Some(LightPattern { l1: Light::Off, l2: Light::Off, l3: Light::On }),
        State::Start => Some(LightPattern { l1: Light::Off, l2: Light::Off, l3: Light::Off }),
    }
}

/// The state that follows `s` in the countdown.
pub open spec fn successor(s: State) -> Option<State> {
    match s {
        State::Warmup => Some(State::Three),
        State::Three => Some(State::Two),
        State::Two => Some(State::One),
        State::One => Some(State::Start),
        State::Start => None,
    }
}

/// Time from entering `s` to entering its successor, in milliseconds, for a
/// warm-up of `warmup_secs` seconds.
pub open spec fn delay_ms(s: State, warmup_secs: u64) -> int {
    match s {
        State::Warmup => warmup_secs * 1000,
        _ => MINUTE_MS as int,
    }
}

/// `at + d` on the 64-bit monotonic clock, which wraps only past its range.
pub open spec fn later(at: u64, d: int) -> u64 {
    ((at + d) % 0x1_0000_0000_0000_0000) as u64
}

/// What entering `step` asks for, for a warm-up of `warmup_secs` seconds.
pub open spec fn plan_of(step: Step, warmup_secs: u64) -> Plan {
    Plan {
        beep: Beep { on_ms: horn_ms(step.state), times: 1 },
        lights: pattern_of(step.state),
        next: match successor(step.state) {
            Some(n) => Some(
                Step {
                    state: n,
                    seed: step.seed,
                    at: later(step.at, delay_ms(step.state, warmup_secs)),
                    run: step.run,
                },
            ),
            None => None,
        },
    }
}

/// The warm-up period, in seconds, that `cfg` draws for `seed`.
pub open spec fn warmup_secs_of(cfg: Config, seed: u64) -> u64 {
    rand_range_of(seed, cfg.warmup_lo_secs, cfg.warmup_hi_secs)
}

/// `at + d` on the wrapping 64-bit clock.
fn add_wrapping(at: u64, d: u64) -> (r: u64)
    ensures
        r == later(at, d as int),
{
    if at <= u64::MAX - d {
        at + d
    } else {
        let r = d - (u64::MAX - at) - 1;
        r
    }
}

/// The light pattern for `s`.
pub fn lights_for(s: State) -> (r: Option<LightPattern>)
    ensures
        r == pattern_of(s),
{
    match s {
        State::Warmup => None,
        State::Three => Some(LightPattern { l1: Light::On, l2: Light::On, l3: Light::On }),
        State::Two => Some(LightPattern { l1: Light::Off, l2: Light::On, l3: Light::On }),
        State::One => Some(LightPattern { l1: Light::Off, l2: Light::Off, l3: Light::On }),
        State::Start => Some(LightPattern { l1: Light::Off, l2: Light::Off, l3: Light::Off }),
    }
}

/// The step function of the countdown, for a warm-up already drawn:
/// entering `step` sounds the state's beep once, writes its light pattern,
/// and schedules its successor after the state's delay.
pub fn plan_step(step: Step, warmup_secs: u64) -> (r: Plan)
    requires
        warmup_secs <= WARMUP_CEIL_SECS,
    ensures
        r == plan_of(step, warmup_secs),
{
    let lights = lights_for(step.state);
    match step.state {
        State::Warmup => {
            let at = add_wrapping(step.at, warmup_secs * 1000);
            Plan {
                beep: Beep { on_ms: 800, times: 1 },
                lights,
                next: Some(Step { state: State::Three, seed: step.seed, at, run: step.run }),
            }
        },
        State::Three => Plan {
            beep: Beep { on_ms: 1200, times: 1 },
            lights,
            next: Some(Step { state: State::Two, seed: step.seed, at: add_wrapping(step.at, MINUTE_MS), run: step.run }),
        },
        State::Two => Plan {
            beep: Beep { on_ms: 400, times: 1 },
            lights,
            next: Some(Step { state: State::One, seed: step.seed, at: add_wrapping(step.at, MINUTE_MS), run: step.run }),
        },
        State::One => Plan {
            beep: Beep { on_ms: 400, times: 1 },
            lights,
            next: Some(Step { state: State::Start, seed: step.seed, at: add_wrapping(step.at, MINUTE_MS), run: step.run }),
        },
        State::Start => Plan { beep: Beep { on_ms: 2000, times: 1 }, lights, next: None },
    }
}

/// The warm-up period, in seconds, drawn for `seed` under `cfg`.
pub fn warmup_secs(cfg: &Config, seed: u64) -> (r: u64)
    requires
        cfg.wf(),
    ensures
        r == warmup_secs_of(*cfg, seed),
        cfg.warmup_lo_secs <= r < cfg.warmup_hi_secs,
{
    draw_range(seed, cfg.warmup_lo_secs, cfg.warmup_hi_secs)
}

/// The countdown step for `step` under `cfg`: the warm-up period is drawn
/// from the run's seed when the warm-up is entered.
pub fn controller(cfg: &Config, step: Step) -> (r: Plan)
    requires
        cfg.wf(),
    ensures
        r == plan_of(step, warmup_secs_of(*cfg, step.seed)),
{
    match step.state {
        State::Warmup => {
            let w = warmup_secs(cfg, step.seed);
            plan_step(step, w)
        },
        _ => plan_step(step, 0),
    }
}

/// The warm-up period is a function of the seed alone: two draws from the
/// same profile and the same seed agree.
pub proof fn lemma_warmup_pure(cfg: Config, s1: u64, s2: u64)
    requires
        s1 == s2,
    ensures
        warmup_secs_of(cfg, s1) == warmup_secs_of(cfg, s2),
{
}

proof fn lemma_later_add(at: u64, x: int, y: int)
    requires
        0 <= x,
        0 <= y,
    ensures
        later(later(at, x), y) == later(at, x + y),
{
    let m: int = 0x1_0000_0000_0000_0000;
    vstd::arithmetic::div_mod::lemma_add_mod_noop(at + x, y, m);
    vstd::arithmetic::div_mod::lemma_mod_twice(y, m);
    vstd::arithmetic::div_mod::lemma_add_mod_noop(at + x, y % m, m);
}

/// An uninterrupted run armed at instant `at` with seed `seed` goes
/// Warmup, then Three after the drawn warm-up of `w` seconds, then Two, One
/// and Start a minute apart each, and ends there with nothing scheduled.
pub proof fn lemma_uninterrupted_run(cfg: Config, seed: u64, at: u64, run: u64)
    ensures
        ({
            let w = warmup_secs_of(cfg, seed);
            let d = w * 1000;
            let p0 = plan_of(Step { state: State::Warmup, seed, at, run }, w);
            let p1 = plan_of(p0.next->0, w);
            let p2 = plan_of(p1.next->0, w);
            let p3 = plan_of(p2.next->0, w);
            let p4 = plan_of(p3.next->0, w);
            &&& p0.next == Some(Step { state: State::Three, seed, at: later(at, d), run })
            &&& p1.next == Some(Step { state: State::Two, seed, at: later(at, d + 60_000), run })
            &&& p2.next == Some(Step { state: State::One, seed, at: later(at, d + 120_000), run })
            &&& p3.next == Some(Step { state: State::Start, seed, at: later(at, d + 180_000), run })
            &&& p4.next is None
            &&& p4.lights == Some(LightPattern { l1: Light::Off, l2: Light::Off, l3: Light::Off })
        }),
{
    let w = warmup_secs_of(cfg, seed);
    let d = w * 1000;
    lemma_later_add(at, d, 60_000);
    lemma_later_add(at, d + 60_000, 60_000);
    lemma_later_add(at, d + 120_000, 60_000);
}

} // verus!
