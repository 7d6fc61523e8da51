use regatta_timer::countdown::{fire, stop_acknowledgement, Countdown, PollAction, Poller};
use regatta_timer::horn::{BeepCall, Horn, GAP_MS};
use regatta_timer::sequence::{
    controller, plan_step, warmup_secs, Beep, Config, LightPattern, Plan, State, Step,
};
use regatta_timer::{ActuatorSet, Light};

fn pattern(l1: Light, l2: Light, l3: Light) -> Option<LightPattern> {
    Some(LightPattern { l1, l2, l3 })
}

#[test]
fn seed_seven_warmup_is_42_seconds() {
    let cfg = Config::regatta();
    assert_eq!(warmup_secs(&cfg, 7), 42);
}

#[test]
fn seed_seven_transition_instants_and_lights() {
    let cfg = Config::regatta();
    let first = Step { state: State::Warmup, seed: 7, at: 0, run: 0 };
    let p0 = controller(&cfg, first);
    assert_eq!(p0.beep, Beep { on_ms: 800, times: 1 });
    assert_eq!(p0.lights, None);
    let s1 = p0.next.unwrap();
    assert_eq!(s1, Step { state: State::Three, seed: 7, at: 42_000, run: 0 });
    let p1 = controller(&cfg, s1);
    assert_eq!(p1.lights, pattern(Light::On, Light::On, Light::On));
    let s2 = p1.next.unwrap();
    assert_eq!(s2, Step { state: State::Two, seed: 7, at: 102_000, run: 0 });
    let p2 = controller(&cfg, s2);
    assert_eq!(p2.lights, pattern(Light::Off, Light::On, Light::On));
    let s3 = p2.next.unwrap();
    assert_eq!(s3, Step { state: State::One, seed: 7, at: 162_000, run: 0 });
    let p3 = controller(&cfg, s3);
    assert_eq!(p3.lights, pattern(Light::Off, Light::Off, Light::On));
    let s4 = p3.next.unwrap();
    assert_eq!(s4, Step { state: State::Start, seed: 7, at: 222_000, run: 0 });
    let p4 = controller(&cfg, s4);
    assert_eq!(p4.lights, pattern(Light::Off, Light::Off, Light::Off));
    assert_eq!(p4.beep, Beep { on_ms: 2000, times: 1 });
    assert_eq!(p4.next, None);
}

#[test]
fn warmup_is_pure_function_of_seed() {
    let cfg = Config::regatta();
    for seed in [0u64, 1, 7, 1000, u64::MAX] {
        let a = warmup_secs(&cfg, seed);
        let b = warmup_secs(&cfg, seed);
        assert_eq!(a, b);
        assert!(a >= 30 && a < 60);
    }
    let wide = Config::new(20, 90).unwrap();
    assert_eq!(warmup_secs(&wide, 7), 49);
    assert_eq!(warmup_secs(&wide, 7), warmup_secs(&wide, 7));
}

#[test]
fn uninterrupted_run_from_any_seed() {
    let cfg = Config::new(20, 90).unwrap();
    let seed = 12345u64;
    let w = warmup_secs(&cfg, seed);
    assert!(w >= 20 && w < 90);
    let mut step = Step { state: State::Warmup, seed, at: 1_000, run: 3 };
    let mut seen = vec![step.state];
    let mut instants = vec![step.at];
    loop {
        let plan = controller(&cfg, step);
        match plan.next {
            Some(n) => {
                step = n;
                seen.push(n.state);
                instants.push(n.at);
            }
            None => break,
        }
    }
    assert_eq!(seen, vec![State::Warmup, State::Three, State::Two, State::One, State::Start]);
    let d = w * 1000;
    assert_eq!(instants, vec![1_000, 1_000 + d, 61_000 + d, 121_000 + d, 181_000 + d]);
}

#[test]
fn plan_step_uses_given_warmup() {
    let first = Step { state: State::Warmup, seed: 99, at: 500, run: 1 };
    let p = plan_step(first, 42);
    assert_eq!(p.next, Some(Step { state: State::Three, seed: 99, at: 42_500, run: 1 }));
    let p = plan_step(Step { state: State::Two, seed: 99, at: 500, run: 1 }, 42);
    assert_eq!(
        p,
        Plan {
            beep: Beep { on_ms: 400, times: 1 },
            lights: pattern(Light::Off, Light::On, Light::On),
            next: Some(Step { state: State::One, seed: 99, at: 60_500, run: 1 }),
        }
    );
}

#[test]
fn clock_wraps_past_its_range() {
    let p = plan_step(Step { state: State::Three, seed: 0, at: u64::MAX - 9, run: 0 }, 0);
    assert_eq!(p.next.unwrap().at, 60_000 - 10);
}

#[test]
fn config_rejects_bad_ranges() {
    assert_eq!(Config::new(30, 60), Some(Config::regatta()));
    assert_eq!(Config::new(20, 90), Some(Config { warmup_lo_secs: 20, warmup_hi_secs: 90 }));
    assert_eq!(Config::new(19, 60), None);
    assert_eq!(Config::new(30, 91), None);
    assert_eq!(Config::new(40, 40), None);
    assert_eq!(Config::new(50, 40), None);
}

#[test]
fn reset_all_twice_equals_once() {
    let mut a = ActuatorSet { horn: true, light1: false, light2: true, light3: true };
    a.reset_all();
    let once = a;
    a.reset_all();
    assert_eq!(a, once);
    assert!(a.idle());
    assert_eq!(a, ActuatorSet::new());
}

#[test]
fn set_lights_keeps_horn() {
    let mut a = ActuatorSet::new();
    a.set_horn(true);
    a.set_lights(Light::Off, Light::On, Light::On);
    assert_eq!(a, ActuatorSet { horn: true, light1: false, light2: true, light3: true });
    assert!(!a.idle());
}

#[test]
fn stop_resets_outputs_from_every_state() {
    let cfg = Config::regatta();
    for state in [State::Warmup, State::Three, State::Two, State::One, State::Start] {
        let mut poller = Poller::new();
        let mut cd: Countdown<u32> = Countdown::new();
        let mut out = ActuatorSet::new();
        cd.arm(Some(1));
        let step = Step { state, seed: 1, at: 0, run: 0 };
        let plan = fire(&cd, &cfg, step).unwrap();
        out.set_horn(true);
        if let Some(l) = plan.lights {
            out.set_lights(l.l1, l.l2, l.l3);
        }
        cd.advance(0, plan.next.map(|_| 2));
        let action = poller.poll_buttons(&mut cd, false, true, 10);
        if state == State::Start {
            assert!(matches!(action, PollAction::Nothing));
        } else {
            assert!(matches!(action, PollAction::Stop(2)));
        }
        out.reset_all();
        assert!(out.idle());
        assert!(!cd.is_running());
    }
}

#[test]
fn start_while_running_is_noop() {
    let mut poller = Poller::new();
    let mut cd: Countdown<u32> = Countdown::new();
    let action = poller.poll_buttons(&mut cd, true, false, 50);
    let step = match action {
        PollAction::Arm(s) => s,
        _ => panic!("expected a new run"),
    };
    assert_eq!(step, Step { state: State::Warmup, seed: 1, at: 50, run: 0 });
    cd.arm(Some(7));
    for t in 0..5u64 {
        let action = poller.poll_buttons(&mut cd, true, false, 100 + t * 50);
        assert!(matches!(action, PollAction::Nothing));
        assert!(cd.is_current(0));
        assert_eq!(cd.next_run(), 1);
    }
    assert_eq!(poller.count, 6);
}

#[test]
fn stop_takes_precedence_over_start() {
    let mut poller = Poller::new();
    let mut cd: Countdown<u32> = Countdown::new();
    assert!(matches!(poller.poll_buttons(&mut cd, true, true, 0), PollAction::Nothing));
    assert!(!cd.is_running());
    cd.arm(Some(4));
    assert!(matches!(poller.poll_buttons(&mut cd, true, true, 50), PollAction::Stop(4)));
    assert!(!cd.is_running());
}

#[test]
fn neither_button_does_nothing() {
    let mut poller = Poller { count: u64::MAX };
    let mut cd: Countdown<u32> = Countdown::new();
    assert!(matches!(poller.poll_buttons(&mut cd, false, false, 0), PollAction::Nothing));
    assert_eq!(poller.count, 0);
    assert!(!cd.is_running());
}

#[test]
fn stale_step_never_acts() {
    let cfg = Config::regatta();
    let mut poller = Poller::new();
    let mut cd: Countdown<u32> = Countdown::new();
    cd.arm(Some(1));
    let old_step = Step { state: State::Two, seed: 1, at: 0, run: 0 };
    assert!(matches!(poller.poll_buttons(&mut cd, false, true, 0), PollAction::Stop(1)));
    assert_eq!(fire(&cd, &cfg, old_step), None);
    let action = poller.poll_buttons(&mut cd, true, false, 50);
    assert!(matches!(action, PollAction::Arm(Step { run: 1, .. })));
    cd.arm(Some(9));
    assert_eq!(fire(&cd, &cfg, old_step), None);
    assert!(fire(&cd, &cfg, Step { run: 1, ..old_step }).is_some());
}

#[test]
fn failed_schedule_leaves_no_countdown() {
    let mut cd: Countdown<u32> = Countdown::new();
    cd.arm(None);
    assert!(!cd.is_running());
    assert_eq!(cd.next_run(), 1);
}

#[test]
fn countdown_ends_after_start() {
    let cfg = Config::regatta();
    let mut cd: Countdown<u32> = Countdown::new();
    cd.arm(Some(3));
    let plan = fire(&cd, &cfg, Step { state: State::Start, seed: 3, at: 0, run: 0 }).unwrap();
    assert_eq!(plan.next, None);
    cd.advance(0, None);
    assert!(!cd.is_running());
}

#[test]
fn stop_acknowledgement_only_after_cancel() {
    assert_eq!(
        stop_acknowledgement(true),
        Some(BeepCall { delay_ms: 100, on_ms: 300, times: 2 })
    );
    assert_eq!(stop_acknowledgement(false), None);
}

#[test]
fn horn_single_beep() {
    let mut horn = Horn::new();
    let mut out = ActuatorSet::new();
    let next = horn.beep_horn(&mut out, 800, 1);
    assert_eq!(next, Some(BeepCall { delay_ms: 800, on_ms: 800, times: 1 }));
    assert!(out.horn);
    let next = horn.beep_horn(&mut out, 800, 1);
    assert_eq!(next, None);
    assert!(!out.horn);
}

#[test]
fn horn_repeats_counted_cycles() {
    let mut horn = Horn::new();
    let mut out = ActuatorSet::new();
    let mut call = Some(BeepCall { delay_ms: 0, on_ms: 300, times: 3 });
    let mut on_phases = 0;
    let mut gaps = 0;
    while let Some(c) = call {
        if c.delay_ms == GAP_MS {
            gaps += 1;
        }
        call = horn.beep_horn(&mut out, c.on_ms, c.times);
        if out.horn {
            on_phases += 1;
        }
    }
    assert_eq!(on_phases, 3);
    assert_eq!(gaps, 2);
    assert!(!out.horn);
    assert!(!horn.is_high);
}

#[test]
fn horn_zero_cycles_does_nothing() {
    let mut horn = Horn::new();
    let mut out = ActuatorSet::new();
    assert_eq!(horn.beep_horn(&mut out, 300, 0), None);
    assert!(!out.horn);
    assert!(!horn.is_high);
}
