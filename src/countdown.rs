use vstd::prelude::*;
use crate::actuators::{is_idle, reset_of, ActuatorSet};
use crate::horn::BeepCall;
use crate::sequence::{controller, plan_of, warmup_secs_of, Config, Plan, State, Step};

verus! {

/// The pending step of a countdown: the run it belongs to and the
/// scheduler's cancellation handle for it.
pub struct Armed<H> {
    pub run: u64,
    pub handle: H,
}

/// Ownership of the countdown: at most one pending step, always the one most
/// recently scheduled for the newest run. Runs are numbered in the order they
/// are armed.
pub struct Countdown<H> {
    slot: Option<Armed<H>>,
    runs: u64,
}

/// The number of the run armed before `issued` runs had been armed.
pub open spec fn last_run(issued: u64) -> u64 {
    if issued == 0 {
        u64::MAX
    } else {
        (issued - 1) as u64
    }
}

/// The slot holding `handle`, if any, for run `run`.
pub open spec fn armed_as<H>(run: u64, handle: Option<H>) -> Option<Armed<H>> {
    match handle {
        Some(h) => Some(Armed { run, handle: h }),
        None => None,
    }
}

impl<H> Countdown<H> {
    /// The pending step, if a countdown is in progress.
    pub closed spec fn pending(&self) -> Option<Armed<H>> {
        self.slot
    }

    /// The number of runs armed so far (wrapping).
    pub closed spec fn issued(&self) -> u64 {
        self.runs
    }

    /// The same ownership with nothing pending.
    pub closed spec fn cleared(self) -> Self {
        Countdown { slot: None, runs: self.runs }
    }

    /// Whatever is pending belongs to the newest run.
    pub open spec fn wf(&self) -> bool {
        self.pending() matches Some(a) ==> a.run == last_run(self.issued())
    }

    /// Whether a step of `run` is the pending one.
    pub open spec fn current(&self, run: u64) -> bool {
        self.pending() matches Some(a) && a.run == run
    }

    /// Ownership at boot: no countdown in progress.
    pub fn new() -> (r: Self)
        ensures
            r.wf(),
            r.pending() is None,
            r.issued() == 0,
    {
        Countdown { slot: None, runs: 0 }
    }

    /// Whether a countdown is in progress.
    pub fn is_running(&self) -> (r: bool)
        ensures
            r == self.pending() is Some,
    {
        self.slot.is_some()
    }

    /// Whether a step of `run` is the pending one; a step of any other run
    /// is stale and must not be acted upon.
    pub fn is_current(&self, run: u64) -> (r: bool)
        ensures
            r == self.current(run),
    {
        match &self.slot {
            Some(a) => a.run == run,
            None => false,
        }
    }

    /// The number the next run to be armed will carry.
    pub fn next_run(&self) -> (r: u64)
        ensures
            r == self.issued(),
    {
        self.runs
    }

    /// Starts a new run whose first step was scheduled under `handle`
    /// (`None` when the scheduler had no room, which leaves no countdown in
    /// progress). The run gets the number `next_run` gave.
    pub fn arm(&mut self, handle: Option<H>)
        requires
            old(self).pending() is None,
        ensures
            final(self).wf(),
            final(self).pending() == armed_as(old(self).issued(), handle),
            final(self).issued() == later_run(old(self).issued()),
    {
        let run = self.runs;
        self.runs = self.runs.wrapping_add(1);
        self.slot = match handle {
            Some(h) => Some(Armed { run, handle: h }),
            None => None,
        };
    }

    /// After a step of the current run fired: keep the handle of the run's
    /// next step, or end the run when there is none.
    pub fn advance(&mut self, run: u64, next: Option<H>)
        requires
            old(self).wf(),
            old(self).current(run),
        ensures
            final(self).wf(),
            final(self).pending() == armed_as(run, next),
            final(self).issued() == old(self).issued(),
    {
        self.slot = match next {
            Some(h) => Some(Armed { run, handle: h }),
            None => None,
        };
    }

    /// Ends the countdown in progress, if any, handing out its pending
    /// step's handle for cancellation.
    pub fn take(&mut self) -> (r: Option<H>)
        requires
            old(self).wf(),
        ensures
            final(self).wf(),
            *final(self) == old(self).cleared(),
            final(self).pending() is None,
            final(self).issued() == old(self).issued(),
            r == match old(self).pending() {
                Some(a) => Some(a.handle),
                None => None,
            },
    {
        match self.slot.take() {
            Some(a) => Some(a.handle),
            None => None,
        }
    }
}

/// The run count after one more run is armed.
pub open spec fn later_run(issued: u64) -> u64 {
    if issued == u64::MAX {
        0
    } else {
        (issued + 1) as u64
    }
}

/// What a poll tick asks of the task that runs it.
pub enum PollAction<H> {
    /// Nothing to do.
    Nothing,
    /// The countdown was stopped: reset the outputs and cancel this handle.
    Stop(H),
    /// Schedule this first step now, then `arm` the countdown with it.
    Arm(Step),
}

/// The periodic button poller: a tick counter that seeds each run.
#[derive(Debug, Clone, Copy, PartialEq, Eq, Structural)]
pub struct Poller {
    pub count: u64,
}

/// The tick counter after one more tick (wrapping).
pub open spec fn next_count(count: u64) -> u64 {
    if count == u64::MAX {
        0
    } else {
        (count + 1) as u64
    }
}

/// Ownership after a tick that saw the stop button as `stop`.
pub open spec fn polled<H>(cd: Countdown<H>, stop: bool) -> Countdown<H> {
    if stop {
        cd.cleared()
    } else {
        cd
    }
}

/// What a tick asks for, given the buttons, ownership before it, and the
/// first step a new run would take. Stop wins over start.
pub open spec fn poll_action<H>(cd: Countdown<H>, start: bool, stop: bool, first: Step) -> PollAction<H> {
    if stop {
        match cd.pending() {
            Some(a) => PollAction::Stop(a.handle),
            None => PollAction::Nothing,
        }
    } else if start && cd.pending() is None {
        PollAction::Arm(first)
    } else {
        PollAction::Nothing
    }
}

/// Ownership after a series of ticks, each giving the sampled
/// `(start, stop)` levels, with no run armed in between.
pub open spec fn after_polls<H>(cd: Countdown<H>, samples: Seq<(bool, bool)>) -> Countdown<H>
    decreases samples.len(),
{
    if samples.len() == 0 {
        cd
    } else {
        after_polls(polled(cd, samples[0].1), samples.drop_first())
    }
}

impl Poller {
    /// A poller that has not ticked yet.
    pub fn new() -> (r: Poller)
        ensures
            r.count == 0,
    {
        Poller { count: 0 }
    }

    /// One tick of the poller, at `instant`, with the sampled levels of the
    /// start and stop buttons. The tick counter advances first. A pressed
    /// stop ends the countdown in progress, if any. Otherwise a pressed start
    /// with no countdown in progress asks for a new run whose first step is
    /// the warm-up, due now and seeded with the tick counter. A start while a
    /// countdown runs changes nothing.
    pub fn poll_buttons<H>(&mut self, cd: &mut Countdown<H>, start: bool, stop: bool, instant: u64) -> (r: PollAction<H>)
        requires
            old(cd).wf(),
        ensures
            final(self).count == next_count(old(self).count),
            final(cd).wf(),
            *final(cd) == polled(*old(cd), stop),
            r == poll_action(
                *old(cd),
                start,
                stop,
                Step { state: State::Warmup, seed: final(self).count, at: instant, run: old(cd).issued() },
            ),
    {
        self.count = self.count.wrapping_add(1);
        if stop {
            match cd.take() {
                Some(h) => PollAction::Stop(h),
                None => PollAction::Nothing,
            }
        } else if start && !cd.is_running() {
            PollAction::Arm(Step { state: State::Warmup, seed: self.count, at: instant, run: cd.next_run() })
        } else {
            PollAction::Nothing
        }
    }
}

/// Delay from a successful stop to its acknowledgement beep, in milliseconds.
pub const ACK_DELAY_MS: u64 = 100;

/// The beep that acknowledges a stop, given whether cancelling the pending
/// step succeeded: two short cycles when it did, nothing when the step had
/// already fired.
pub fn stop_acknowledgement(cancelled: bool) -> (r: Option<BeepCall>)
    ensures
        cancelled ==> r == Some(BeepCall { delay_ms: ACK_DELAY_MS, on_ms: 300, times: 2 }),
        !cancelled ==> r is None,
{
    if cancelled {
        Some(BeepCall { delay_ms: ACK_DELAY_MS, on_ms: 300, times: 2 })
    } else {
        None
    }
}

/// A countdown step of `step` fires: when it belongs to the run in progress,
/// the plan for entering its state; when the run was stopped or replaced
/// since it was scheduled, nothing, so a stale step never acts.
pub fn fire<H>(cd: &Countdown<H>, cfg: &Config, step: Step) -> (r: Option<Plan>)
    requires
        cfg.wf(),
    ensures
        cd.current(step.run) ==> r == Some(plan_of(step, warmup_secs_of(*cfg, step.seed))),
        !cd.current(step.run) ==> r is None,
{
    if cd.is_current(step.run) {
        Some(controller(cfg, step))
    } else {
        None
    }
}

/// At most one countdown is armed at a time: only the newest run can hold
/// the pending step, so no two runs are current together.
pub proof fn lemma_single_flight<H>(cd: Countdown<H>, r1: u64, r2: u64)
    requires
        cd.wf(),
        cd.current(r1),
        cd.current(r2),
    ensures
        r1 == r2,
        r1 == last_run(cd.issued()),
{
}

/// A stop seen while a countdown runs, whichever state it is in, hands out
/// the pending handle, leaves nothing pending, and the one reset that
/// follows brings every output to idle, whatever the outputs held.
pub proof fn lemma_stop_resets<H>(cd: Countdown<H>, start: bool, first: Step, out: ActuatorSet)
    requires
        cd.wf(),
        cd.pending() is Some,
    ensures
        poll_action(cd, start, true, first) == PollAction::<H>::Stop(cd.pending()->0.handle),
        polled(cd, true).pending() is None,
        is_idle(reset_of(out)),
{
}

/// Any series of poll ticks keeps ownership well formed.
pub proof fn lemma_polls_keep_wf<H>(cd: Countdown<H>, samples: Seq<(bool, bool)>)
    requires
        cd.wf(),
    ensures
        after_polls(cd, samples).wf(),
    decreases samples.len(),
{
    if samples.len() > 0 {
        lemma_polls_keep_wf(polled(cd, samples[0].1), samples.drop_first());
    }
}

/// Pressing start, any number of times, while a countdown runs and stop is
/// not pressed leaves ownership, and so the pending step, as it was.
pub proof fn lemma_start_while_running<H>(cd: Countdown<H>, samples: Seq<(bool, bool)>)
    requires
        cd.pending() is Some,
        forall|i: int| 0 <= i < samples.len() ==> !(#[trigger] samples[i]).1,
    ensures
        after_polls(cd, samples) == cd,
    decreases samples.len(),
{
    if samples.len() > 0 {
        assert(!samples[0].1);
        let rest = samples.drop_first();
        assert forall|i: int| 0 <= i < rest.len() implies !(#[trigger] rest[i]).1 by {
            assert(rest[i] == samples[i + 1]);
        }
        lemma_start_while_running(cd, rest);
    }
}

} // verus!
