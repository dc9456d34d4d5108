//! The event state machine.
//!
//! The detector never touches hardware. After each step it names the one
//! reading it needs next (`Request`); the driver obtains that reading and
//! hands it back as an `Input`. The step answers with the outputs to apply.

use vstd::prelude::*;
use crate::debounce::{advance, Debounce, Verdict, TRIGGER_AFTER, WARNING_AFTER};
use crate::indicator::{indicate, pattern, EventState, Leds};
use crate::sample::SensorSample;

verus! {

/// The timer's period in milliseconds.
pub const TICK_PERIOD_MS: u32 = 1;

/// The fixed dead time between the settle gate and the timed loop, in
/// milliseconds.
pub const DEAD_TIME_MS: u32 = 10;

/// The green output toggles once every this many ticks.
pub const BLINK_TICKS: u32 = 40;

/// The timed loop does not end before this many ticks have elapsed.
pub const MIN_TICKS: u64 = 1;

/// Where the control loop stands.
#[derive(Clone, Copy, Debug, PartialEq, Eq, Structural)]
pub enum Phase {
    /// Sampling and counting the run of qualifying iterations.
    Monitoring,
    /// The event has fired; sampling until the condition clears once.
    Settling,
    /// Waiting out the fixed dead time.
    DeadTime,
    /// In the timed loop, polling the timer.
    TimerPoll,
    /// In the timed loop, a tick was seen; its sample is due, and the
    /// counters advance when it arrives.
    TimerSample,
    /// The event is over; sampling until the condition clears again.
    Draining,
    /// Holding until the reset input reads high.
    AwaitingReset,
}

/// The one reading that the detector needs next.
#[derive(Clone, Copy, Debug, PartialEq, Eq, Structural)]
pub enum Request {
    /// Read both analog channels.
    Sample,
    /// Wait `DEAD_TIME_MS`.
    Delay,
    /// Poll the timer once, without blocking.
    PollTimer,
    /// Read the level of the reset input.
    Button,
}

/// A reading handed to the detector.
#[derive(Clone, Copy, Debug, PartialEq, Eq, Structural)]
pub enum Input {
    /// Both analog channels, scaled.
    Sample(SensorSample),
    /// The dead time has passed.
    DelayElapsed,
    /// One poll of the timer: whether a tick was ready.
    Timer(bool),
    /// The level of the reset input: whether it reads high.
    Button(bool),
}

/// What the driver does with the timer after a step.
#[derive(Clone, Copy, Debug, PartialEq, Eq, Structural)]
pub enum TimerCommand {
    /// Leave the timer as it is.
    Keep,
    /// Start the timer with a period of `TICK_PERIOD_MS`.
    Start,
    /// Stop the timer.
    Cancel,
}

/// The outputs of one step.
#[derive(Clone, Copy, Debug, PartialEq, Eq, Structural)]
pub struct Effects {
    /// The levels to drive on the indicator.
    pub leds: Leds,
    /// What to do with the timer.
    pub timer: TimerCommand,
    /// The measured duration in ticks, when an event has just ended.
    pub report: Option<u64>,
    /// The reading to hand to the next step.
    pub next: Request,
}

/// Why a step was refused.
#[derive(Clone, Copy, Debug, PartialEq, Eq, Structural)]
pub enum StepError {
    /// The input is not the reading that the detector had asked for.
    UnexpectedInput,
}

/// The detector as a mathematical value.
pub ghost struct DetectorView {
    pub phase: Phase,
    /// The debounce counter.
    pub count: nat,
    /// The ticks elapsed in the timed loop.
    pub ticks: nat,
    /// The ticks since the green output last toggled.
    pub blink: nat,
    /// The level of the green flip-flop.
    pub green: bool,
}

/// The tick count after one more tick. It stops at the largest value that
/// the counter can hold.
pub open spec fn bump(ticks: nat) -> nat {
    if ticks < u64::MAX {
        ticks + 1
    } else {
        ticks
    }
}

impl DetectorView {
    /// The state in which every detector starts.
    pub open spec fn initial() -> DetectorView {
        DetectorView { phase: Phase::Monitoring, count: 0, ticks: 0, blink: 0, green: true }
    }

    /// Whether the control loop is inside the timed loop.
    pub open spec fn timing(self) -> bool {
        self.phase == Phase::TimerPoll || self.phase == Phase::TimerSample
    }

    /// The invariant of the control loop: the debounce counter lives only
    /// while monitoring, the tick and blink counters only in the timed loop.
    pub open spec fn wf(self) -> bool {
        &&& self.count <= TRIGGER_AFTER
        &&& self.ticks <= u64::MAX
        &&& self.blink < BLINK_TICKS
        &&& self.phase != Phase::Monitoring ==> self.count == 0
        &&& !self.timing() ==> self.ticks == 0 && self.blink == 0 && self.green
    }

    /// The state that an observer sees.
    pub open spec fn state(self) -> EventState {
        match self.phase {
            Phase::Monitoring => if self.count > WARNING_AFTER {
                EventState::Warning
            } else {
                EventState::Idle
            },
            Phase::Settling | Phase::DeadTime | Phase::TimerPoll | Phase::TimerSample =>
                EventState::ActiveEvent,
            Phase::Draining | Phase::AwaitingReset => EventState::Latched,
        }
    }

    /// The indicator outputs of this state.
    pub open spec fn leds(self) -> Leds {
        pattern(self.state(), self.green)
    }

    /// The reading that this state waits for.
    pub open spec fn request(self) -> Request {
        match self.phase {
            Phase::Monitoring | Phase::Settling | Phase::TimerSample | Phase::Draining =>
                Request::Sample,
            Phase::DeadTime => Request::Delay,
            Phase::TimerPoll => Request::PollTimer,
            Phase::AwaitingReset => Request::Button,
        }
    }

    /// Whether `input` is the reading that this state waits for.
    pub open spec fn accepts(self, input: Input) -> bool {
        match input {
            Input::Sample(_) => self.request() == Request::Sample,
            Input::DelayElapsed => self.request() == Request::Delay,
            Input::Timer(_) => self.request() == Request::PollTimer,
            Input::Button(_) => self.request() == Request::Button,
        }
    }

    /// Whether the timed loop goes on with this sample: one reading is below
    /// the threshold, or too few ticks have elapsed.
    pub open spec fn keeps_timing(self, sample: SensorSample) -> bool {
        sample.below() || self.ticks < MIN_TICKS
    }

    /// The counters after one more tick: the elapsed time grows by one, and
    /// the blink counter either grows by one or, on reaching `BLINK_TICKS`,
    /// starts over and toggles the green level.
    pub open spec fn counted(self) -> DetectorView {
        if self.blink + 1 == BLINK_TICKS {
            DetectorView { ticks: bump(self.ticks), blink: 0, green: !self.green, ..self }
        } else {
            DetectorView { ticks: bump(self.ticks), blink: self.blink + 1, ..self }
        }
    }

    /// The state as it rests outside the timed loop, in `phase`.
    pub open spec fn rest(phase: Phase) -> DetectorView {
        DetectorView { phase, count: 0, ticks: 0, blink: 0, green: true }
    }

    /// The state after `input`. An input that was not asked for leaves the
    /// state as it is.
    pub open spec fn next(self, input: Input) -> DetectorView {
        match (self.phase, input) {
            (Phase::Monitoring, Input::Sample(s)) => {
                let run = advance(self.count, s.above());
                if run > TRIGGER_AFTER {
                    Self::rest(Phase::Settling)
                } else {
                    DetectorView { count: run, ..self }
                }
            },
            (Phase::Settling, Input::Sample(s)) => if s.above() {
                self
            } else {
                Self::rest(Phase::DeadTime)
            },
            (Phase::DeadTime, Input::DelayElapsed) => Self::rest(Phase::TimerPoll),
            (Phase::TimerPoll, Input::Timer(fired)) => if fired {
                DetectorView { phase: Phase::TimerSample, ..self }
            } else {
                self
            },
            (Phase::TimerSample, Input::Sample(s)) => if self.counted().keeps_timing(s) {
                DetectorView { phase: Phase::TimerPoll, ..self.counted() }
            } else if s.above() {
                Self::rest(Phase::Draining)
            } else {
                Self::rest(Phase::AwaitingReset)
            },
            (Phase::Draining, Input::Sample(s)) => if s.above() {
                self
            } else {
                Self::rest(Phase::AwaitingReset)
            },
            (Phase::AwaitingReset, Input::Button(high)) => if high {
                Self::rest(Phase::Monitoring)
            } else {
                self
            },
            _ => self,
        }
    }

    /// Whether `input` ends the timed loop.
    pub open spec fn ends_event(self, input: Input) -> bool {
        self.phase == Phase::TimerSample && match input {
            Input::Sample(s) => !self.counted().keeps_timing(s),
            _ => false,
        }
    }

    /// The timer command that goes with `input`: the timer starts when the
    /// dead time is over and stops when the timed loop ends.
    pub open spec fn timer_command(self, input: Input) -> TimerCommand {
        if self.phase == Phase::DeadTime && input == Input::DelayElapsed {
            TimerCommand::Start
        } else if self.ends_event(input) {
            TimerCommand::Cancel
        } else {
            TimerCommand::Keep
        }
    }

    /// The outputs of the step on `input`.
    pub open spec fn effects(self, input: Input) -> Effects {
        Effects {
            leds: self.next(input).leds(),
            timer: self.timer_command(input),
            report: if self.ends_event(input) {
                Some(self.counted().ticks as u64)
            } else {
                None
            },
            next: self.next(input).request(),
        }
    }

    /// The state after each of `inputs` in turn.
    pub open spec fn run(self, inputs: Seq<Input>) -> DetectorView
        decreases inputs.len(),
    {
        if inputs.len() == 0 {
            self
        } else {
            self.run(inputs.drop_last()).next(inputs.last())
        }
    }

    /// The durations reported while each of `inputs` is taken in turn, in
    /// the order in which the events ended.
    pub open spec fn reports(self, inputs: Seq<Input>) -> Seq<u64>
        decreases inputs.len(),
    {
        if inputs.len() == 0 {
            Seq::empty()
        } else {
            let earlier = self.reports(inputs.drop_last());
            match self.run(inputs.drop_last()).effects(inputs.last()).report {
                Some(ticks) => earlier.push(ticks),
                None => earlier,
            }
        }
    }

    /// The state after one timer tick that brings `sample`.
    pub open spec fn tick(self, sample: SensorSample) -> DetectorView {
        self.next(Input::Timer(true)).next(Input::Sample(sample))
    }

    /// The state after one timer tick for each of `samples` in turn.
    pub open spec fn ticked(self, samples: Seq<SensorSample>) -> DetectorView
        decreases samples.len(),
    {
        if samples.len() == 0 {
            self
        } else {
            self.ticked(samples.drop_last()).tick(samples.last())
        }
    }
}

/// The state of the control loop.
#[derive(Clone, Copy, Debug)]
pub struct Detector {
    phase: Phase,
    debounce: Debounce,
    ticks: u64,
    blink: u32,
    green: bool,
}

impl View for Detector {
    type V = DetectorView;

    closed spec fn view(&self) -> DetectorView {
        DetectorView {
            phase: self.phase,
            count: self.debounce@,
            ticks: self.ticks as nat,
            blink: self.blink as nat,
            green: self.green,
        }
    }
}

impl Detector {
    /// The detector's invariant, which `new` establishes and every step
    /// keeps.
    pub open spec fn wf(&self) -> bool {
        self@.wf()
    }

    /// A detector at rest: monitoring, with the debounce counter at zero.
    pub fn new() -> (out: Detector)
        ensures
            out@ == DetectorView::initial(),
            out.wf(),
    {
        Detector { phase: Phase::Monitoring, debounce: Debounce::new(), ticks: 0, blink: 0, green: true }
    }

    /// Where the control loop stands.
    pub fn phase(&self) -> (out: Phase)
        ensures
            out == self@.phase,
    {
        self.phase
    }

    /// The debounce counter.
    pub fn debounce_count(&self) -> (out: u32)
        ensures
            out == self@.count,
    {
        self.debounce.count()
    }

    /// The ticks elapsed in the timed loop; zero outside it.
    pub fn elapsed_ticks(&self) -> (out: u64)
        ensures
            out == self@.ticks,
    {
        self.ticks
    }

    /// The ticks since the green output last toggled.
    pub fn blink_phase(&self) -> (out: u32)
        ensures
            out == self@.blink,
    {
        self.blink
    }

    /// The state that an observer sees.
    pub fn state(&self) -> (out: EventState)
        ensures
            out == self@.state(),
    {
        match self.phase {
            Phase::Monitoring => if self.debounce.count() > WARNING_AFTER {
                EventState::Warning
            } else {
                EventState::Idle
            },
            Phase::Settling | Phase::DeadTime | Phase::TimerPoll | Phase::TimerSample =>
                EventState::ActiveEvent,
            Phase::Draining | Phase::AwaitingReset => EventState::Latched,
        }
    }

    /// The indicator outputs of the current state.
    pub fn leds(&self) -> (out: Leds)
        ensures
            out == self@.leds(),
    {
        indicate(self.state(), self.green)
    }

    /// The reading that the detector waits for.
    pub fn request(&self) -> (out: Request)
        ensures
            out == self@.request(),
    {
        match self.phase {
            Phase::Monitoring | Phase::Settling | Phase::TimerSample | Phase::Draining =>
                Request::Sample,
            Phase::DeadTime => Request::Delay,
            Phase::TimerPoll => Request::PollTimer,
            Phase::AwaitingReset => Request::Button,
        }
    }

    /// Puts the detector at rest in `phase`, outside the timed loop.
    fn settle_in(&mut self, phase: Phase)
        ensures
            final(self)@ == DetectorView::rest(phase),
    {
        self.phase = phase;
        self.debounce.reset();
        self.ticks = 0;
        self.blink = 0;
        self.green = true;
    }

    /// Takes one reading and moves the state machine by one transition.
    ///
    /// The input must be the reading that was asked for; any other is
    /// refused and changes nothing. On success the result holds the
    /// indicator levels of the new state, the timer command, the measured
    /// duration if the event has just ended, and the reading to hand in
    /// next.
    pub fn step(&mut self, input: Input) -> (out: Result<Effects, StepError>)
        requires
            old(self).wf(),
        ensures
            final(self).wf(),
            old(self)@.accepts(input) ==> final(self)@ == old(self)@.next(input) && out == Ok::<
                Effects,
                StepError,
            >(old(self)@.effects(input)),
            !old(self)@.accepts(input) ==> final(self)@ == old(self)@ && out == Err::<
                Effects,
                StepError,
            >(StepError::UnexpectedInput),
            out matches Ok(e) ==> (e.report matches Some(t) ==> t >= MIN_TICKS),
    {
        let mut timer = TimerCommand::Keep;
        let mut report: Option<u64> = None;
        match (self.phase, input) {
            (Phase::Monitoring, Input::Sample(s)) => {
                let verdict = self.debounce.update(s.both_above());
                if verdict == Verdict::Trigger {
                    self.settle_in(Phase::Settling);
                }
            },
            (Phase::Settling, Input::Sample(s)) => {
                if !s.both_above() {
                    self.settle_in(Phase::DeadTime);
                }
            },
            (Phase::DeadTime, Input::DelayElapsed) => {
                self.settle_in(Phase::TimerPoll);
                timer = TimerCommand::Start;
            },
            (Phase::TimerPoll, Input::Timer(fired)) => {
                if fired {
                    self.phase = Phase::TimerSample;
                }
            },
            (Phase::TimerSample, Input::Sample(s)) => {
                if self.ticks < u64::MAX {
                    self.ticks = self.ticks + 1;
                }
                self.blink = self.blink + 1;
                if self.blink == BLINK_TICKS {
                    self.green = !self.green;
                    self.blink = 0;
                }
                if s.either_below() || self.ticks < MIN_TICKS {
                    self.phase = Phase::TimerPoll;
                } else {
                    timer = TimerCommand::Cancel;
                    report = Some(self.ticks);
                    if s.both_above() {
                        self.settle_in(Phase::Draining);
                    } else {
                        self.settle_in(Phase::AwaitingReset);
                    }
                }
            },
            (Phase::Draining, Input::Sample(s)) => {
                if !s.both_above() {
                    self.settle_in(Phase::AwaitingReset);
                }
            },
            (Phase::AwaitingReset, Input::Button(high)) => {
                if high {
                    self.settle_in(Phase::Monitoring);
                }
            },
            _ => {
                return Err(StepError::UnexpectedInput);
            },
        }
        Ok(Effects { leds: self.leds(), timer, report, next: self.request() })
    }

    /// Takes a script of readings in turn, as `step` would, and returns the
    /// durations that were reported on the way. A reading that was not asked
    /// for is passed over.
    pub fn replay(&mut self, inputs: &[Input]) -> (out: Vec<u64>)
        requires
            old(self).wf(),
        ensures
            final(self).wf(),
            final(self)@ == old(self)@.run(inputs@),
            out@ == old(self)@.reports(inputs@),
    {
        let mut out: Vec<u64> = Vec::new();
        let mut i: usize = 0;
        while i < inputs.len()
            invariant
                i <= inputs.len(),
                self.wf(),
                self@ == old(self)@.run(inputs@.take(i as int)),
                out@ == old(self)@.reports(inputs@.take(i as int)),
            decreases inputs.len() - i,
        {
            proof {
                assert(inputs@.take(i + 1).drop_last() =~= inputs@.take(i as int));
                assert(inputs@.take(i + 1).last() == inputs@[i as int]);
            }
            if let Ok(effects) = self.step(inputs[i]) {
                if let Some(ticks) = effects.report {
                    out.push(ticks);
                }
            }
            i = i + 1;
        }
        proof {
            assert(inputs@.take(i as int) =~= inputs@);
        }
        out
    }
}

} // verus!
