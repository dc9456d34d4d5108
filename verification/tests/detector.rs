use event_detector::detector::{
    Detector, Effects, Input, Phase, Request, StepError, TimerCommand, BLINK_TICKS, DEAD_TIME_MS,
    MIN_TICKS, TICK_PERIOD_MS,
};
use event_detector::indicator::{EventState, Leds};
use event_detector::report::elapsed_text;
use event_detector::sample::SensorSample;

const IDLE: Leds = Leds { red: true, green: false, blue: false };
const WARNING: Leds = Leds { red: true, green: true, blue: false };
const ACTIVE_ON: Leds = Leds { red: false, green: true, blue: false };
const ACTIVE_OFF: Leds = Leds { red: false, green: false, blue: false };

fn sample(detector: &mut Detector, a: u16, b: u16) -> Effects {
    assert_eq!(detector.request(), Request::Sample);
    detector.step(Input::Sample(SensorSample::new(a, b))).unwrap()
}

fn tick(detector: &mut Detector, a: u16, b: u16) -> Effects {
    let polled = detector.step(Input::Timer(true)).unwrap();
    assert_eq!(polled.next, Request::Sample);
    assert_eq!(polled.timer, TimerCommand::Keep);
    assert_eq!(polled.report, None);
    sample(detector, a, b)
}

/// A detector that has fired, settled and started its timer.
fn in_timed_loop() -> Detector {
    let mut detector = Detector::new();
    for _ in 0..3001 {
        sample(&mut detector, 900, 900);
    }
    sample(&mut detector, 100, 100);
    let started = detector.step(Input::DelayElapsed).unwrap();
    assert_eq!(started.timer, TimerCommand::Start);
    assert_eq!(started.next, Request::PollTimer);
    detector
}

#[test]
fn timing_constants() {
    assert_eq!(TICK_PERIOD_MS, 1);
    assert_eq!(DEAD_TIME_MS, 10);
    assert_eq!(BLINK_TICKS, 40);
    assert_eq!(MIN_TICKS, 1);
}

#[test]
fn new_detector_is_idle() {
    let detector = Detector::new();
    assert_eq!(detector.phase(), Phase::Monitoring);
    assert_eq!(detector.state(), EventState::Idle);
    assert_eq!(detector.leds(), IDLE);
    assert_eq!(detector.request(), Request::Sample);
    assert_eq!(detector.debounce_count(), 0);
    assert_eq!(detector.elapsed_ticks(), 0);
    assert_eq!(detector.blink_phase(), 0);
}

#[test]
fn counter_follows_the_trailing_run() {
    let mut detector = Detector::new();
    for expected in 1..=25u32 {
        sample(&mut detector, 801, 801);
        assert_eq!(detector.debounce_count(), expected);
    }
    sample(&mut detector, 801, 800);
    assert_eq!(detector.debounce_count(), 0);
    sample(&mut detector, 900, 1023);
    assert_eq!(detector.debounce_count(), 1);
    sample(&mut detector, 800, 900);
    assert_eq!(detector.debounce_count(), 0);
}

#[test]
fn event_fires_on_iteration_3001_and_not_before() {
    let mut detector = Detector::new();
    for _ in 0..3000 {
        sample(&mut detector, 900, 900);
    }
    assert_eq!(detector.debounce_count(), 3000);
    assert_eq!(detector.phase(), Phase::Monitoring);
    assert_eq!(detector.state(), EventState::Warning);
    let fired = sample(&mut detector, 900, 900);
    assert_eq!(detector.state(), EventState::ActiveEvent);
    assert_eq!(detector.phase(), Phase::Settling);
    assert_eq!(detector.debounce_count(), 0);
    assert_eq!(fired.leds, ACTIVE_ON);
    assert_eq!(fired.next, Request::Sample);
    assert_eq!(fired.timer, TimerCommand::Keep);
    assert_eq!(fired.report, None);
}

#[test]
fn broken_run_does_not_fire() {
    let mut detector = Detector::new();
    for _ in 0..3000 {
        sample(&mut detector, 900, 900);
    }
    sample(&mut detector, 900, 700);
    for _ in 0..3000 {
        sample(&mut detector, 900, 900);
    }
    assert_eq!(detector.phase(), Phase::Monitoring);
    assert_eq!(detector.debounce_count(), 3000);
}

#[test]
fn warning_shows_above_ten_and_idle_up_to_ten() {
    let mut detector = Detector::new();
    for _ in 0..10 {
        let out = sample(&mut detector, 900, 900);
        assert_eq!(out.leds, IDLE);
        assert_eq!(detector.state(), EventState::Idle);
    }
    let out = sample(&mut detector, 900, 900);
    assert_eq!(detector.debounce_count(), 11);
    assert_eq!(out.leds, WARNING);
    assert_eq!(detector.state(), EventState::Warning);
    for _ in 11..3000 {
        let out = sample(&mut detector, 900, 900);
        assert_eq!(out.leds, WARNING);
    }
    assert_eq!(detector.debounce_count(), 3000);
    let out = sample(&mut detector, 0, 900);
    assert_eq!(out.leds, IDLE);
    assert_eq!(detector.state(), EventState::Idle);
}

#[test]
fn settle_gate_spins_until_the_condition_clears() {
    let mut detector = Detector::new();
    for _ in 0..3001 {
        sample(&mut detector, 900, 900);
    }
    for _ in 0..50 {
        let out = sample(&mut detector, 801, 801);
        assert_eq!(out.next, Request::Sample);
        assert_eq!(out.leds, ACTIVE_ON);
        assert_eq!(detector.phase(), Phase::Settling);
    }
    let out = sample(&mut detector, 800, 900);
    assert_eq!(out.next, Request::Delay);
    assert_eq!(out.timer, TimerCommand::Keep);
    assert_eq!(detector.phase(), Phase::DeadTime);
    let out = detector.step(Input::DelayElapsed).unwrap();
    assert_eq!(out.timer, TimerCommand::Start);
    assert_eq!(out.next, Request::PollTimer);
    assert_eq!(out.leds, ACTIVE_ON);
    assert_eq!(detector.phase(), Phase::TimerPoll);
    assert_eq!(detector.elapsed_ticks(), 0);
}

#[test]
fn poll_without_tick_changes_nothing() {
    let mut detector = in_timed_loop();
    for _ in 0..100 {
        let out = detector.step(Input::Timer(false)).unwrap();
        assert_eq!(out.next, Request::PollTimer);
        assert_eq!(out.report, None);
        assert_eq!(out.timer, TimerCommand::Keep);
    }
    assert_eq!(detector.elapsed_ticks(), 0);
    assert_eq!(detector.blink_phase(), 0);
    tick(&mut detector, 100, 100);
    assert_eq!(detector.elapsed_ticks(), 1);
    assert_eq!(detector.blink_phase(), 1);
}

#[test]
fn shortest_event_measures_one_tick() {
    let mut detector = in_timed_loop();
    let out = tick(&mut detector, 900, 900);
    assert_eq!(out.report, Some(1));
    assert_eq!(out.timer, TimerCommand::Cancel);
    assert_eq!(elapsed_text(out.report.unwrap()), "0.001");
}

#[test]
fn timed_loop_ends_only_when_both_readings_reach_the_threshold() {
    let mut detector = in_timed_loop();
    assert_eq!(tick(&mut detector, 799, 900).report, None);
    assert_eq!(tick(&mut detector, 900, 799).report, None);
    assert_eq!(tick(&mut detector, 0, 0).report, None);
    let out = tick(&mut detector, 800, 800);
    assert_eq!(out.report, Some(4));
    assert_eq!(out.timer, TimerCommand::Cancel);
    assert_eq!(out.leds, WARNING);
    assert_eq!(out.next, Request::Button);
    assert_eq!(detector.phase(), Phase::AwaitingReset);
    assert_eq!(detector.state(), EventState::Latched);
    assert_eq!(detector.elapsed_ticks(), 0);
}

#[test]
fn green_toggles_every_forty_ticks() {
    let mut detector = in_timed_loop();
    let mut green = true;
    for index in 1..=400u32 {
        let out = tick(&mut detector, 100, 100);
        if index % 40 == 0 {
            green = !green;
        }
        assert_eq!(out.leds, if green { ACTIVE_ON } else { ACTIVE_OFF });
        assert_eq!(detector.blink_phase(), index % 40);
        assert_eq!(detector.elapsed_ticks(), u64::from(index));
        assert_eq!(out.next, Request::PollTimer);
    }
    let out = tick(&mut detector, 39, 39);
    assert_eq!(out.leds, ACTIVE_ON);
    for _ in 0..38 {
        assert_eq!(tick(&mut detector, 39, 39).leds, ACTIVE_ON);
    }
    assert_eq!(tick(&mut detector, 39, 39).leds, ACTIVE_OFF);
}

#[test]
fn unexpected_input_is_refused_and_changes_nothing() {
    let mut detector = Detector::new();
    for _ in 0..12 {
        sample(&mut detector, 900, 900);
    }
    assert_eq!(detector.step(Input::Button(true)), Err(StepError::UnexpectedInput));
    assert_eq!(detector.step(Input::DelayElapsed), Err(StepError::UnexpectedInput));
    assert_eq!(detector.step(Input::Timer(true)), Err(StepError::UnexpectedInput));
    assert_eq!(detector.debounce_count(), 12);
    assert_eq!(detector.phase(), Phase::Monitoring);

    let mut timed = in_timed_loop();
    assert_eq!(
        timed.step(Input::Sample(SensorSample::new(900, 900))),
        Err(StepError::UnexpectedInput)
    );
    assert_eq!(timed.step(Input::Button(true)), Err(StepError::UnexpectedInput));
    assert_eq!(timed.phase(), Phase::TimerPoll);
    assert_eq!(timed.elapsed_ticks(), 0);
}

#[test]
fn latch_holds_until_drained_and_reset() {
    let mut detector = in_timed_loop();
    tick(&mut detector, 100, 100);
    let out = tick(&mut detector, 900, 900);
    assert_eq!(out.report, Some(2));
    assert_eq!(out.next, Request::Sample);
    assert_eq!(detector.phase(), Phase::Draining);
    for _ in 0..20 {
        let out = sample(&mut detector, 900, 900);
        assert_eq!(out.leds, WARNING);
        assert_eq!(out.report, None);
        assert_eq!(detector.phase(), Phase::Draining);
    }
    let out = sample(&mut detector, 900, 800);
    assert_eq!(out.next, Request::Button);
    for _ in 0..20 {
        let out = detector.step(Input::Button(false)).unwrap();
        assert_eq!(out.next, Request::Button);
        assert_eq!(out.leds, WARNING);
        assert_eq!(detector.state(), EventState::Latched);
    }
    let out = detector.step(Input::Button(true)).unwrap();
    assert_eq!(out.next, Request::Sample);
    assert_eq!(out.leds, IDLE);
    assert_eq!(out.timer, TimerCommand::Keep);
    assert_eq!(detector.state(), EventState::Idle);
    assert_eq!(detector.debounce_count(), 0);
}

#[test]
fn end_to_end_scenario() {
    let mut detector = Detector::new();
    let mut reports: Vec<String> = Vec::new();
    for _ in 0..3000 {
        let out = sample(&mut detector, 900, 900);
        assert_eq!(out.report, None);
    }
    assert_eq!(detector.state(), EventState::Warning);
    let out = sample(&mut detector, 900, 900);
    assert_eq!(detector.state(), EventState::ActiveEvent);
    assert_eq!(out.leds, ACTIVE_ON);

    let out = sample(&mut detector, 100, 100);
    assert_eq!(out.next, Request::Delay);
    let out = detector.step(Input::DelayElapsed).unwrap();
    assert_eq!(out.timer, TimerCommand::Start);

    for elapsed in 1..=5u64 {
        let out = tick(&mut detector, 100, 100);
        assert_eq!(out.report, None);
        assert_eq!(out.next, Request::PollTimer);
        assert_eq!(detector.elapsed_ticks(), elapsed);
        assert_eq!(detector.state(), EventState::ActiveEvent);
    }
    let out = tick(&mut detector, 900, 900);
    if let Some(ticks) = out.report {
        reports.push(elapsed_text(ticks));
    }
    assert_eq!(out.timer, TimerCommand::Cancel);
    assert_eq!(out.leds, Leds { red: true, green: true, blue: false });
    assert_eq!(detector.state(), EventState::Latched);

    for _ in 0..10 {
        let out = sample(&mut detector, 900, 900);
        assert_eq!(detector.state(), EventState::Latched);
        if let Some(ticks) = out.report {
            reports.push(elapsed_text(ticks));
        }
    }
    let out = sample(&mut detector, 800, 800);
    assert_eq!(out.next, Request::Button);
    assert_eq!(detector.state(), EventState::Latched);
    let out = detector.step(Input::Button(false)).unwrap();
    assert_eq!(out.leds, Leds { red: true, green: true, blue: false });
    assert_eq!(detector.state(), EventState::Latched);
    let out = detector.step(Input::Button(true)).unwrap();
    assert_eq!(out.report, None);
    assert_eq!(detector.state(), EventState::Idle);
    assert_eq!(detector.debounce_count(), 0);
    assert_eq!(out.leds, Leds { red: true, green: false, blue: false });

    assert_eq!(reports, vec![String::from("0.006")]);
}

#[test]
fn replay_of_a_script_reports_each_event_once() {
    let high = Input::Sample(SensorSample::new(900, 900));
    let low = Input::Sample(SensorSample::new(100, 100));
    let mut script: Vec<Input> = Vec::new();
    for _ in 0..2 {
        for _ in 0..3001 {
            script.push(high);
        }
        script.push(low);
        script.push(Input::DelayElapsed);
        for _ in 0..5 {
            script.push(Input::Timer(false));
            script.push(Input::Timer(true));
            script.push(low);
        }
        script.push(Input::Timer(true));
        script.push(high);
        script.push(Input::Sample(SensorSample::new(800, 800)));
        script.push(Input::Button(false));
        script.push(Input::Button(true));
    }
    let mut detector = Detector::new();
    let reports = detector.replay(&script);
    assert_eq!(reports, vec![6, 6]);
    assert_eq!(detector.state(), EventState::Idle);
    assert_eq!(detector.debounce_count(), 0);

    let mut stepped = Detector::new();
    for input in &script {
        stepped.step(*input).unwrap();
    }
    assert_eq!(stepped.phase(), detector.phase());
    assert_eq!(stepped.leds(), detector.leds());
}

#[test]
fn replay_passes_over_readings_not_asked_for() {
    let mut detector = Detector::new();
    let script = [
        Input::Sample(SensorSample::new(900, 900)),
        Input::Button(true),
        Input::Timer(true),
        Input::Sample(SensorSample::new(900, 900)),
        Input::DelayElapsed,
    ];
    let reports = detector.replay(&script);
    assert!(reports.is_empty());
    assert_eq!(detector.debounce_count(), 2);
    assert_eq!(detector.phase(), Phase::Monitoring);
}
