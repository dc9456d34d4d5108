//! What holds of the detector over whole histories of readings.

use vstd::prelude::*;
use crate::debounce::{count_after, fires_on_last, trailing_run, TRIGGER_AFTER, WARNING_AFTER};
use crate::detector::{DetectorView, Input, Phase, BLINK_TICKS, MIN_TICKS};
use crate::indicator::{EventState, Leds};
use crate::sample::SensorSample;

verus! {

/// The debounce counter is the length of the trailing run of qualifying
/// iterations, counted from the last firing: it equals the run length
/// modulo `TRIGGER_AFTER + 1`, hence the run length itself while that is at
/// most `TRIGGER_AFTER`.
pub proof fn counter_is_trailing_run(history: Seq<bool>)
    ensures
        count_after(history) == trailing_run(history) % (TRIGGER_AFTER + 1) as nat,
        trailing_run(history) <= TRIGGER_AFTER ==> count_after(history) == trailing_run(history),
    decreases history.len(),
{
    if history.len() > 0 {
        let before = history.drop_last();
        counter_is_trailing_run(before);
        assert(count_after(before) == trailing_run(before) % 3001);
    }
    assert(count_after(history) == trailing_run(history) % 3001);
}

/// One iteration that does not qualify clears the counter, whatever came
/// before it.
pub proof fn miss_clears_counter(history: Seq<bool>)
    ensures
        count_after(history.push(false)) == 0,
        trailing_run(history.push(false)) == 0,
{
}

/// The filter fires exactly when the trailing run has just reached a
/// positive multiple of `TRIGGER_AFTER + 1`. While the run is at most
/// `TRIGGER_AFTER` long it does not fire; on the iteration that makes it
/// `TRIGGER_AFTER + 1` long it does.
pub proof fn fires_exactly_past_bound(history: Seq<bool>)
    ensures
        fires_on_last(history) <==> trailing_run(history) > 0 && trailing_run(history) % (
        TRIGGER_AFTER + 1) as nat == 0,
        trailing_run(history) <= TRIGGER_AFTER ==> !fires_on_last(history),
        trailing_run(history) == TRIGGER_AFTER + 1 ==> fires_on_last(history),
{
    if history.len() > 0 {
        let before = history.drop_last();
        counter_is_trailing_run(before);
        assert(count_after(before) == trailing_run(before) % 3001);
    }
    assert(fires_on_last(history) <==> trailing_run(history) > 0 && trailing_run(history) % 3001
        == 0);
}

/// For each sample, whether both of its readings are above the threshold.
pub open spec fn flags(samples: Seq<SensorSample>) -> Seq<bool> {
    Seq::new(samples.len(), |i: int| samples[i].above())
}

/// The samples as the inputs that hand them to the detector.
pub open spec fn sampled(samples: Seq<SensorSample>) -> Seq<Input> {
    Seq::new(samples.len(), |i: int| Input::Sample(samples[i]))
}

/// A detector that has been sampling since it started, without a run
/// longer than `TRIGGER_AFTER` so far, is still monitoring, and its counter
/// is the length of the trailing run of qualifying samples.
pub proof fn monitor_counts_trailing_run(samples: Seq<SensorSample>)
    requires
        forall|k: int|
            0 <= k <= samples.len() ==> trailing_run(#[trigger] flags(samples.take(k)))
                <= TRIGGER_AFTER,
    ensures
        DetectorView::initial().run(sampled(samples)) == (DetectorView {
            count: trailing_run(flags(samples)),
            ..DetectorView::initial()
        }),
    decreases samples.len(),
{
    assert(samples.take(samples.len() as int) =~= samples);
    if samples.len() > 0 {
        let before = samples.drop_last();
        assert forall|k: int| 0 <= k <= before.len() implies trailing_run(
            #[trigger] flags(before.take(k)),
        ) <= TRIGGER_AFTER by {
            assert(before.take(k) =~= samples.take(k));
        }
        monitor_counts_trailing_run(before);
        assert(sampled(samples).drop_last() =~= sampled(before));
        assert(flags(samples).drop_last() =~= flags(before));
    }
}

/// Whether every input is a sample with both readings above the threshold.
pub open spec fn all_qualifying(inputs: Seq<Input>) -> bool {
    forall|i: int|
        0 <= i < inputs.len() ==> (#[trigger] inputs[i] matches Input::Sample(s) && s.above())
}

/// A monitoring detector that is fed a run of qualifying samples enters the
/// active event exactly when its counter would exceed `TRIGGER_AFTER`;
/// until then the counter has grown by the length of the run.
pub proof fn event_entered_exactly_past_bound(start: DetectorView, inputs: Seq<Input>)
    requires
        start.wf(),
        start.phase == Phase::Monitoring,
        all_qualifying(inputs),
    ensures
        start.run(inputs).state() == EventState::ActiveEvent <==> start.count + inputs.len()
            > TRIGGER_AFTER,
        start.count + inputs.len() <= TRIGGER_AFTER ==> start.run(inputs) == (DetectorView {
            count: start.count + inputs.len(),
            ..start
        }),
        start.count + inputs.len() > TRIGGER_AFTER ==> start.run(inputs) == DetectorView::rest(
            Phase::Settling,
        ),
    decreases inputs.len(),
{
    if inputs.len() > 0 {
        let before = inputs.drop_last();
        assert(all_qualifying(before)) by {
            assert forall|i: int| 0 <= i < before.len() implies (#[trigger] before[i] matches Input::Sample(
                s,
            ) && s.above()) by {
                assert(before[i] == inputs[i]);
            }
        }
        event_entered_exactly_past_bound(start, before);
    }
}

/// While monitoring, the indicator shows the warning exactly while the
/// counter is above `WARNING_AFTER`, and the idle pattern exactly while it
/// is not.
pub proof fn warning_band(state: DetectorView)
    requires
        state.wf(),
        state.phase == Phase::Monitoring,
    ensures
        WARNING_AFTER < state.count <= TRIGGER_AFTER <==> state.state() == EventState::Warning,
        state.count <= WARNING_AFTER <==> state.state() == EventState::Idle,
        state.state() == EventState::Warning <==> state.leds() == (Leds {
            red: true,
            green: true,
            blue: false,
        }),
        state.state() == EventState::Idle <==> state.leds() == (Leds {
            red: true,
            green: false,
            blue: false,
        }),
{
}

/// Every step keeps the detector's invariant.
pub proof fn step_keeps_invariant(state: DetectorView, input: Input)
    requires
        state.wf(),
    ensures
        state.next(input).wf(),
{
}

/// Every history of inputs keeps the detector's invariant.
pub proof fn run_keeps_invariant(start: DetectorView, inputs: Seq<Input>)
    requires
        start.wf(),
    ensures
        start.run(inputs).wf(),
    decreases inputs.len(),
{
    if inputs.len() > 0 {
        run_keeps_invariant(start, inputs.drop_last());
        step_keeps_invariant(start.run(inputs.drop_last()), inputs.last());
    }
}

/// Whatever a detector was fed since it started, a duration that it reports
/// is at least `MIN_TICKS`: never zero.
pub proof fn reported_duration_is_positive(history: Seq<Input>, input: Input)
    ensures
        DetectorView::initial().run(history).effects(input).report matches Some(ticks) ==> ticks
            >= MIN_TICKS,
{
    run_keeps_invariant(DetectorView::initial(), history);
}

/// Every duration that a detector reports over a history of inputs is at
/// least `MIN_TICKS`.
pub proof fn every_report_is_positive(start: DetectorView, history: Seq<Input>)
    requires
        start.wf(),
    ensures
        forall|i: int|
            0 <= i < start.reports(history).len() ==> #[trigger] start.reports(history)[i]
                >= MIN_TICKS,
    decreases history.len(),
{
    if history.len() > 0 {
        let before = history.drop_last();
        every_report_is_positive(start, before);
        run_keeps_invariant(start, before);
        assert forall|i: int| 0 <= i < start.reports(history).len() implies #[trigger] start.reports(
            history,
        )[i] >= MIN_TICKS by {
            if i < start.reports(before).len() {
                assert(start.reports(history)[i] == start.reports(before)[i]);
            }
        }
    }
}

/// Whether every sample has a reading below the threshold, so that the
/// timed loop goes on after it.
pub open spec fn all_below(samples: Seq<SensorSample>) -> bool {
    forall|i: int| 0 <= i < samples.len() ==> (#[trigger] samples[i]).below()
}

/// In the timed loop the green output toggles once every `BLINK_TICKS`
/// ticks, counted from the entry of the loop, whatever the elapsed time:
/// after `n` ticks that keep the loop going the blink counter is
/// `n % BLINK_TICKS`, and the green level differs from the one at entry
/// exactly when `n / BLINK_TICKS` is odd.
pub proof fn blink_is_periodic(entry: DetectorView, samples: Seq<SensorSample>)
    requires
        entry.wf(),
        entry.phase == Phase::TimerPoll,
        entry.blink == 0,
        all_below(samples),
    ensures
        entry.ticked(samples).wf(),
        entry.ticked(samples).phase == Phase::TimerPoll,
        entry.ticked(samples).blink == samples.len() % BLINK_TICKS as nat,
        entry.ticked(samples).green == entry.green <==> (samples.len() / BLINK_TICKS as nat) % 2
            == 0,
    decreases samples.len(),
{
    if samples.len() > 0 {
        let before = samples.drop_last();
        assert(all_below(before)) by {
            assert forall|i: int| 0 <= i < before.len() implies (#[trigger] before[i]).below() by {
                assert(before[i] == samples[i]);
            }
        }
        blink_is_periodic(entry, before);
    }
}

/// In the timed loop the green output changes on a tick exactly when the
/// number of that tick, counted from one at the entry of the loop, is a
/// multiple of `BLINK_TICKS`.
pub proof fn green_toggles_on_multiples(entry: DetectorView, samples: Seq<SensorSample>)
    requires
        entry.wf(),
        entry.phase == Phase::TimerPoll,
        entry.blink == 0,
        all_below(samples),
        samples.len() > 0,
    ensures
        entry.ticked(samples).green != entry.ticked(samples.drop_last()).green <==> samples.len()
            % BLINK_TICKS as nat == 0,
{
    let before = samples.drop_last();
    assert(all_below(before)) by {
        assert forall|i: int| 0 <= i < before.len() implies (#[trigger] before[i]).below() by {
            assert(before[i] == samples[i]);
        }
    }
    blink_is_periodic(entry, before);
    blink_is_periodic(entry, samples);
}

} // verus!
