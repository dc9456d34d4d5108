//! The run-length filter that turns per-iteration comparisons into a
//! sustained-condition signal.

use vstd::prelude::*;

verus! {

/// A run longer than this many qualifying iterations shows the warning.
pub const WARNING_AFTER: u32 = 10;

/// A run longer than this many qualifying iterations fires the event.
pub const TRIGGER_AFTER: u32 = 3000;

/// What the filter makes of the run so far.
#[derive(Clone, Copy, Debug, PartialEq, Eq, Structural)]
pub enum Verdict {
    /// The run is at most `WARNING_AFTER` long.
    Quiet,
    /// The run is longer than `WARNING_AFTER` and at most `TRIGGER_AFTER`.
    Warning,
    /// The run has exceeded `TRIGGER_AFTER`: the event fires.
    Trigger,
}

/// The run length after one more iteration, before any firing.
pub open spec fn advance(count: nat, above: bool) -> nat {
    if above {
        count + 1
    } else {
        0
    }
}

/// The verdict on a run length.
pub open spec fn verdict_of(run: nat) -> Verdict {
    if run > TRIGGER_AFTER {
        Verdict::Trigger
    } else if run > WARNING_AFTER {
        Verdict::Warning
    } else {
        Verdict::Quiet
    }
}

/// The counter that is kept for a run length: firing clears it.
pub open spec fn settle(run: nat) -> nat {
    if run > TRIGGER_AFTER {
        0
    } else {
        run
    }
}

/// The number of `true` values at the end of `history`.
pub open spec fn trailing_run(history: Seq<bool>) -> nat
    decreases history.len(),
{
    if history.len() == 0 || !history.last() {
        0
    } else {
        1 + trailing_run(history.drop_last())
    }
}

/// The counter of a fresh filter after it was fed `history`.
pub open spec fn count_after(history: Seq<bool>) -> nat
    decreases history.len(),
{
    if history.len() == 0 {
        0
    } else {
        settle(advance(count_after(history.drop_last()), history.last()))
    }
}

/// Whether a fresh filter fires on the last value of `history`.
pub open spec fn fires_on_last(history: Seq<bool>) -> bool {
    history.len() > 0 && verdict_of(
        advance(count_after(history.drop_last()), history.last()),
    ) == Verdict::Trigger
}

/// The debounce counter. Its view is the number it holds.
#[derive(Clone, Copy, Debug)]
pub struct Debounce {
    count: u32,
}

impl View for Debounce {
    type V = nat;

    closed spec fn view(&self) -> nat {
        self.count as nat
    }
}

impl Debounce {
    /// The counter never holds more than `TRIGGER_AFTER`.
    pub open spec fn wf(&self) -> bool {
        self@ <= TRIGGER_AFTER
    }

    /// A filter that has seen nothing.
    pub fn new() -> (out: Debounce)
        ensures
            out@ == 0,
            out.wf(),
    {
        Debounce { count: 0 }
    }

    /// The number of consecutive qualifying iterations counted so far.
    pub fn count(&self) -> (out: u32)
        ensures
            out == self@,
    {
        self.count
    }

    /// The verdict on the run counted so far.
    pub fn level(&self) -> (out: Verdict)
        ensures
            out == verdict_of(self@),
    {
        if self.count > TRIGGER_AFTER {
            Verdict::Trigger
        } else if self.count > WARNING_AFTER {
            Verdict::Warning
        } else {
            Verdict::Quiet
        }
    }

    /// Feeds one iteration: a qualifying one lengthens the run, any other
    /// clears it. A run that exceeds `TRIGGER_AFTER` fires and clears the
    /// counter.
    pub fn update(&mut self, above: bool) -> (out: Verdict)
        requires
            old(self).wf(),
        ensures
            out == verdict_of(advance(old(self)@, above)),
            final(self)@ == settle(advance(old(self)@, above)),
            final(self).wf(),
    {
        if above {
            self.count = self.count + 1;
        } else {
            self.count = 0;
        }
        if self.count > TRIGGER_AFTER {
            self.count = 0;
            Verdict::Trigger
        } else if self.count > WARNING_AFTER {
            Verdict::Warning
        } else {
            Verdict::Quiet
        }
    }

    /// Clears the counter.
    pub fn reset(&mut self)
        ensures
            final(self)@ == 0,
            final(self).wf(),
    {
        self.count = 0;
    }
}

} // verus!
