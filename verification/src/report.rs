//! The order in which a spectrum goes to the log, and what follows it.
//!
//! Every bin is handed out once, lowest first, with a short pause after each.
//! After the last pause the sink idles for good: sleep, wait for an
//! interrupt, sleep again.
use vstd::prelude::*;
use crate::buffer::SAMPLE_COUNT;

verus! {

/// Number of bins in the spectrum of one block: half the samples.
pub const BIN_COUNT: usize = SAMPLE_COUNT / 2;

/// Pause after each record, in microseconds.
pub const THROTTLE_MICROS: u32 = 100;

/// Length of one sleep of the idle loop, in milliseconds.
pub const IDLE_MILLIS: u32 = 1000;

/// What the driver of the sink does next.
#[derive(Clone, Copy, Debug, PartialEq, Eq, Structural)]
pub enum ReportAction {
    /// Hand the record of bin `bin`, its index and its magnitude, to the log.
    Emit { bin: usize },
    /// Pause for `micros` microseconds.
    Throttle { micros: u32 },
    /// Sleep for `millis` milliseconds.
    Sleep { millis: u32 },
    /// Wait in low power for the next interrupt.
    WaitForInterrupt,
}

/// First position of the idle loop: two steps were taken for each bin.
pub open spec fn idle_start() -> nat {
    2 * BIN_COUNT as nat
}

/// The action taken at `position`.
pub open spec fn action_at(position: nat) -> ReportAction {
    if position < idle_start() {
        if position % 2 == 0 {
            ReportAction::Emit { bin: (position / 2) as usize }
        } else {
            ReportAction::Throttle { micros: THROTTLE_MICROS }
        }
    } else if position == idle_start() {
        ReportAction::Sleep { millis: IDLE_MILLIS }
    } else {
        ReportAction::WaitForInterrupt
    }
}

/// The position that follows `position`. The two positions of the idle loop
/// follow each other.
pub open spec fn position_after(position: nat) -> nat {
    if position <= idle_start() {
        position + 1
    } else {
        idle_start()
    }
}

/// The position reached from the start after `steps` actions.
pub open spec fn position_at(steps: nat) -> nat
    decreases steps,
{
    if steps == 0 {
        0
    } else {
        position_after(position_at((steps - 1) as nat))
    }
}

/// While records are left, the position is the number of actions taken;
/// afterwards it is one of the two positions of the idle loop, in turn.
pub proof fn lemma_position_at(steps: nat)
    ensures
        steps <= idle_start() ==> position_at(steps) == steps,
        steps > idle_start() ==> position_at(steps) == idle_start() + (steps - idle_start()) % 2,
    decreases steps,
{
    if steps > 0 {
        lemma_position_at((steps - 1) as nat);
    }
}

/// The whole schedule: bin `bin` is handed out as action `2 * bin` and
/// followed by a pause, and from action `2 * BIN_COUNT` on no record is
/// handed out any more: the sink sleeps and waits in turn.
pub proof fn lemma_schedule(steps: nat)
    ensures
        steps < idle_start() && steps % 2 == 0 ==> action_at(position_at(steps)) == (
        ReportAction::Emit { bin: (steps / 2) as usize }),
        steps < idle_start() && steps % 2 == 1 ==> action_at(position_at(steps)) == (
        ReportAction::Throttle { micros: THROTTLE_MICROS }),
        steps >= idle_start() && (steps - idle_start()) % 2 == 0 ==> action_at(position_at(steps))
            == (ReportAction::Sleep { millis: IDLE_MILLIS }),
        steps >= idle_start() && (steps - idle_start()) % 2 == 1 ==> action_at(position_at(steps))
            == ReportAction::WaitForInterrupt,
{
    lemma_position_at(steps);
}

/// A sink and how far it has come.
#[derive(Debug)]
pub struct ReportSink {
    position: usize,
}

impl View for ReportSink {
    type V = nat;

    closed spec fn view(&self) -> nat {
        self.position as nat
    }
}

impl ReportSink {
    #[verifier::type_invariant]
    spec fn inv(&self) -> bool {
        self.position <= idle_start() + 1
    }

    /// A sink that has handed out nothing yet.
    pub fn new() -> (sink: ReportSink)
        ensures
            sink@ == 0,
    {
        ReportSink { position: 0 }
    }

    /// Whether every record has been handed out and the sink idles.
    pub fn is_idle(&self) -> (idle: bool)
        ensures
            idle == (self@ >= idle_start()),
    {
        self.position >= 2 * BIN_COUNT
    }

    /// Number of records handed out so far.
    pub fn emitted(&self) -> (count: usize)
        ensures
            self@ < idle_start() ==> count == (self@ + 1) / 2,
            self@ >= idle_start() ==> count == BIN_COUNT,
    {
        proof {
            use_type_invariant(self);
        }
        if self.position < 2 * BIN_COUNT {
            (self.position + 1) / 2
        } else {
            BIN_COUNT
        }
    }

    /// The action to take now; the sink moves on by one position.
    pub fn next(&mut self) -> (action: ReportAction)
        ensures
            action == action_at(old(self)@),
            final(self)@ == position_after(old(self)@),
    {
        proof {
            use_type_invariant(&*self);
        }
        let position = self.position;
        if position < 2 * BIN_COUNT {
            self.position = position + 1;
            if position % 2 == 0 {
                ReportAction::Emit { bin: position / 2 }
            } else {
                ReportAction::Throttle { micros: THROTTLE_MICROS }
            }
        } else if position == 2 * BIN_COUNT {
            self.position = position + 1;
            ReportAction::Sleep { millis: IDLE_MILLIS }
        } else {
            self.position = 2 * BIN_COUNT;
            ReportAction::WaitForInterrupt
        }
    }
}

} // verus!
