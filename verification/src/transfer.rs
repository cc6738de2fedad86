//! The one-shot transfer: its configuration, its phases, and the rule that
//! decides when the captured block may be read.
use vstd::prelude::*;
use crate::buffer::{SampleBuffer, SAMPLE_COUNT};

verus! {

/// How many beats the peripheral side moves in one burst.
#[derive(Clone, Copy, Debug, PartialEq, Eq, Structural)]
pub enum BurstMode {
    /// Single beats, no burst.
    NoBurst,
    /// Bursts of 4 beats.
    Burst4,
    /// Bursts of 8 beats.
    Burst8,
    /// Bursts of 16 beats.
    Burst16,
}

impl BurstMode {
    /// Beats in one burst of this mode.
    pub open spec fn beat_count(self) -> int {
        match self {
            BurstMode::NoBurst => 1,
            BurstMode::Burst4 => 4,
            BurstMode::Burst8 => 8,
            BurstMode::Burst16 => 16,
        }
    }

    /// Beats in one burst of this mode.
    pub fn beats(self) -> (count: u8)
        ensures
            count == self.beat_count(),
    {
        match self {
            BurstMode::NoBurst => 1,
            BurstMode::Burst4 => 4,
            BurstMode::Burst8 => 8,
            BurstMode::Burst16 => 16,
        }
    }

    /// The mode that moves `beats` beats per burst, where the stream has one.
    pub fn from_beats(beats: u8) -> (mode: Option<BurstMode>)
        ensures
            mode matches Some(m) ==> m.beat_count() == beats,
            mode.is_none() <==> (beats != 1 && beats != 4 && beats != 8 && beats != 16),
    {
        if beats == 1 {
            Some(BurstMode::NoBurst)
        } else if beats == 4 {
            Some(BurstMode::Burst4)
        } else if beats == 8 {
            Some(BurstMode::Burst8)
        } else if beats == 16 {
            Some(BurstMode::Burst16)
        } else {
            None
        }
    }
}

/// Why a configuration cannot drive a capture.
#[derive(Clone, Copy, Debug, PartialEq, Eq, Structural)]
pub enum ConfigError {
    /// The peripheral burst is not the 4-beat burst that the converter pairs with.
    InvalidBurst,
    /// The memory pointer stays fixed, so the samples would not fill the block.
    FixedMemoryPointer,
}

/// What the stream is told about a transfer: whether the memory pointer moves
/// on after each sample, and the burst on the peripheral side.
#[derive(Clone, Copy, Debug, PartialEq, Eq, Structural)]
pub struct TransferConfig {
    pub memory_increment: bool,
    pub peripheral_burst: BurstMode,
}

impl TransferConfig {
    /// The fault that keeps this configuration from driving a capture, if any.
    /// A wrong burst is reported before a fixed memory pointer.
    pub open spec fn fault(self) -> Option<ConfigError> {
        if self.peripheral_burst != BurstMode::Burst4 {
            Some(ConfigError::InvalidBurst)
        } else if !self.memory_increment {
            Some(ConfigError::FixedMemoryPointer)
        } else {
            None
        }
    }

    /// The configuration a stream starts from: fixed memory pointer, no burst.
    pub fn new() -> (config: TransferConfig)
        ensures
            config == (TransferConfig { memory_increment: false, peripheral_burst: BurstMode::NoBurst }),
    {
        TransferConfig { memory_increment: false, peripheral_burst: BurstMode::NoBurst }
    }

    /// This configuration with the memory increment set to `enabled`.
    pub fn memory_increment(self, enabled: bool) -> (config: TransferConfig)
        ensures
            config == (TransferConfig { memory_increment: enabled, peripheral_burst: self.peripheral_burst }),
    {
        TransferConfig { memory_increment: enabled, peripheral_burst: self.peripheral_burst }
    }

    /// This configuration with the peripheral burst set to `burst`.
    pub fn peripheral_burst(self, burst: BurstMode) -> (config: TransferConfig)
        ensures
            config == (TransferConfig { memory_increment: self.memory_increment, peripheral_burst: burst }),
    {
        TransferConfig { memory_increment: self.memory_increment, peripheral_burst: burst }
    }

    /// Checks the configuration against what a capture needs.
    pub fn check(&self) -> (checked: Result<(), ConfigError>)
        ensures
            checked == match self.fault() {
                Some(error) => Err::<(), ConfigError>(error),
                None => Ok::<(), ConfigError>(()),
            },
    {
        match self.peripheral_burst {
            BurstMode::Burst4 => {
                if self.memory_increment {
                    Ok(())
                } else {
                    Err(ConfigError::FixedMemoryPointer)
                }
            },
            _ => Err(ConfigError::InvalidBurst),
        }
    }
}

/// Where a transfer stands.
#[derive(Clone, Copy, Debug, PartialEq, Eq, Structural)]
pub enum TransferPhase {
    /// Bound to its block, not started.
    Ready,
    /// Started; the block belongs to the stream.
    Running,
    /// The completion flag has been seen set.
    Complete,
}

/// What the driver reports to a transfer.
#[derive(Clone, Copy, Debug, PartialEq, Eq, Structural)]
pub enum TransferEvent {
    /// The driver asks to start the transfer.
    Start,
    /// The driver has read the completion flag.
    Poll { complete: bool },
}

/// What the driver does next.
#[derive(Clone, Copy, Debug, PartialEq, Eq, Structural)]
pub enum TransferAction {
    /// Enable the stream, then at once trigger one conversion sequence of
    /// `samples` conversions.
    BeginConversion { samples: usize },
    /// Read the completion flag again.
    PollAgain,
    /// The block is filled: take it.
    Deliver,
    /// The event does not fit the phase; nothing is to be done.
    Rejected,
}

/// The phase that follows `phase` on `event`.
pub open spec fn next_phase(phase: TransferPhase, event: TransferEvent) -> TransferPhase {
    match (phase, event) {
        (TransferPhase::Ready, TransferEvent::Start) => TransferPhase::Running,
        (TransferPhase::Running, TransferEvent::Poll { complete: true }) => TransferPhase::Complete,
        _ => phase,
    }
}

/// The action that answers `event` in `phase`.
pub open spec fn action_for(phase: TransferPhase, event: TransferEvent) -> TransferAction {
    match (phase, event) {
        (TransferPhase::Ready, TransferEvent::Start) => TransferAction::BeginConversion {
            samples: SAMPLE_COUNT,
        },
        (TransferPhase::Running, TransferEvent::Poll { complete: false }) => TransferAction::PollAgain,
        (TransferPhase::Running, TransferEvent::Poll { complete: true }) => TransferAction::Deliver,
        (TransferPhase::Complete, TransferEvent::Poll { .. }) => TransferAction::Deliver,
        _ => TransferAction::Rejected,
    }
}

/// The phase reached from `phase` after all of `events`, in order.
pub open spec fn phase_after(phase: TransferPhase, events: Seq<TransferEvent>) -> TransferPhase
    decreases events.len(),
{
    if events.len() == 0 {
        phase
    } else {
        next_phase(phase_after(phase, events.drop_last()), events.last())
    }
}

/// A transfer that starts out not complete and is complete after `events` has
/// at some event seen the completion flag set while it was running. One that
/// starts out ready and has left that phase has been asked to start.
pub proof fn lemma_completion_needs_flag(phase: TransferPhase, events: Seq<TransferEvent>)
    requires
        phase != TransferPhase::Complete,
    ensures
        phase_after(phase, events) == TransferPhase::Complete ==> exists|j: int|
            0 <= j < events.len() && #[trigger] events[j] == (TransferEvent::Poll { complete: true })
                && phase_after(phase, events.take(j)) == TransferPhase::Running,
        phase == TransferPhase::Ready && phase_after(phase, events) != TransferPhase::Ready
            ==> exists|i: int| 0 <= i < events.len() && #[trigger] events[i] == TransferEvent::Start,
    decreases events.len(),
{
    if events.len() > 0 {
        let earlier = events.drop_last();
        lemma_completion_needs_flag(phase, earlier);
        let before = phase_after(phase, earlier);
        if phase_after(phase, events) == TransferPhase::Complete {
            if before == TransferPhase::Complete {
                let j = choose|j: int|
                    0 <= j < earlier.len() && #[trigger] earlier[j] == (TransferEvent::Poll {
                        complete: true,
                    }) && phase_after(phase, earlier.take(j)) == TransferPhase::Running;
                assert(earlier.take(j) =~= events.take(j));
                assert(events[j] == earlier[j]);
            } else {
                let j = events.len() - 1;
                assert(events.take(j) =~= earlier);
                assert(events[j] == events.last());
            }
        }
        if phase == TransferPhase::Ready && phase_after(phase, events) != TransferPhase::Ready {
            if before != TransferPhase::Ready {
                let i = choose|i: int|
                    0 <= i < earlier.len() && #[trigger] earlier[i] == TransferEvent::Start;
                assert(events[i] == earlier[i]);
            } else {
                assert(events[events.len() - 1] == events.last());
            }
        }
    }
}

/// Why a wait for completion ended without a filled block.
#[derive(Clone, Copy, Debug, PartialEq, Eq, Structural)]
pub enum WaitError {
    /// The transfer was never started, so no flag can ever be set.
    NotStarted,
    /// Every reading of the flag was clear.
    TimedOut,
}

/// What a `TransferHandle` stands for: its phase, the configuration it was
/// made with, and the contents of the block it holds.
pub struct TransferState {
    pub phase: TransferPhase,
    pub config: TransferConfig,
    pub contents: Seq<u16>,
}

/// A one-shot transfer into a block. The handle owns the block from `init`
/// until `into_buffer` gives it back, and gives it back only once the
/// completion flag has been seen set.
#[derive(Debug)]
pub struct TransferHandle {
    phase: TransferPhase,
    config: TransferConfig,
    buffer: SampleBuffer,
}

impl View for TransferHandle {
    type V = TransferState;

    closed spec fn view(&self) -> TransferState {
        TransferState { phase: self.phase, config: self.config, contents: self.buffer@ }
    }
}

impl TransferHandle {
    #[verifier::type_invariant]
    spec fn inv(&self) -> bool {
        self.config.fault().is_none()
    }

    /// Binds a transfer to `buffer`. A configuration with a fault is refused
    /// here, before anything can start.
    pub fn init(config: TransferConfig, buffer: SampleBuffer) -> (made: Result<
        TransferHandle,
        ConfigError,
    >)
        ensures
            match config.fault() {
                Some(error) => made matches Err(e) && e == error,
                None => made matches Ok(handle) && handle@ == (TransferState {
                    phase: TransferPhase::Ready,
                    config,
                    contents: buffer@,
                }),
            },
    {
        match config.check() {
            Ok(()) => Ok(TransferHandle { phase: TransferPhase::Ready, config, buffer }),
            Err(error) => Err(error),
        }
    }

    /// Where the transfer stands.
    pub fn phase(&self) -> (phase: TransferPhase)
        ensures
            phase == self@.phase,
    {
        self.phase
    }

    /// The configuration the transfer was made with. It has no fault.
    pub fn config(&self) -> (config: TransferConfig)
        ensures
            config == self@.config,
            config.fault().is_none(),
    {
        proof {
            use_type_invariant(self);
        }
        self.config
    }

    /// Whether the completion flag has been seen set.
    pub fn is_complete(&self) -> (complete: bool)
        ensures
            complete == (self@.phase == TransferPhase::Complete),
    {
        match self.phase {
            TransferPhase::Complete => true,
            _ => false,
        }
    }

    /// Takes one event from the driver and says what the driver does next.
    /// Only a set completion flag, read while the transfer runs, completes it.
    pub fn step(&mut self, event: TransferEvent) -> (action: TransferAction)
        ensures
            action == action_for(old(self)@.phase, event),
            final(self)@ == (TransferState {
                phase: next_phase(old(self)@.phase, event),
                ..old(self)@
            }),
    {
        proof {
            use_type_invariant(&*self);
        }
        match (self.phase, event) {
            (TransferPhase::Ready, TransferEvent::Start) => {
                self.phase = TransferPhase::Running;
                TransferAction::BeginConversion { samples: SAMPLE_COUNT }
            },
            (TransferPhase::Running, TransferEvent::Poll { complete }) => {
                if complete {
                    self.phase = TransferPhase::Complete;
                    TransferAction::Deliver
                } else {
                    TransferAction::PollAgain
                }
            },
            (TransferPhase::Complete, TransferEvent::Poll { .. }) => TransferAction::Deliver,
            _ => TransferAction::Rejected,
        }
    }

    /// Polls with the readings of the completion flag in `flags`, in order,
    /// and stops at the first that is set. `Ok` holds the number of readings
    /// taken; a transfer that was complete already takes none.
    pub fn wait(&mut self, flags: &[bool]) -> (polled: Result<usize, WaitError>)
        ensures
            final(self)@.config == old(self)@.config,
            final(self)@.contents == old(self)@.contents,
            old(self)@.phase == TransferPhase::Ready ==> polled == Err::<usize, WaitError>(
                WaitError::NotStarted,
            ) && final(self)@.phase == TransferPhase::Ready,
            old(self)@.phase == TransferPhase::Complete ==> polled == Ok::<usize, WaitError>(0)
                && final(self)@.phase == TransferPhase::Complete,
            old(self)@.phase == TransferPhase::Running ==> match polled {
                Ok(polls) => 1 <= polls <= flags@.len() && flags@[polls - 1] && (forall|j: int|
                    0 <= j < polls - 1 ==> !flags@[j]) && final(self)@.phase
                    == TransferPhase::Complete,
                Err(error) => error == WaitError::TimedOut && (forall|j: int|
                    0 <= j < flags@.len() ==> !flags@[j]) && final(self)@.phase
                    == TransferPhase::Running,
            },
    {
        match self.phase {
            TransferPhase::Ready => Err(WaitError::NotStarted),
            TransferPhase::Complete => Ok(0),
            TransferPhase::Running => {
                let mut polls: usize = 0;
                while polls < flags.len()
                    invariant
                        polls <= flags@.len(),
                        old(self)@.phase == TransferPhase::Running,
                        self@.phase == TransferPhase::Running,
                        self@.config == old(self)@.config,
                        self@.contents == old(self)@.contents,
                        forall|j: int| 0 <= j < polls ==> !flags@[j],
                    decreases flags@.len() - polls,
                {
                    let action = self.step(TransferEvent::Poll { complete: flags[polls] });
                    polls += 1;
                    match action {
                        TransferAction::Deliver => {
                            return Ok(polls);
                        },
                        _ => {},
                    }
                }
                Err(WaitError::TimedOut)
            },
        }
    }

    /// Ends the transfer and hands out the block, holding what the stream
    /// wrote: `captured`. The handle comes back as it was while the transfer
    /// is not complete, or where `captured` is not exactly one block long.
    pub fn into_buffer(self, captured: &[u16]) -> (done: Result<SampleBuffer, TransferHandle>)
        ensures
            self@.phase == TransferPhase::Complete && captured@.len() == SAMPLE_COUNT ==> (
            done matches Ok(buffer) && buffer@ == captured@),
            !(self@.phase == TransferPhase::Complete && captured@.len() == SAMPLE_COUNT) ==> (
            done matches Err(handle) && handle@ == self@),
    {
        if !self.is_complete() || captured.len() != SAMPLE_COUNT {
            return Err(self);
        }
        let mut buffer = self.buffer;
        let written = buffer.overwrite(captured);
        Ok(buffer)
    }
}

} // verus!
