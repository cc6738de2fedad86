//! The sample block and the two-phase handle that brings it into being.
use vstd::prelude::*;

verus! {

/// Number of samples in one captured block.
pub const SAMPLE_COUNT: usize = 1024;

/// A block of `SAMPLE_COUNT` samples, every one of them holding a written value.
#[derive(Debug)]
pub struct SampleBuffer {
    samples: Vec<u16>,
}

impl View for SampleBuffer {
    type V = Seq<u16>;

    closed spec fn view(&self) -> Seq<u16> {
        self.samples@
    }
}

impl SampleBuffer {
    #[verifier::type_invariant]
    spec fn inv(&self) -> bool {
        self.samples@.len() == SAMPLE_COUNT
    }

    /// The block in which every sample is 0, built slot by slot through an
    /// `UninitBuffer`.
    pub fn zeroed() -> (buffer: SampleBuffer)
        ensures
            buffer@.len() == SAMPLE_COUNT,
            forall|i: int| 0 <= i < SAMPLE_COUNT ==> buffer@[i] == 0,
    {
        let mut raw = UninitBuffer::new();
        let mut index: usize = 0;
        while index < SAMPLE_COUNT
            invariant
                index <= SAMPLE_COUNT,
                raw@.len() == SAMPLE_COUNT,
                forall|i: int| 0 <= i < index ==> raw@[i] == Some(0u16),
            decreases SAMPLE_COUNT - index,
        {
            raw = raw.write(index, 0);
            index += 1;
        }
        match raw.finish() {
            Ok(buffer) => buffer,
            Err(_) => unreached(),
        }
    }

    /// Takes over `samples` as a block. The vector comes back where its length
    /// is not `SAMPLE_COUNT`.
    pub fn from_samples(samples: Vec<u16>) -> (made: Result<SampleBuffer, Vec<u16>>)
        ensures
            samples@.len() == SAMPLE_COUNT ==> (made matches Ok(buffer) && buffer@ == samples@),
            samples@.len() != SAMPLE_COUNT ==> (made matches Err(rest) && rest == samples),
    {
        if samples.len() == SAMPLE_COUNT {
            Ok(SampleBuffer { samples })
        } else {
            Err(samples)
        }
    }

    /// Number of samples in the block: always `SAMPLE_COUNT`.
    pub fn len(&self) -> (n: usize)
        ensures
            n == SAMPLE_COUNT,
            n == self@.len(),
    {
        proof {
            use_type_invariant(self);
        }
        self.samples.len()
    }

    /// The sample in slot `index`, or `None` past the end of the block.
    pub fn get(&self, index: usize) -> (sample: Option<u16>)
        ensures
            self@.len() == SAMPLE_COUNT,
            index < SAMPLE_COUNT ==> sample == Some(self@[index as int]),
            index >= SAMPLE_COUNT ==> sample.is_none(),
    {
        proof {
            use_type_invariant(self);
        }
        if index < self.samples.len() {
            Some(self.samples[index])
        } else {
            None
        }
    }

    /// The samples in slot order.
    pub fn as_slice(&self) -> (samples: &[u16])
        ensures
            samples@ == self@,
            samples@.len() == SAMPLE_COUNT,
    {
        proof {
            use_type_invariant(self);
        }
        self.samples.as_slice()
    }

    /// Overwrites the whole block with `captured`, slot by slot. Nothing is
    /// written, and `false` comes back, where `captured` is not exactly one
    /// block long.
    pub fn overwrite(&mut self, captured: &[u16]) -> (written: bool)
        ensures
            written == (captured@.len() == SAMPLE_COUNT),
            written ==> final(self)@ == captured@,
            !written ==> final(self)@ == old(self)@,
            final(self)@.len() == SAMPLE_COUNT,
    {
        proof {
            use_type_invariant(&*self);
        }
        if captured.len() != SAMPLE_COUNT {
            return false;
        }
        let mut fresh: Vec<u16> = Vec::with_capacity(SAMPLE_COUNT);
        let mut index: usize = 0;
        while index < SAMPLE_COUNT
            invariant
                index <= SAMPLE_COUNT,
                captured@.len() == SAMPLE_COUNT,
                fresh@.len() == index,
                forall|i: int| 0 <= i < index ==> fresh@[i] == captured@[i],
            decreases SAMPLE_COUNT - index,
        {
            fresh.push(captured[index]);
            index += 1;
        }
        assert(fresh@ =~= captured@);
        self.samples = fresh;
        true
    }
}

/// A block under construction. Its slots can be written and never read, and
/// it turns into a `SampleBuffer` only once every slot has been written.
#[derive(Debug)]
pub struct UninitBuffer {
    slots: Vec<Option<u16>>,
}

impl View for UninitBuffer {
    type V = Seq<Option<u16>>;

    closed spec fn view(&self) -> Seq<Option<u16>> {
        self.slots@
    }
}

/// Whether every slot of `slots` holds a written value.
pub open spec fn all_written(slots: Seq<Option<u16>>) -> bool {
    forall|i: int| 0 <= i < slots.len() ==> (#[trigger] slots[i]).is_some()
}

/// The values that fully written `slots` hold, in slot order.
pub open spec fn written_values(slots: Seq<Option<u16>>) -> Seq<u16> {
    Seq::new(slots.len(), |i: int| slots[i].unwrap())
}

impl UninitBuffer {
    #[verifier::type_invariant]
    spec fn inv(&self) -> bool {
        self.slots@.len() == SAMPLE_COUNT
    }

    /// A block with `SAMPLE_COUNT` slots, none of them written.
    pub fn new() -> (raw: UninitBuffer)
        ensures
            raw@.len() == SAMPLE_COUNT,
            forall|i: int| 0 <= i < SAMPLE_COUNT ==> raw@[i].is_none(),
    {
        let mut slots: Vec<Option<u16>> = Vec::with_capacity(SAMPLE_COUNT);
        while slots.len() < SAMPLE_COUNT
            invariant
                slots@.len() <= SAMPLE_COUNT,
                forall|i: int| 0 <= i < slots@.len() ==> slots@[i].is_none(),
            decreases SAMPLE_COUNT - slots@.len(),
        {
            slots.push(None);
        }
        UninitBuffer { slots }
    }

    /// Writes `value` into slot `index` without looking at what the slot held,
    /// and hands the handle on. Past the end of the block nothing is written.
    pub fn write(self, index: usize, value: u16) -> (next: UninitBuffer)
        ensures
            next@.len() == SAMPLE_COUNT,
            index < SAMPLE_COUNT ==> next@ == self@.update(index as int, Some(value)),
            index >= SAMPLE_COUNT ==> next@ == self@,
    {
        proof {
            use_type_invariant(&self);
        }
        let mut slots = self.slots;
        if index < slots.len() {
            slots.set(index, Some(value));
        }
        UninitBuffer { slots }
    }

    /// Whether every slot has been written.
    pub fn is_complete(&self) -> (complete: bool)
        ensures
            complete == all_written(self@),
    {
        proof {
            use_type_invariant(self);
        }
        let mut index: usize = 0;
        while index < SAMPLE_COUNT
            invariant
                index <= SAMPLE_COUNT,
                self.slots@.len() == SAMPLE_COUNT,
                forall|i: int| 0 <= i < index ==> (#[trigger] self.slots@[i]).is_some(),
            decreases SAMPLE_COUNT - index,
        {
            if self.slots[index].is_none() {
                return false;
            }
            index += 1;
        }
        true
    }

    /// Turns the handle into the finished block. Where a slot was never
    /// written the handle comes back as it was.
    pub fn finish(self) -> (done: Result<SampleBuffer, UninitBuffer>)
        ensures
            all_written(self@) ==> (done matches Ok(buffer) && buffer@ == written_values(self@)),
            !all_written(self@) ==> (done matches Err(raw) && raw@ == self@),
    {
        proof {
            use_type_invariant(&self);
        }
        if !self.is_complete() {
            return Err(self);
        }
        let mut samples: Vec<u16> = Vec::with_capacity(SAMPLE_COUNT);
        let mut index: usize = 0;
        while index < SAMPLE_COUNT
            invariant
                index <= SAMPLE_COUNT,
                self.slots@.len() == SAMPLE_COUNT,
                all_written(self.slots@),
                samples@.len() == index,
                forall|i: int| 0 <= i < index ==> samples@[i] == self.slots@[i].unwrap(),
            decreases SAMPLE_COUNT - index,
        {
            match self.slots[index] {
                Some(value) => samples.push(value),
                None => {},
            }
            index += 1;
        }
        assert(samples@ =~= written_values(self@));
        Ok(SampleBuffer { samples })
    }
}

} // verus!
