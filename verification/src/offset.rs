//! Taking the mean out of a block of samples, exactly.
//!
//! The mean of whole numbers is a fraction: their sum over their count. So
//! the normalizer returns the sum, and leaves every value in units of one
//! over the count: a value `v` of `n` values with sum `s` becomes
//! `n * v - s`, which stands for `v - s / n`. Nothing is rounded, and what is
//! left sums to 0.
use vstd::prelude::*;
use crate::buffer::{SampleBuffer, SAMPLE_COUNT};

verus! {

/// Sum of `values`.
pub open spec fn sum_of(values: Seq<int>) -> int
    decreases values.len(),
{
    if values.len() == 0 {
        0
    } else {
        sum_of(values.drop_last()) + values.last()
    }
}

/// `values` with their mean taken from each of them, in units of one over
/// their count: entry `i` is `count * values[i] - sum`, which stands for
/// `values[i] - sum / count`.
pub open spec fn centered(values: Seq<int>) -> Seq<int> {
    Seq::new(values.len(), |i: int| values.len() * values[i] - sum_of(values))
}

/// The numbers that `values` hold.
pub open spec fn ints_of(values: Seq<i64>) -> Seq<int> {
    Seq::new(values.len(), |i: int| values[i] as int)
}

/// The numbers that `samples` hold.
pub open spec fn widened(samples: Seq<u16>) -> Seq<int> {
    Seq::new(samples.len(), |i: int| samples[i] as int)
}

/// The sum grows by the value that is appended.
pub proof fn lemma_sum_of_push(values: Seq<int>, value: int)
    ensures
        sum_of(values.push(value)) == sum_of(values) + value,
{
    assert(values.push(value).drop_last() =~= values);
}

/// Scaling every value by `factor` and taking `offset` from it scales the sum
/// and takes `offset` from it once for each value.
pub proof fn lemma_sum_of_scaled(values: Seq<int>, factor: int, offset: int)
    ensures
        sum_of(Seq::new(values.len(), |i: int| factor * values[i] - offset)) == factor * sum_of(
            values,
        ) - values.len() * offset,
    decreases values.len(),
{
    let moved = Seq::new(values.len(), |i: int| factor * values[i] - offset);
    if values.len() > 0 {
        let head = values.drop_last();
        lemma_sum_of_scaled(head, factor, offset);
        assert(moved.drop_last() =~= Seq::new(head.len(), |i: int| factor * head[i] - offset));
        assert(factor * (sum_of(head) + values.last()) - (head.len() + 1) * offset == factor
            * sum_of(head) - head.len() * offset + factor * values.last() - offset)
            by (nonlinear_arith);
    }
}

/// After the mean is out, the mean of what is left is 0: the centered values
/// sum to 0, whatever the values were.
pub proof fn lemma_centered_sums_to_zero(values: Seq<int>)
    ensures
        sum_of(centered(values)) == 0,
{
    let count = values.len() as int;
    lemma_sum_of_scaled(values, count, sum_of(values));
    assert(centered(values) =~= Seq::new(
        values.len(),
        |i: int| count * values[i] - sum_of(values),
    ));
}

/// Centering moves every value by the mean and by nothing else: where the
/// sum lies within `bound` of 0, every value, in units of one over the count,
/// is moved by at most `bound`.
pub proof fn lemma_moved_by_the_mean(values: Seq<int>, bound: int)
    requires
        -bound <= sum_of(values) <= bound,
    ensures
        forall|i: int|
            0 <= i < values.len() ==> -bound <= #[trigger] centered(values)[i] - values.len()
                * values[i] <= bound,
{
}

/// Values whose mean is 0 already stay as they are: each comes back as
/// itself, in units of one over the count.
pub proof fn lemma_zero_mean_is_fixed(values: Seq<int>)
    requires
        sum_of(values) == 0,
    ensures
        forall|i: int|
            0 <= i < values.len() ==> #[trigger] centered(values)[i] == values.len() * values[i],
{
}

/// Centering what was centered before finds the mean 0 and changes no value:
/// each comes back as itself, in units of one over the count.
pub proof fn lemma_centered_twice(values: Seq<int>)
    ensures
        sum_of(centered(values)) == 0,
        centered(centered(values)).len() == values.len(),
        forall|i: int|
            0 <= i < values.len() ==> #[trigger] centered(centered(values))[i] == values.len()
                * centered(values)[i],
{
    lemma_centered_sums_to_zero(values);
    lemma_zero_mean_is_fixed(centered(values));
}

/// A block that holds one value throughout has that value as its mean, its
/// sum being the value once for each slot, and is all 0 once centered.
pub proof fn lemma_constant_block(value: int, count: nat)
    ensures
        sum_of(Seq::new(count, |i: int| value)) == count * value,
        centered(Seq::new(count, |i: int| value)) == Seq::new(count, |i: int| 0int),
{
    let block = Seq::new(count, |i: int| value);
    let zeros = Seq::new(count, |i: int| 0int);
    lemma_sum_of_constant(value, count);
    assert(centered(block) =~= zeros);
}

/// A block that holds one value throughout sums to that value once for each
/// slot.
pub proof fn lemma_sum_of_constant(value: int, count: nat)
    ensures
        sum_of(Seq::new(count, |i: int| value)) == count * value,
    decreases count,
{
    let block = Seq::new(count, |i: int| value);
    if count > 0 {
        let shorter = (count - 1) as nat;
        lemma_sum_of_constant(value, shorter);
        assert(block.drop_last() =~= Seq::new(shorter, |i: int| value));
        assert(block.last() == value);
        assert(count * value == shorter * value + value) by (nonlinear_arith)
            requires
                count == shorter + 1,
        ;
    } else {
        assert(count * value == 0) by (nonlinear_arith)
            requires
                count == 0,
        ;
    }
}

/// The sum of a block of samples is at most the largest sample for each slot.
pub proof fn lemma_sum_of_samples_bound(samples: Seq<u16>)
    ensures
        0 <= sum_of(widened(samples)) <= samples.len() * 0xFFFF,
    decreases samples.len(),
{
    if samples.len() > 0 {
        lemma_sum_of_samples_bound(samples.drop_last());
        assert(widened(samples).drop_last() =~= widened(samples.drop_last()));
    }
}

/// Sum of the samples of a block. It cannot overflow: a full block of the
/// largest sample stays far below the range of the result.
pub fn sample_sum(buffer: &SampleBuffer) -> (total: u32)
    ensures
        total == sum_of(widened(buffer@)),
{
    let samples = buffer.as_slice();
    let ghost all = widened(buffer@);
    let mut total: u32 = 0;
    let mut index: usize = 0;
    while index < SAMPLE_COUNT
        invariant
            index <= SAMPLE_COUNT,
            samples@.len() == SAMPLE_COUNT,
            samples@ == buffer@,
            all == widened(buffer@),
            total == sum_of(all.take(index as int)),
            total <= index * 0xFFFF,
        decreases SAMPLE_COUNT - index,
    {
        proof {
            assert(all.take(index + 1) =~= all.take(index as int).push(samples@[index as int] as int));
            lemma_sum_of_push(all.take(index as int), samples@[index as int] as int);
        }
        total = total + samples[index] as u32;
        index += 1;
    }
    assert(all.take(SAMPLE_COUNT as int) =~= all);
    total
}

/// The samples of a block as signed values, each keeping its value.
pub fn widen(buffer: &SampleBuffer) -> (values: Vec<i64>)
    ensures
        values@.len() == SAMPLE_COUNT,
        buffer@.len() == SAMPLE_COUNT,
        forall|i: int| 0 <= i < SAMPLE_COUNT ==> #[trigger] values@[i] == buffer@[i],
        ints_of(values@) == widened(buffer@),
{
    let samples = buffer.as_slice();
    let mut values: Vec<i64> = Vec::with_capacity(SAMPLE_COUNT);
    let mut index: usize = 0;
    while index < SAMPLE_COUNT
        invariant
            index <= SAMPLE_COUNT,
            samples@.len() == SAMPLE_COUNT,
            samples@ == buffer@,
            values@.len() == index,
            forall|i: int| 0 <= i < index ==> values@[i] == samples@[i],
        decreases SAMPLE_COUNT - index,
    {
        values.push(samples[index] as i64);
        index += 1;
    }
    assert(ints_of(values@) =~= widened(buffer@));
    values
}

/// Takes the mean out of `values` in place and returns their sum. The mean
/// is that sum over the count; every value is left in units of one over the
/// count, as the count times the value less the sum.
///
/// The values must not be empty, and every value that is left must fit the
/// value type.
pub fn normalize(values: &mut Vec<i64>) -> (total: i128)
    requires
        old(values)@.len() > 0,
        forall|i: int|
            0 <= i < old(values)@.len() ==> i64::MIN <= old(values)@.len() * (#[trigger] old(
                values,
            )@[i]) - sum_of(ints_of(old(values)@)) <= i64::MAX,
    ensures
        total == sum_of(ints_of(old(values)@)),
        final(values)@.len() == old(values)@.len(),
        forall|i: int|
            0 <= i < old(values)@.len() ==> #[trigger] final(values)@[i] == old(values)@.len()
                * old(values)@[i] - total,
        ints_of(final(values)@) == centered(ints_of(old(values)@)),
        sum_of(ints_of(final(values)@)) == 0,
{
    let count = values.len();
    let ghost before = ints_of(values@);
    let mut total: i128 = 0;
    let mut index: usize = 0;
    while index < count
        invariant
            index <= count,
            count == values@.len(),
            values@ == old(values)@,
            before == ints_of(values@),
            total == sum_of(before.take(index as int)),
            -index * 0x8000_0000_0000_0000 <= total <= index * 0x7FFF_FFFF_FFFF_FFFF,
        decreases count - index,
    {
        proof {
            assert(before.take(index + 1) =~= before.take(index as int).push(
                values@[index as int] as int,
            ));
            lemma_sum_of_push(before.take(index as int), values@[index as int] as int);
        }
        total = total + values[index] as i128;
        index += 1;
    }
    assert(before.take(count as int) =~= before);
    let mut index: usize = 0;
    while index < count
        invariant
            index <= count,
            count == values@.len(),
            values@.len() == old(values)@.len(),
            total == sum_of(ints_of(old(values)@)),
            forall|i: int|
                0 <= i < old(values)@.len() ==> i64::MIN <= old(values)@.len() * (#[trigger] old(
                    values,
                )@[i]) - sum_of(ints_of(old(values)@)) <= i64::MAX,
            forall|i: int| 0 <= i < index ==> values@[i] == count * old(values)@[i] - total,
            forall|i: int| index <= i < count ==> values@[i] == old(values)@[i],
        decreases count - index,
    {
        let value = values[index];
        assert(value == old(values)@[index as int]);
        assert(-0x8000_0000_0000_0000_0000_0000_0000_0000 < count * value
            < 0x8000_0000_0000_0000_0000_0000_0000_0000) by (nonlinear_arith)
            requires
                0 <= count <= 0xFFFF_FFFF_FFFF_FFFF,
                -0x8000_0000_0000_0000 <= value <= 0x7FFF_FFFF_FFFF_FFFF,
        ;
        let scaled: i128 = (count as i128) * (value as i128);
        let moved: i128 = scaled - total;
        values.set(index, moved as i64);
        index += 1;
    }
    proof {
        assert(ints_of(values@) =~= centered(before));
        lemma_centered_sums_to_zero(before);
    }
    total
}

/// The samples of a block with their mean taken out, and their sum. The mean
/// is the sum over `SAMPLE_COUNT`, and every value is left in units of one
/// over `SAMPLE_COUNT`.
pub fn center(buffer: &SampleBuffer) -> (out: (Vec<i64>, u32))
    ensures
        out.0@.len() == SAMPLE_COUNT,
        buffer@.len() == SAMPLE_COUNT,
        out.1 == sum_of(widened(buffer@)),
        forall|i: int|
            0 <= i < SAMPLE_COUNT ==> #[trigger] out.0@[i] == SAMPLE_COUNT * buffer@[i] - out.1,
        ints_of(out.0@) == centered(widened(buffer@)),
        sum_of(ints_of(out.0@)) == 0,
{
    let mut values = widen(buffer);
    let ghost kept = values@;
    proof {
        lemma_sum_of_samples_bound(buffer@);
        assert forall|i: int| 0 <= i < values@.len() implies i64::MIN <= values@.len() * (
        #[trigger] values@[i]) - sum_of(ints_of(values@)) <= i64::MAX by {
            assert(values@[i] == buffer@[i]);
        }
    }
    let total = normalize(&mut values);
    proof {
        assert forall|i: int| 0 <= i < SAMPLE_COUNT implies #[trigger] values@[i] == SAMPLE_COUNT
            * buffer@[i] - total by {
            assert(kept[i] == buffer@[i]);
        }
    }
    (values, total as u32)
}

} // verus!
