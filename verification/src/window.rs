//! The bounded window of recent readings and its arithmetic mean.

use vstd::prelude::*;
use crate::reading::StealReading;

verus! {

/// The last `capacity` elements of `readings`, or all of them where there
/// are no more than that.
pub open spec fn most_recent(readings: Seq<nat>, capacity: nat) -> Seq<nat> {
    if readings.len() <= capacity {
        readings
    } else {
        readings.skip(readings.len() - capacity)
    }
}

/// The window after `reading` has arrived: the reading is appended, and the
/// oldest ones leave first as far as the capacity requires.
pub open spec fn pushed(window: Seq<nat>, capacity: nat, reading: nat) -> Seq<nat> {
    most_recent(window.push(reading), capacity)
}

/// The window after `readings` have arrived one by one, oldest first.
pub open spec fn fed(window: Seq<nat>, capacity: nat, readings: Seq<nat>) -> Seq<nat>
    decreases readings.len(),
{
    if readings.len() == 0 {
        window
    } else {
        pushed(fed(window, capacity, readings.drop_last()), capacity, readings.last())
    }
}

/// The sum of `readings`.
pub open spec fn total_of(readings: Seq<nat>) -> nat
    decreases readings.len(),
{
    if readings.len() == 0 {
        0
    } else {
        total_of(readings.drop_last()) + readings.last()
    }
}

/// The arithmetic mean of `readings`, rounded down to a whole unit; none
/// where there are no readings.
pub open spec fn mean_of(readings: Seq<nat>) -> Option<nat> {
    if readings.len() == 0 {
        None
    } else {
        Some(total_of(readings) / readings.len())
    }
}

/// An ordered, size-bounded sequence of readings, oldest first.
///
/// The view is the sequence of the readings' units. The window never holds
/// more readings than its capacity.
#[derive(Debug)]
pub struct SlidingWindow {
    readings: Vec<StealReading>,
    capacity: usize,
}

impl View for SlidingWindow {
    type V = Seq<nat>;

    closed spec fn view(&self) -> Seq<nat> {
        self.readings@.map_values(|reading: StealReading| reading@)
    }
}

impl SlidingWindow {
    #[verifier::type_invariant]
    spec fn within_capacity(&self) -> bool {
        self.readings@.len() <= self.capacity
    }

    /// The largest number of readings that the window holds.
    pub closed spec fn spec_capacity(&self) -> nat {
        self.capacity as nat
    }

    /// An empty window that keeps the most recent `capacity` readings.
    pub fn new(capacity: usize) -> (window: SlidingWindow)
        ensures
            window@ == Seq::<nat>::empty(),
            window.spec_capacity() == capacity,
    {
        SlidingWindow { readings: Vec::new(), capacity }
    }

    /// The largest number of readings that the window holds.
    pub fn capacity(&self) -> (capacity: usize)
        ensures
            capacity == self.spec_capacity(),
    {
        self.capacity
    }

    /// The number of readings in the window.
    pub fn len(&self) -> (len: usize)
        ensures
            len == self@.len(),
            len <= self.spec_capacity(),
    {
        proof {
            use_type_invariant(self);
        }
        self.readings.len()
    }

    /// Whether the window holds no reading.
    pub fn is_empty(&self) -> (empty: bool)
        ensures
            empty <==> self@.len() == 0,
    {
        self.readings.len() == 0
    }

    /// The reading at `index`, counted from the oldest; `None` exactly when
    /// the window holds no more than `index` readings.
    pub fn get(&self, index: usize) -> (reading: Option<StealReading>)
        ensures
            match reading {
                Some(found) => index < self@.len() && found@ == self@[index as int],
                None => index >= self@.len(),
            },
    {
        if index < self.readings.len() {
            Some(self.readings[index])
        } else {
            None
        }
    }

    /// The readings in the window, oldest first.
    pub fn readings(&self) -> (readings: Vec<StealReading>)
        ensures
            readings@.len() == self@.len(),
            forall|i: int| 0 <= i < readings@.len() ==> (#[trigger] readings@[i])@ == self@[i],
    {
        let mut readings: Vec<StealReading> = Vec::new();
        let mut i: usize = 0;
        while i < self.readings.len()
            invariant
                i <= self.readings@.len(),
                readings@ == self.readings@.take(i as int),
            decreases self.readings@.len() - i,
        {
            readings.push(self.readings[i]);
            i += 1;
        }
        readings
    }

    /// Appends `reading`; where the window is full, the oldest reading leaves
    /// first. The capacity stays as it is.
    pub fn push(&mut self, reading: StealReading)
        ensures
            final(self)@ == pushed(old(self)@, old(self).spec_capacity(), reading@),
            final(self).spec_capacity() == old(self).spec_capacity(),
            final(self)@.len() <= final(self).spec_capacity(),
    {
        proof {
            use_type_invariant(&*self);
        }
        if self.capacity == 0 {
            return ;
        }
        let mut readings: Vec<StealReading> = Vec::new();
        std::mem::swap(&mut self.readings, &mut readings);
        if readings.len() == self.capacity {
            readings.remove(0);
        }
        readings.push(reading);
        self.readings = readings;
    }

    /// The sum of the readings in the window.
    pub fn total(&self) -> (total: u128)
        ensures
            total == total_of(self@),
    {
        let mut total: u128 = 0;
        let mut i: usize = 0;
        while i < self.readings.len()
            invariant
                i <= self.readings@.len(),
                total == total_of(self@.take(i as int)),
                total <= i * u64::MAX,
            decreases self.readings@.len() - i,
        {
            let reading = self.readings[i];
            assert(self@.take(i + 1).drop_last() =~= self@.take(i as int));
            assert((i + 1) * u64::MAX <= u128::MAX) by (nonlinear_arith)
                requires
                    i < usize::MAX,
                    usize::MAX <= u64::MAX,
            ;
            assert((i + 1) * u64::MAX == i * u64::MAX + u64::MAX) by (nonlinear_arith);
            total = total + reading.micro_percent as u128;
            i += 1;
        }
        assert(self@.take(i as int) =~= self@);
        total
    }

    /// The arithmetic mean of the readings in the window, rounded down to a
    /// whole unit; `None` exactly when the window is empty.
    pub fn mean(&self) -> (mean: Option<StealReading>)
        ensures
            match mean {
                Some(average) => mean_of(self@) == Some(average@),
                None => mean_of(self@) is None,
            },
    {
        let count = self.readings.len();
        if count == 0 {
            return None;
        }
        let total = self.total();
        proof {
            lemma_total_bound(self@, u64::MAX as nat);
            lemma_quotient_bound(total as nat, count as nat, u64::MAX as nat);
        }
        let average: u128 = total / (count as u128);
        Some(StealReading { micro_percent: average as u64 })
    }
}

/// Trimming a sequence before its newest element arrives changes nothing of
/// what is kept once it has arrived.
proof fn lemma_most_recent_push(readings: Seq<nat>, capacity: nat, reading: nat)
    ensures
        pushed(most_recent(readings, capacity), capacity, reading) == pushed(
            readings,
            capacity,
            reading,
        ),
{
    assert(pushed(most_recent(readings, capacity), capacity, reading) =~= pushed(
        readings,
        capacity,
        reading,
    ));
}

/// First in, first out: after any readings have arrived in a window, it
/// holds exactly the most recent ones, as many as its capacity allows, in
/// the order of their arrival. Once at least `capacity` readings have
/// arrived, nothing of what the window held before is left, and its mean is
/// the mean of the last `capacity` arrivals.
pub proof fn lemma_fed_keeps_most_recent(window: Seq<nat>, capacity: nat, readings: Seq<nat>)
    requires
        window.len() <= capacity,
    ensures
        fed(window, capacity, readings) == most_recent(window + readings, capacity),
        fed(window, capacity, readings).len() <= capacity,
        readings.len() >= capacity ==> fed(window, capacity, readings) == readings.skip(
            readings.len() - capacity,
        ),
        readings.len() >= capacity ==> mean_of(fed(window, capacity, readings)) == mean_of(
            readings.skip(readings.len() - capacity),
        ),
    decreases readings.len(),
{
    if readings.len() > 0 {
        let earlier = readings.drop_last();
        lemma_fed_keeps_most_recent(window, capacity, earlier);
        lemma_most_recent_push(window + earlier, capacity, readings.last());
    }
    if readings.len() >= capacity {
        assert(most_recent(window + readings, capacity) =~= readings.skip(
            readings.len() - capacity,
        ));
    }
}

/// A sum of `n` numbers that are each at most `bound` is at most `n * bound`.
proof fn lemma_total_bound(readings: Seq<nat>, bound: nat)
    requires
        forall|i: int| 0 <= i < readings.len() ==> readings[i] <= bound,
    ensures
        total_of(readings) <= readings.len() * bound,
    decreases readings.len(),
{
    if readings.len() > 0 {
        lemma_total_bound(readings.drop_last(), bound);
        assert(readings.len() * bound == (readings.len() - 1) * bound + bound)
            by (nonlinear_arith);
    }
}

/// A total of at most `count * bound` has a mean of at most `bound`.
proof fn lemma_quotient_bound(total: nat, count: nat, bound: nat)
    by (nonlinear_arith)
    requires
        0 < count,
        total <= count * bound,
    ensures
        total / count <= bound,
{
}

} // verus!
