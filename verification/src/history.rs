//! The rolling history of utilization samples that the chart is drawn from.

use std::collections::VecDeque;
use vstd::prelude::*;

use crate::rate::Percentage;

verus! {

/// The number of samples the history keeps: one minute at one tick a second.
pub const HISTORY_CAPACITY: usize = 60;

/// One point of the chart.
#[derive(Clone, Copy, Debug, PartialEq, Eq, Structural)]
pub struct RateSample {
    /// The ordinal of the tick that produced the sample, counted from one.
    /// It is the point's x-coordinate and says nothing of wall-clock time.
    pub elapsed_index: u64,
    /// The utilization derived at that tick.
    pub percentage: Percentage,
}

/// The most recent `HISTORY_CAPACITY` entries of `samples`, oldest first.
pub open spec fn most_recent(samples: Seq<RateSample>) -> Seq<RateSample> {
    if samples.len() > HISTORY_CAPACITY {
        samples.skip(samples.len() - HISTORY_CAPACITY)
    } else {
        samples
    }
}

/// The window that results from appending `sample` to `window`: the sample
/// goes to the back, and what no longer fits leaves from the front.
pub open spec fn appended(window: Seq<RateSample>, sample: RateSample) -> Seq<RateSample> {
    most_recent(window.push(sample))
}

/// The window that results from appending every entry of `samples`, in
/// order, to an empty window.
pub open spec fn filled(samples: Seq<RateSample>) -> Seq<RateSample>
    decreases samples.len(),
{
    if samples.len() == 0 {
        Seq::empty()
    } else {
        appended(filled(samples.drop_last()), samples.last())
    }
}

/// The x-coordinate of the newest entry of `window`, and zero for a window
/// that holds nothing yet.
pub open spec fn latest_index_of(window: Seq<RateSample>) -> u64 {
    if window.len() == 0 {
        0
    } else {
        window.last().elapsed_index
    }
}

/// Appending never lets a window grow past its capacity, whatever it held
/// before.
pub proof fn lemma_appended_within_capacity(window: Seq<RateSample>, sample: RateSample)
    ensures
        appended(window, sample).len() <= HISTORY_CAPACITY,
        appended(window, sample).len() > 0,
        appended(window, sample).last() == sample,
{
}

/// A window with room left keeps all it held and gains the sample at the
/// back; a full one loses its oldest entry and nothing else.
pub proof fn lemma_appended_is_fifo(window: Seq<RateSample>, sample: RateSample)
    requires
        window.len() <= HISTORY_CAPACITY,
    ensures
        window.len() < HISTORY_CAPACITY ==> appended(window, sample) == window.push(sample),
        window.len() == HISTORY_CAPACITY ==> appended(window, sample) == window.drop_first().push(
            sample,
        ),
{
    if window.len() == HISTORY_CAPACITY {
        assert(appended(window, sample) =~= window.drop_first().push(sample));
    }
}

/// After any run of appends to an empty window, the window holds exactly the
/// most recent `HISTORY_CAPACITY` of the samples appended, in the order in
/// which they came.
pub proof fn lemma_filled_keeps_most_recent(samples: Seq<RateSample>)
    ensures
        filled(samples) == most_recent(samples),
        filled(samples).len() <= HISTORY_CAPACITY,
    decreases samples.len(),
{
    if samples.len() > 0 {
        let earlier = samples.drop_last();
        lemma_filled_keeps_most_recent(earlier);
        assert(earlier.push(samples.last()) =~= samples);
        assert(most_recent(most_recent(earlier).push(samples.last())) =~= most_recent(samples));
    }
}

/// Sixty-one appends to an empty window leave the second to the sixty-first
/// sample, in order.
pub proof fn lemma_sixty_one_appends_keep_last_sixty(samples: Seq<RateSample>)
    requires
        samples.len() == HISTORY_CAPACITY + 1,
    ensures
        filled(samples) == samples.skip(1),
        filled(samples).len() == HISTORY_CAPACITY,
        filled(samples).first() == samples[1],
        filled(samples).last() == samples.last(),
{
    lemma_filled_keeps_most_recent(samples);
}

/// After sixty-one appends to an empty window the first sample appended is
/// gone and the sixty-first is there.
///
/// "Gone" is meant of the value, so the law is stated for a first sample
/// that none of the later ones repeats.
pub proof fn lemma_first_of_sixty_one_is_evicted(samples: Seq<RateSample>)
    requires
        samples.len() == HISTORY_CAPACITY + 1,
        forall|i: int| 1 <= i < samples.len() ==> #[trigger] samples[i] != samples[0],
    ensures
        !filled(samples).contains(samples[0]),
        filled(samples).contains(samples.last()),
{
    lemma_sixty_one_appends_keep_last_sixty(samples);
    assert(filled(samples)[HISTORY_CAPACITY - 1] == samples.last());
}

/// A first-in, first-out buffer of at most `HISTORY_CAPACITY` samples.
pub struct HistoryWindow {
    samples: VecDeque<RateSample>,
}

impl View for HistoryWindow {
    type V = Seq<RateSample>;

    /// The samples held, oldest first.
    closed spec fn view(&self) -> Seq<RateSample> {
        self.samples@
    }
}

impl HistoryWindow {
    #[verifier::type_invariant]
    spec fn within_capacity(&self) -> bool {
        self.samples@.len() <= HISTORY_CAPACITY
    }

    /// An empty window.
    pub fn new() -> (window: HistoryWindow)
        ensures
            window@ == Seq::<RateSample>::empty(),
    {
        HistoryWindow { samples: VecDeque::new() }
    }

    /// The number of samples held.
    pub fn len(&self) -> (n: usize)
        ensures
            n == self@.len(),
            n <= HISTORY_CAPACITY,
    {
        proof {
            use_type_invariant(self);
        }
        self.samples.len()
    }

    /// Appends `sample` at the back.  When the window is full the oldest
    /// sample leaves first, so the window never grows past its capacity.
    pub fn append(&mut self, sample: RateSample)
        ensures
            final(self)@ == appended(old(self)@, sample),
            final(self)@.len() <= HISTORY_CAPACITY,
    {
        proof {
            use_type_invariant(&*self);
        }
        // The buffer is taken out while it changes, so that the window holds
        // a buffer within capacity at every step.
        let mut samples: VecDeque<RateSample> = VecDeque::new();
        std::mem::swap(&mut self.samples, &mut samples);
        if samples.len() >= HISTORY_CAPACITY {
            let _ = samples.pop_front();
        }
        samples.push_back(sample);
        std::mem::swap(&mut self.samples, &mut samples);
    }

    /// The samples held, oldest first.
    pub fn snapshot(&self) -> (samples: Vec<RateSample>)
        ensures
            samples@ == self@,
            samples@.len() <= HISTORY_CAPACITY,
    {
        proof {
            use_type_invariant(self);
        }
        let mut samples: Vec<RateSample> = Vec::new();
        let mut i: usize = 0;
        while i < self.samples.len()
            invariant
                i <= self.samples@.len(),
                samples@ == self.samples@.take(i as int),
            decreases self.samples@.len() - i,
        {
            samples.push(self.samples[i]);
            i += 1;
        }
        samples
    }

    /// The x-coordinate of the newest sample, and zero before the first
    /// append.
    pub fn latest_index(&self) -> (index: u64)
        ensures
            index == latest_index_of(self@),
    {
        let n: usize = self.samples.len();
        if n == 0 {
            0
        } else {
            self.samples[n - 1].elapsed_index
        }
    }
}

} // verus!
