//! The per-hand memory of the landmark smoother: the last smoothed
//! landmarks of each hand, by hand index.

use vstd::prelude::*;
use vstd::pervasive::VecAdditionalExecFns;

verus! {

/// The last smoothed landmarks (of point type `T`) of each hand index.
pub struct SmoothingHistory<T> {
    previous: Vec<Vec<T>>,
}

impl<T> View for SmoothingHistory<T> {
    type V = Seq<Seq<T>>;

    closed spec fn view(&self) -> Seq<Seq<T>> {
        self.previous@.map_values(|v: Vec<T>| v@)
    }
}

impl<T> SmoothingHistory<T> {
    /// A history that remembers no hand.
    pub fn new() -> (r: SmoothingHistory<T>)
        ensures
            r@.len() == 0,
    {
        SmoothingHistory { previous: Vec::new() }
    }

    /// The landmarks remembered for hand `hand_idx`, if the history reaches
    /// that index (an index passed over when a later one was recorded holds
    /// no landmarks).
    pub fn previous(&self, hand_idx: usize) -> (r: Option<&Vec<T>>)
        ensures
            match r {
                Some(v) => hand_idx < self@.len() && v@ == self@[hand_idx as int],
                None => hand_idx >= self@.len(),
            },
    {
        if hand_idx < self.previous.len() {
            Some(&self.previous[hand_idx])
        } else {
            None
        }
    }

    /// Remembers `landmarks` for hand `hand_idx`, growing the history with
    /// empty entries up to that index where it is shorter.
    pub fn record(&mut self, hand_idx: usize, landmarks: Vec<T>)
        requires
            hand_idx < usize::MAX,
        ensures
            final(self)@.len() == if hand_idx < old(self)@.len() {
                old(self)@.len() as int
            } else {
                hand_idx + 1
            },
            final(self)@[hand_idx as int] == landmarks@,
            forall|j: int| 0 <= j < final(self)@.len() && j != hand_idx ==> #[trigger] final(self)@[j] == if j < old(self)@.len() {
                old(self)@[j]
            } else {
                Seq::<T>::empty()
            },
    {
        let ghost before = self@;
        while self.previous.len() <= hand_idx
            invariant
                hand_idx < usize::MAX,
                before.len() <= self.previous@.len() <= if hand_idx < before.len() { before.len() as int } else { hand_idx + 1 },
                forall|j: int| 0 <= j < self.previous@.len() ==> #[trigger] self.previous@[j]@ == if j < before.len() {
                    before[j]
                } else {
                    Seq::<T>::empty()
                },
            decreases hand_idx + 1 - self.previous@.len(),
        {
            self.previous.push(Vec::new());
        }
        self.previous.set(hand_idx, landmarks);
        assert forall|j: int| 0 <= j < self@.len() implies #[trigger] self@[j] == self.previous@[j]@ by {}
    }
}

/// After recording landmarks for a hand, the history gives them back for
/// that hand, and keeps what it remembered for every other hand it reached.
pub proof fn lemma_record_then_previous<T>(
    before: Seq<Seq<T>>,
    after: Seq<Seq<T>>,
    hand_idx: int,
    landmarks: Seq<T>,
    other: int,
)
    requires
        0 <= hand_idx,
        after.len() == if hand_idx < before.len() { before.len() as int } else { hand_idx + 1 },
        after[hand_idx] == landmarks,
        forall|j: int| 0 <= j < after.len() && j != hand_idx ==> #[trigger] after[j] == if j < before.len() {
            before[j]
        } else {
            Seq::<T>::empty()
        },
        0 <= other < before.len(),
        other != hand_idx,
    ensures
        hand_idx < after.len() && after[hand_idx] == landmarks,
        after[other] == before[other],
{
}

} // verus!
