//! The samples collected while a gesture is being trained.

use vstd::prelude::*;
use vstd::string::StringExecFns;
use crate::error::AppError;

verus! {

/// The sample sequences (of type `S`) captured in the current training.
pub struct SampleCollector<S> {
    samples: Vec<S>,
}

impl<S> View for SampleCollector<S> {
    type V = Seq<S>;

    closed spec fn view(&self) -> Seq<S> {
        self.samples@
    }
}

impl<S> SampleCollector<S> {
    /// A collector holding no sample.
    pub fn new() -> (r: SampleCollector<S>)
        ensures
            r@ == Seq::<S>::empty(),
    {
        SampleCollector { samples: Vec::new() }
    }

    /// Begins a new training: the samples of the previous one are dropped.
    pub fn start(&mut self)
        ensures
            final(self)@ == Seq::<S>::empty(),
    {
        self.samples.clear();
    }

    /// Adds a sample and gives its index, cut to 32 bits as `as u32` does.
    pub fn add(&mut self, sample: S) -> (r: u32)
        ensures
            final(self)@ == old(self)@.push(sample),
            r == old(self)@.len() as u32,
    {
        let idx = self.samples.len();
        self.samples.push(sample);
        #[verifier::truncate]
        (idx as u32)
    }

    /// How many samples the training holds.
    pub fn count(&self) -> (r: usize)
        ensures
            r == self@.len(),
    {
        self.samples.len()
    }

    /// The samples, in the order they were added.
    pub fn samples(&self) -> (r: &Vec<S>)
        ensures
            r@ == self@,
    {
        &self.samples
    }
}

/// A training as the collector's contracts describe it: `states[0]` is the
/// empty collection that `start` leaves, and each later state is what
/// `add` leaves after the one before it, given the next sample of `qs`.
pub open spec fn is_training_run<S>(states: Seq<Seq<S>>, qs: Seq<S>) -> bool {
    &&& states.len() == qs.len() + 1
    &&& states[0] == Seq::<S>::empty()
    &&& forall|i: int| 0 < i <= qs.len() ==> #[trigger] states[i] == states[i - 1].push(qs[i - 1])
}

proof fn lemma_run_prefix<S>(states: Seq<Seq<S>>, qs: Seq<S>, j: int)
    requires
        is_training_run(states, qs),
        0 <= j <= qs.len(),
    ensures
        states[j] == qs.take(j),
    decreases j,
{
    if j == 0 {
        assert(qs.take(0) =~= Seq::<S>::empty());
    } else {
        lemma_run_prefix(states, qs, j - 1);
        assert(states[j] == states[j - 1].push(qs[j - 1]));
        assert(qs.take(j - 1).push(qs[j - 1]) =~= qs.take(j));
    }
}

/// After a training starts and the samples `qs` are added in order, the
/// collector holds exactly `qs`, and the `i`-th `add` returned `i`: the
/// number of samples held before it, cut to 32 bits.
pub proof fn lemma_training_samples<S>(states: Seq<Seq<S>>, qs: Seq<S>)
    requires
        is_training_run(states, qs),
    ensures
        states.last() == qs,
        forall|i: int| 0 <= i < qs.len() ==> (#[trigger] states[i]).len() == i,
        forall|i: int| 0 <= i < qs.len() && i <= u32::MAX ==> (#[trigger] states[i]).len() as u32 == i,
{
    lemma_run_prefix(states, qs, qs.len() as int);
    assert(qs.take(qs.len() as int) =~= qs);
    assert forall|i: int| 0 <= i < qs.len() implies (#[trigger] states[i]).len() == i by {
        lemma_run_prefix(states, qs, i);
    }
}

/// The landmarks to capture a sample from, or the error that no hand has
/// been seen yet.
pub fn require_hand<T>(latest: Option<T>) -> (r: Result<T, AppError>)
    ensures
        match latest {
            Some(l) => r == Ok::<T, AppError>(l),
            None => r matches Err(AppError::Training(m)) && m@ == "No hand detected \u{2014} show your hand to the camera"@,
        },
{
    match latest {
        Some(l) => Ok(l),
        None => Err(AppError::Training(String::from_str("No hand detected \u{2014} show your hand to the camera"))),
    }
}

/// Where a training stands, as the frontend shows it.
#[derive(Clone, Copy, Debug)]
pub struct TrainingStatus {
    pub active: bool,
    pub gesture_id: Option<u128>,
    pub sample_count: u32,
    pub max_samples: u32,
}

} // verus!
