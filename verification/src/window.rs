//! The bounded history of samples that a chart shows: a first-in, first-out
//! buffer of fixed capacity.

use vstd::prelude::*;

verus! {

/// The contents of a window that held `held` once `sample` has been pushed:
/// at capacity the oldest sample leaves first.
pub open spec fn window_push<T>(held: Seq<T>, sample: T, capacity: nat) -> Seq<T> {
    if held.len() >= capacity {
        held.drop_first().push(sample)
    } else {
        held.push(sample)
    }
}

/// The latest `capacity` samples of `all`, oldest first; all of them while
/// they are fewer.
pub open spec fn latest<T>(all: Seq<T>, capacity: nat) -> Seq<T> {
    if all.len() <= capacity {
        all
    } else {
        all.subrange(all.len() - capacity, all.len() as int)
    }
}

/// What a window of `capacity` holds after every sample of `all` has been
/// pushed into it in turn, starting empty.
pub open spec fn replay<T>(all: Seq<T>, capacity: nat) -> Seq<T>
    decreases all.len(),
{
    if all.len() == 0 {
        Seq::empty()
    } else {
        window_push(replay(all.drop_last(), capacity), all.last(), capacity)
    }
}

/// Pushing onto the latest samples of a run gives the latest samples of the
/// run that is one longer.
pub proof fn lemma_push_latest<T>(all: Seq<T>, sample: T, capacity: nat)
    requires
        capacity >= 1,
    ensures
        window_push(latest(all, capacity), sample, capacity) == latest(all.push(sample), capacity),
{
    assert(window_push(latest(all, capacity), sample, capacity) =~= latest(
        all.push(sample),
        capacity,
    ));
}

/// A window that has taken `n` samples holds `min(capacity, n)` of them, and
/// they are the most recent ones in the order in which they came.
pub proof fn lemma_replay_latest<T>(all: Seq<T>, capacity: nat)
    requires
        capacity >= 1,
    ensures
        replay(all, capacity) == latest(all, capacity),
        replay(all, capacity).len() == if all.len() <= capacity {
            all.len()
        } else {
            capacity
        },
        forall|i: int|
            0 <= i < replay(all, capacity).len() ==> replay(all, capacity)[i] == all[all.len()
                - replay(all, capacity).len() + i],
    decreases all.len(),
{
    if all.len() > 0 {
        lemma_replay_latest(all.drop_last(), capacity);
        lemma_push_latest(all.drop_last(), all.last(), capacity);
        assert(all.drop_last().push(all.last()) =~= all);
    }
}

/// A sliding window over a stream of samples. It remembers, for the proofs
/// only, every sample pushed since it was last cleared.
pub struct SampleWindow<T> {
    samples: Vec<T>,
    capacity: usize,
    pushed: Ghost<Seq<T>>,
}

impl<T> View for SampleWindow<T> {
    type V = Seq<T>;

    /// The samples held, oldest first.
    closed spec fn view(&self) -> Seq<T> {
        self.samples@
    }
}

impl<T> SampleWindow<T> {
    /// The number of samples that the window holds at most.
    pub closed spec fn spec_capacity(&self) -> usize {
        self.capacity
    }

    /// Every sample pushed since the window was made or last cleared.
    pub closed spec fn pushed(&self) -> Seq<T> {
        self.pushed@
    }

    /// The window holds the latest samples pushed, up to its capacity, which
    /// is at least one.
    pub open spec fn wf(&self) -> bool {
        &&& self.spec_capacity() >= 1
        &&& self@ == latest(self.pushed(), self.spec_capacity() as nat)
    }

    /// A window holds what a replay of all that was pushed leaves in it, and
    /// never more than its capacity.
    pub proof fn lemma_holds_replay(&self)
        requires
            self.wf(),
        ensures
            self@ == replay(self.pushed(), self.spec_capacity() as nat),
            self@.len() <= self.spec_capacity(),
            self@.len() <= self.pushed().len(),
    {
        lemma_replay_latest(self.pushed(), self.spec_capacity() as nat);
    }

    /// An empty window of the given capacity.
    pub fn new(capacity: usize) -> (window: Self)
        requires
            capacity >= 1,
        ensures
            window.wf(),
            window.spec_capacity() == capacity,
            window.pushed() == Seq::<T>::empty(),
            window@ == Seq::<T>::empty(),
    {
        SampleWindow { samples: Vec::new(), capacity, pushed: Ghost(Seq::empty()) }
    }

    /// The number of samples that the window holds at most.
    #[verifier::when_used_as_spec(spec_capacity)]
    pub fn capacity(&self) -> (capacity: usize)
        ensures
            capacity == self.spec_capacity(),
    {
        self.capacity
    }

    /// The number of samples held.
    pub fn len(&self) -> (len: usize)
        ensures
            len == self@.len(),
    {
        self.samples.len()
    }

    /// Whether the window holds as many samples as it can.
    pub fn is_full(&self) -> (full: bool)
        ensures
            full == (self@.len() >= self.spec_capacity()),
    {
        self.samples.len() >= self.capacity
    }

    /// The newest sample, if there is one.
    pub fn last(&self) -> (sample: Option<&T>)
        ensures
            self@.len() == 0 ==> sample is None,
            self@.len() > 0 ==> sample == Some(&self@.last()),
    {
        let len = self.samples.len();
        if len == 0 {
            None
        } else {
            Some(&self.samples[len - 1])
        }
    }

    /// The samples held, oldest first.
    pub fn as_slice(&self) -> (samples: &[T])
        ensures
            samples@ == self@,
    {
        self.samples.as_slice()
    }

    /// Takes in `sample`; a full window first lets go of its oldest one.
    pub fn push(&mut self, sample: T)
        requires
            old(self).wf(),
        ensures
            final(self).wf(),
            final(self).spec_capacity() == old(self).spec_capacity(),
            final(self).pushed() == old(self).pushed().push(sample),
            final(self)@ == window_push(old(self)@, sample, old(self).spec_capacity() as nat),
    {
        if self.samples.len() >= self.capacity {
            let _ = self.samples.remove(0);
        }
        self.samples.push(sample);
        proof {
            lemma_push_latest(old(self).pushed@, sample, self.capacity as nat);
            assert(self.samples@ =~= window_push(old(self).samples@, sample, self.capacity as nat));
            self.pushed@ = self.pushed@.push(sample);
        }
    }

    /// Empties the window and forgets what was pushed.
    pub fn clear(&mut self)
        requires
            old(self).wf(),
        ensures
            final(self).wf(),
            final(self).spec_capacity() == old(self).spec_capacity(),
            final(self).pushed() == Seq::<T>::empty(),
            final(self)@ == Seq::<T>::empty(),
    {
        self.samples.clear();
        proof {
            self.pushed@ = Seq::empty();
        }
    }
}

} // verus!
