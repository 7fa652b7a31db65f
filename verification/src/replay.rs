use vstd::prelude::*;
use std::collections::VecDeque;

verus! {

/// Number of frames the replay buffer keeps.
pub const MAX_SNAPSHOTS: usize = 300;

/// Contents of a buffer that held `frames` after one more frame `snap` is
/// recorded: the oldest frame is dropped once the buffer is full.
pub open spec fn after_push<T>(frames: Seq<T>, snap: T) -> Seq<T> {
    if frames.len() >= MAX_SNAPSHOTS {
        frames.drop_first().push(snap)
    } else {
        frames.push(snap)
    }
}

/// The most recent `MAX_SNAPSHOTS` frames of a recording (all of it if shorter).
pub open spec fn latest<T>(recording: Seq<T>) -> Seq<T> {
    if recording.len() <= MAX_SNAPSHOTS {
        recording
    } else {
        recording.subrange(recording.len() - MAX_SNAPSHOTS, recording.len() as int)
    }
}

/// A bounded record of the last frames of a rally, oldest first.  The frame
/// type is left to the caller: the buffer only stores and returns them.
pub struct ReplayBuffer<T> {
    frames: VecDeque<T>,
}

impl<T> View for ReplayBuffer<T> {
    type V = Seq<T>;

    closed spec fn view(&self) -> Seq<T> {
        self.frames@
    }
}

impl<T> ReplayBuffer<T> {
    /// A buffer never holds more than `MAX_SNAPSHOTS` frames.
    #[verifier::type_invariant]
    spec fn within_bound(&self) -> bool {
        self.frames@.len() <= MAX_SNAPSHOTS
    }

    /// An empty buffer.
    pub fn new() -> (b: ReplayBuffer<T>)
        ensures
            b@ == Seq::<T>::empty(),
    {
        ReplayBuffer { frames: VecDeque::with_capacity(MAX_SNAPSHOTS) }
    }

    /// Records a frame, dropping the oldest one when the buffer is full.
    pub fn push(&mut self, snap: T)
        ensures
            old(self)@.len() <= MAX_SNAPSHOTS,
            final(self)@ == after_push(old(self)@, snap),
            final(self)@.len() <= MAX_SNAPSHOTS,
    {
        broadcast use vstd::std_specs::vecdeque::axiom_spec_len;
        proof {
            use_type_invariant(&*self);
        }
        // The frames are moved out and back, so that the bound on `self`
        // holds at every step.
        let mut frames = VecDeque::new();
        std::mem::swap(&mut frames, &mut self.frames);
        if frames.len() >= MAX_SNAPSHOTS {
            frames.pop_front();
        }
        frames.push_back(snap);
        self.frames = frames;
    }

    /// Forgets every recorded frame.
    pub fn clear(&mut self)
        ensures
            final(self)@ == Seq::<T>::empty(),
    {
        let mut frames = VecDeque::new();
        std::mem::swap(&mut frames, &mut self.frames);
        frames.clear();
        self.frames = frames;
    }

    /// Number of recorded frames.
    pub fn len(&self) -> (n: usize)
        ensures
            n == self@.len(),
            n <= MAX_SNAPSHOTS,
    {
        broadcast use vstd::std_specs::vecdeque::axiom_spec_len;
        proof {
            use_type_invariant(self);
        }
        self.frames.len()
    }
}

impl<T: Copy> ReplayBuffer<T> {
    /// The recorded frames, oldest first.
    pub fn snapshot_vec(&self) -> (v: Vec<T>)
        ensures
            v@ == self@,
    {
        broadcast use vstd::std_specs::vecdeque::axiom_spec_len;
        let n = self.frames.len();
        let mut v: Vec<T> = Vec::with_capacity(n);
        let mut i: usize = 0;
        while i < n
            invariant
                n == self.frames@.len(),
                i <= n,
                v@ == self.frames@.subrange(0, i as int),
            decreases n - i,
        {
            let snap: T = self.frames[i];
            v.push(snap);
            i = i + 1;
            assert(v@ =~= self.frames@.subrange(0, i as int));
        }
        assert(v@ =~= self.frames@);
        v
    }
}

/// A buffer never holds more than `MAX_SNAPSHOTS` frames: recording one more
/// keeps a buffer within the bound.
pub proof fn lemma_push_within_bound<T>(frames: Seq<T>, snap: T)
    requires
        frames.len() <= MAX_SNAPSHOTS,
    ensures
        after_push(frames, snap).len() <= MAX_SNAPSHOTS,
        after_push(frames, snap).last() == snap,
{
}

/// A buffer filled from empty by the frames of a recording holds exactly the
/// most recent `MAX_SNAPSHOTS` of them, in order.
pub proof fn lemma_push_keeps_latest<T>(recording: Seq<T>, snap: T)
    ensures
        after_push(latest(recording), snap) =~= latest(recording.push(snap)),
        latest(Seq::<T>::empty()) =~= Seq::<T>::empty(),
{
}

} // verus!
