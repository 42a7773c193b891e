use vstd::prelude::*;

verus! {

/// The shared leadership state: one boolean flag, "am I currently believed to
/// be the leader". The observer is its sole writer; external readers read it
/// through a concurrency-safe guard owned by the caller. Created once at
/// startup with value `false`.
pub struct State {
    is_leader: bool,
}

impl State {
    /// The flag as contracts see it.
    pub closed spec fn leading(&self) -> bool {
        self.is_leader
    }

    /// A fresh state: not leader until the observer has applied an event.
    pub fn new() -> (s: State)
        ensures
            !s.leading(),
    {
        State { is_leader: false }
    }

    /// Read the flag.
    pub fn is_leader(&self) -> (b: bool)
        ensures
            b == self.leading(),
    {
        self.is_leader
    }

    /// Overwrite the flag. Only the observer writes; exclusive access is
    /// enforced by the mutable borrow (a reader/writer guard in the caller).
    pub(crate) fn set_leader(&mut self, v: bool)
        ensures
            final(self).leading() == v,
    {
        self.is_leader = v;
    }
}

} // verus!
