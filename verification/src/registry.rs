//! The processes that this library's user has started.
//!
//! The registry is a list of identifiers in the order in which they were
//! recorded. An identifier is recorded when a launch succeeds and stays until
//! the registry is emptied at shutdown; one that is recorded twice stays
//! twice.

use vstd::prelude::*;

verus! {

/// The identifiers of the processes started so far.
#[derive(Debug)]
pub struct Registry {
    pids: Vec<u32>,
}

impl View for Registry {
    type V = Seq<u32>;

    closed spec fn view(&self) -> Seq<u32> {
        self.pids@
    }
}

impl Registry {
    /// A registry that holds nothing.
    pub fn new() -> (registry: Registry)
        ensures
            registry@ == Seq::<u32>::empty(),
    {
        Registry { pids: Vec::new() }
    }

    /// Adds `pid` behind the identifiers recorded so far, whether or not it is
    /// among them.
    pub fn record(&mut self, pid: u32)
        ensures
            final(self)@ == old(self)@.push(pid),
    {
        self.pids.push(pid);
    }

    /// The identifiers recorded so far, oldest first.
    pub fn list(&self) -> (pids: Vec<u32>)
        ensures
            pids@ == self@,
    {
        let mut pids: Vec<u32> = Vec::new();
        let mut k: usize = 0;
        while k < self.pids.len()
            invariant
                k <= self.pids.len(),
                pids@ == self.pids@.take(k as int),
            decreases self.pids.len() - k,
        {
            pids.push(self.pids[k]);
            k += 1;
        }
        pids
    }

    /// How many identifiers are recorded.
    pub fn len(&self) -> (count: usize)
        ensures
            count == self@.len(),
    {
        self.pids.len()
    }

    /// Forgets every identifier.
    pub fn clear(&mut self)
        ensures
            final(self)@ == Seq::<u32>::empty(),
    {
        self.pids = Vec::new();
    }
}

} // verus!
