//! The reentrancy registry: for one thread, which actor locks that thread
//! holds while a callback runs, and where the lent document can be found.

use std::collections::HashMap;
use vstd::prelude::*;

verus! {

broadcast use vstd::std_specs::hash::group_hash_axioms;

/// Maps a lock identity (derived from the actor's shared lock handle) to the
/// place where the document lent under that lock is reached.
///
/// Entries are keyed by lock identity, so callbacks for different actors never
/// collide, and a second entry for the same lock overwrites rather than stacks.
pub struct ReentrancyRegistry<A> {
    entries: HashMap<usize, A>,
}

impl<A> View for ReentrancyRegistry<A> {
    type V = Map<usize, A>;

    closed spec fn view(&self) -> Map<usize, A> {
        self.entries@
    }
}

impl<A> ReentrancyRegistry<A> {
    /// A registry with no entry: the thread is inside no callback.
    pub fn new() -> (r: Self)
        ensures
            r@ == Map::<usize, A>::empty(),
    {
        ReentrancyRegistry { entries: HashMap::new() }
    }

    /// Records that `lock_id` is held by this thread and its document is at
    /// `lent`, replacing any earlier entry for the same lock.
    pub fn enter(&mut self, lock_id: usize, lent: A)
        ensures
            final(self)@ == old(self)@.insert(lock_id, lent),
    {
        self.entries.insert(lock_id, lent);
    }

    /// Where the document lent under `lock_id` is, if this thread holds it.
    pub fn lookup(&self, lock_id: usize) -> (r: Option<&A>)
        ensures
            r is Some <==> self@.contains_key(lock_id),
            r matches Some(a) ==> *a == self@[lock_id],
    {
        self.entries.get(&lock_id)
    }

    /// True when this thread is inside a callback for `lock_id`.
    pub fn is_entered(&self, lock_id: usize) -> (r: bool)
        ensures
            r == self@.contains_key(lock_id),
    {
        self.entries.contains_key(&lock_id)
    }

    /// Clears the entry for `lock_id`, whether or not there was one.
    pub fn leave(&mut self, lock_id: usize) -> (r: Option<A>)
        ensures
            final(self)@ == old(self)@.remove(lock_id),
            r is Some <==> old(self)@.contains_key(lock_id),
            r matches Some(a) ==> a == old(self)@[lock_id],
    {
        self.entries.remove(&lock_id)
    }
}

} // verus!
