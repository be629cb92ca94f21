//! The callback protocol for an actor's document: lend the locked document
//! to a caller-supplied callback, then take it back and report what changed.
//!
//! The lock and the callback itself belong to the caller; these are the
//! decisions around them, in order:
//! 1. [`check_not_nested`], before the actor's lock is requested;
//! 2. [`lend`], with that check's pass, once the lock is held, then
//!    [`ReentrancyRegistry::enter`](crate::registry::ReentrancyRegistry::enter)
//!    with the place where the lent reference can be found;
//! 3. the callback runs;
//! 4. [`finish_callback`], whatever the callback did, before the lock is
//!    released.
//!
//! Any access to an actor's document meanwhile is routed by
//! [`route_actor_access`].

use crate::engine::{diff_document, diff_of, document_heads, heads_of, rolled_back_of, same_heads};
use crate::error::AccessError;
use crate::guard::AccessGuard;
use crate::reference::{DocState, DocumentRef, Lent};
use crate::registry::ReentrancyRegistry;
use automerge::{Automerge, ChangeHash, Patch};
use vstd::prelude::*;

verus! {

/// What a callback that returned normally leaves behind.
pub struct CallbackResult<R> {
    /// What the callback returned.
    pub value: R,
    /// The changes the callback made, as patches; empty when the heads did
    /// not move.
    pub patches: Vec<Patch>,
    /// The document's heads when it was lent.
    pub heads_before: Vec<ChangeHash>,
    /// The document's heads when it was taken back (empty if there was no
    /// document to take back).
    pub heads_after: Vec<ChangeHash>,
}

/// Where an access to the document of the actor with lock identity
/// `lock_id` goes.
pub enum ActorRoute<'a, A> {
    /// This thread holds the lock inside a callback: go through the reference
    /// lent to that callback, without asking for the lock again.
    Reentrant(&'a A),
    /// Take the actor's lock, read, and release it.
    Lock,
}

/// The reentrant fast path is taken exactly when this thread is inside a
/// callback for the same actor; any other thread, or a callback for another
/// actor, goes through the lock.
pub fn route_actor_access<A>(reg: &ReentrancyRegistry<A>, lock_id: usize) -> (r: ActorRoute<'_, A>)
    ensures
        r is Reentrant <==> reg@.contains_key(lock_id),
        r matches ActorRoute::Reentrant(a) ==> *a == reg@[lock_id],
{
    match reg.lookup(lock_id) {
        Some(a) => ActorRoute::Reentrant(a),
        None => ActorRoute::Lock,
    }
}

/// Refuses to enter the actor with lock identity `lock_id` while this thread
/// is already inside a callback for it: asking for its lock again would
/// never return. Callbacks for other actors do not count.
///
/// It looks at the registry alone, takes no lock and returns at once; its
/// pass is what [`lend`] asks for, so no document is lent without it.
pub fn check_not_nested<A>(reg: &ReentrancyRegistry<A>, lock_id: usize) -> (r: Result<
    NotNested,
    AccessError,
>)
    ensures
        nesting_error(reg@, lock_id) matches Some(e) ==> r == Err::<NotNested, AccessError>(e),
        nesting_error(reg@, lock_id) is None ==> r is Ok,
        r matches Ok(p) ==> p.lock() == lock_id,
{
    if reg.is_entered(lock_id) {
        Err(AccessError::NestedChangeNotSupported)
    } else {
        Ok(NotNested { lock_id })
    }
}

/// What entering the actor with lock identity `lock_id` refuses with, given
/// the registry `reg` of the entering thread.
pub open spec fn nesting_error<A>(reg: Map<usize, A>, lock_id: usize) -> Option<AccessError> {
    if reg.contains_key(lock_id) {
        Some(AccessError::NestedChangeNotSupported)
    } else {
        None
    }
}

/// The pass of [`check_not_nested`] for one actor lock: only that check
/// makes one.
pub struct NotNested {
    lock_id: usize,
}

impl NotNested {
    /// The identity of the lock the check was made for.
    pub closed spec fn lock(self) -> usize {
        self.lock_id
    }

    /// The identity of the lock the check was made for.
    pub fn lock_id(&self) -> (r: usize)
        ensures
            r == self.lock(),
    {
        self.lock_id
    }
}

/// Lends `doc`, the document of the actor whose lock `pass` was checked for,
/// to a callback: a live borrowed reference over it, and the heads it has
/// now.
pub fn lend(pass: NotNested, doc: Automerge) -> (r: (AccessGuard, Vec<ChangeHash>))
    ensures
        r.0.reference() == DocumentRef::Borrowed(Lent::Live(DocState::Idle(doc))),
        r.1@ == heads_of(doc),
{
    let before = document_heads(&doc);
    (AccessGuard::new_borrowed(doc), before)
}

/// Ends a callback for the actor with lock identity `lock_id`, whatever its
/// `outcome`: the lent reference is invalidated and this thread's registry
/// entry for the lock cleared before anything else; then the document is
/// taken back, with a transaction the callback left open rolled back.
///
/// A failure of the callback is handed back as it is, with no patches. On a
/// normal return the heads are compared with `before`, and patches are
/// computed only when they moved.
pub fn finish_callback<A, R, E>(
    reg: &mut ReentrancyRegistry<A>,
    lock_id: usize,
    lent: &mut AccessGuard,
    before: Vec<ChangeHash>,
    outcome: Result<R, E>,
) -> (r: (Option<Automerge>, Result<CallbackResult<R>, E>))
    ensures
        final(reg)@ == old(reg)@.remove(lock_id),
        old(lent).reference() is Borrowed ==> final(lent).reference() == DocumentRef::Borrowed(
            Lent::Returned,
        ),
        !(old(lent).reference() is Borrowed) ==> *final(lent) == *old(lent),
        r.0 is Some <==> (old(lent).reference() is Borrowed && old(lent).reference() != DocumentRef::Borrowed(
            Lent::Returned,
        )),
        old(lent).reference() matches DocumentRef::Borrowed(Lent::Live(DocState::Idle(d))) ==> r.0
            == Some(d),
        old(lent).reference() matches DocumentRef::Borrowed(Lent::Live(DocState::InTransaction(t)))
            ==> r.0 == Some(rolled_back_of(t)),
        outcome matches Err(e) ==> r.1 == Err::<CallbackResult<R>, E>(e),
        outcome matches Ok(v) ==> r.1 matches Ok(c) && {
            &&& c.value == v
            &&& c.heads_before == before
            &&& (c.heads_before@ == c.heads_after@ ==> c.patches@.len() == 0)
            &&& (r.0 is None ==> c.patches@.len() == 0)
            &&& (r.0 matches Some(d) ==> c.heads_after@ == heads_of(d))
            &&& (r.0 matches Some(d) ==> (c.heads_before@ != c.heads_after@ ==> c.patches@ == diff_of(
                d,
                c.heads_before@,
                c.heads_after@,
            )))
        },
{
    lent.invalidate();
    let _ = reg.leave(lock_id);
    let doc = lent.take_back();
    match outcome {
        Err(e) => (doc, Err(e)),
        Ok(value) => {
            match doc {
                Some(d) => {
                    let after = document_heads(&d);
                    let patches = if same_heads(&before, &after) {
                        Vec::new()
                    } else {
                        diff_document(&d, before.as_slice(), after.as_slice())
                    };
                    (
                        Some(d),
                        Ok(CallbackResult { value, patches, heads_before: before, heads_after: after }),
                    )
                },
                None => (
                    None,
                    Ok(
                        CallbackResult {
                            value,
                            patches: Vec::new(),
                            heads_before: before,
                            heads_after: Vec::new(),
                        },
                    ),
                ),
            }
        },
    }
}

} // verus!
