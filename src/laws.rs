//! Laws of the access layer, stated over the same spec functions that the
//! operations' contracts use.

use crate::bridge::nesting_error;
use crate::error::AccessError;
use crate::guard::AccessGuard;
use crate::engine::{heads_of, pending_of, tx_heads_of};
use crate::transaction::{began, committed, ended, next_ticket, rolled_back};
use crate::reference::{DocState, DocumentRef, Lent};
use vstd::prelude::*;

verus! {

/// On an owned reference with no open transaction, reads reach the document
/// at rest itself and are never refused. By the contract of `read_view`, the
/// view is that document every time, and by the contracts of the reads each
/// result is a function of that document and the read's arguments
/// (`get_result`, `keys_result`, ..., `heads_of`). Reads take the guard by
/// shared reference and so leave it, heads included, as it was: the same read
/// gives the same result wherever it stands in a sequence of reads.
pub proof fn lemma_owned_reads_see_one_document(g: AccessGuard)
    requires
        g.reference() is Owned,
        !g.reference().tx_open(),
    ensures
        g.reference().read_error() is None,
        g.reference().doc_error() is None,
        g.reference().idle_doc() is Some,
        g.reference().reachable_state() == Some(DocState::Idle(g.reference().idle_doc()->Some_0)),
{
}

/// Once a transaction has been begun, beginning another fails with
/// `AlreadyActive`; that refusal leaves the guard, document included, as it
/// was.
pub proof fn lemma_second_transaction_refused(before: DocumentRef, after: DocumentRef)
    requires
        began(before, after),
    ensures
        after.begin_error() == Some(AccessError::AlreadyActive),
{
}

/// A transaction ends exactly once: after it has been committed, rolled back
/// or exited, another commit or rollback is refused with
/// `TransactionInactive` (leaving the guard as it was), another exit does
/// nothing, and a new transaction may begin.
pub proof fn lemma_transaction_ends_once(before: DocumentRef, after: DocumentRef)
    requires
        ended(before, after),
    ensures
        after.tx_error() == Some(AccessError::TransactionInactive),
        !after.tx_open(),
        after.begin_error() is None,
{
}

/// A transaction that ends by rolling back leaves the document's heads where
/// they were when it began, whatever operations it applied meanwhile
/// (operations keep the heads the transaction reports; see `tx_op_done`).
pub proof fn lemma_rollback_restores_heads(
    start: DocumentRef,
    opened: DocumentRef,
    before_end: AccessGuard,
    after_end: AccessGuard,
)
    requires
        began(start, opened),
        before_end.reference().open_tx() matches Some(t) && tx_heads_of(t) == tx_heads_of(
            opened.open_tx()->Some_0,
        ),
        rolled_back(before_end, after_end),
    ensures
        heads_of(after_end.reference().idle_doc()->Some_0) == heads_of(start.idle_doc()->Some_0),
{
}

/// A transaction that ends by committing operations leaves one head, the new
/// change; with nothing pending, it leaves the heads where they were when it
/// began.
pub proof fn lemma_commit_heads(
    start: DocumentRef,
    opened: DocumentRef,
    before_end: AccessGuard,
    after_end: AccessGuard,
)
    requires
        began(start, opened),
        before_end.reference().open_tx() matches Some(t) && tx_heads_of(t) == tx_heads_of(
            opened.open_tx()->Some_0,
        ),
        committed(before_end, after_end),
    ensures
        ({
            let t = before_end.reference().open_tx()->Some_0;
            let d = after_end.reference().idle_doc()->Some_0;
            &&& pending_of(t) > 0 ==> heads_of(d).len() == 1
            &&& pending_of(t) == 0 ==> heads_of(d) == heads_of(start.idle_doc()->Some_0)
        }),
{
}

/// A scope that outlives its transaction cannot end a newer one: once the
/// guard has begun another transaction, its ticket differs from the stale
/// one, and `exit` with the stale ticket leaves the guard as it is.
pub proof fn lemma_stale_ticket_differs(stale: u64)
    ensures
        next_ticket(stale) != stale,
{
}

/// After a lent reference has been invalidated, every kind of access fails
/// with `Invalidated`; each refusal leaves the reference as it was, and a
/// further invalidation keeps it invalidated, so it fails on every later call.
pub proof fn lemma_invalidated_refuses_everything(l: Lent)
    requires
        !(l is Live),
    ensures
        DocumentRef::Borrowed(l).read_error() == Some(AccessError::Invalidated),
        DocumentRef::Borrowed(l).doc_error() == Some(AccessError::Invalidated),
        DocumentRef::Borrowed(l).write_error() == Some(AccessError::Invalidated),
        DocumentRef::Borrowed(l).begin_error() == Some(AccessError::Invalidated),
        DocumentRef::Borrowed(l).tx_error() == Some(AccessError::Invalidated),
{
}

/// An actor-managed document is read-only through this layer: no
/// transaction can be open on it, reads are never refused, and every direct
/// mutation or transaction is refused with `ReadOnlyActor`.
pub proof fn lemma_actor_documents_are_read_only(lock_id: usize)
    ensures
        !DocumentRef::Actor(lock_id).tx_open(),
        DocumentRef::Actor(lock_id).read_error() is None,
        DocumentRef::Actor(lock_id).doc_error() is None,
        DocumentRef::Actor(lock_id).write_error() == Some(AccessError::ReadOnlyActor),
        DocumentRef::Actor(lock_id).begin_error() == Some(AccessError::ReadOnlyActor),
{
}

/// Inside a callback for an actor, entering the same actor again is refused
/// with `NestedChangeNotSupported` by the nesting check, which precedes the
/// lock request and looks at the registry alone.
pub proof fn lemma_same_actor_reentry_refused<A>(reg: Map<usize, A>, lock_id: usize, lent: A)
    ensures
        nesting_error(reg.insert(lock_id, lent), lock_id) == Some(
            AccessError::NestedChangeNotSupported,
        ),
{
}

/// Inside a callback for one actor, a callback for a different actor may
/// begin; while it runs the outer actor's entry is untouched, and when it
/// ends exactly the outer entry remains.
pub proof fn lemma_different_actors_nest<A>(
    reg: Map<usize, A>,
    outer: usize,
    outer_lent: A,
    inner: usize,
    inner_lent: A,
)
    requires
        outer != inner,
        !reg.contains_key(inner),
    ensures
        nesting_error(reg.insert(outer, outer_lent), inner) is None,
        reg.insert(outer, outer_lent).insert(inner, inner_lent)[outer] == outer_lent,
        reg.insert(outer, outer_lent).insert(inner, inner_lent).remove(inner) == reg.insert(
            outer,
            outer_lent,
        ),
{
    assert(reg.insert(outer, outer_lent).insert(inner, inner_lent).remove(inner) =~= reg.insert(
        outer,
        outer_lent,
    ));
}

/// Whatever a callback did, failure included, ending it restores the
/// registry it started from, so a later callback for the same actor on the
/// same thread passes the nesting check.
pub proof fn lemma_registry_restored_after_callback<A>(reg: Map<usize, A>, lock_id: usize, lent: A)
    requires
        !reg.contains_key(lock_id),
    ensures
        reg.insert(lock_id, lent).remove(lock_id) == reg,
        nesting_error(reg.insert(lock_id, lent).remove(lock_id), lock_id) is None,
{
    assert(reg.insert(lock_id, lent).remove(lock_id) =~= reg);
}

} // verus!
