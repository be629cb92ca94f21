//! Transactions on a guard: a scoped mutation session over the guard's
//! document, active until it ends by exactly one commit or rollback.
//!
//! The open transaction owns the document while it is active, so nothing
//! else reaches the document meanwhile; reads go through its view. Each
//! transaction has a ticket, so that ending a scope that has already ended
//! never ends a newer transaction.

use crate::engine::{committed_of, heads_of, opened_of, pending_of, rolled_back_of, tx_heads_of};
use crate::error::{from_engine, AccessError};
use crate::guard::AccessGuard;
use crate::reference::DocumentRef;
use automerge::transaction::OwnedTransaction;
use automerge::AutomergeError;
use vstd::prelude::*;

verus! {

/// The ticket that follows `n`.
pub open spec fn next_ticket(n: u64) -> u64 {
    if n == u64::MAX {
        0
    } else {
        (n + 1) as u64
    }
}

impl AccessGuard {
    /// What an operation of the scope with ticket `ticket` refuses with: an
    /// invalidated reference; or no open transaction, or an open one begun
    /// after that scope's, whose ticket is another.
    pub open spec fn op_error(self, ticket: u64) -> Option<AccessError> {
        if self.reference().is_invalidated() {
            Some(AccessError::Invalidated)
        } else if !self.reference().tx_open() || ticket != self.ticket() {
            Some(AccessError::TransactionInactive)
        } else {
            None
        }
    }
}

/// `after` is `before` with a transaction opened on its own document at
/// rest; the transaction reports that document's heads.
pub open spec fn began(before: DocumentRef, after: DocumentRef) -> bool {
    &&& after.tx_open()
    &&& after.regime() == before.regime()
    &&& !after.is_invalidated()
    &&& before.idle_doc() matches Some(d)
    &&& after == before.with_tx(opened_of(d))
    &&& tx_heads_of(opened_of(d)) == heads_of(d)
}

/// `after` is `before` with its transaction ended and the document back at
/// rest.
pub open spec fn ended(before: DocumentRef, after: DocumentRef) -> bool {
    &&& !after.tx_open()
    &&& after.idle_doc() is Some
    &&& after.regime() == before.regime()
    &&& !after.is_invalidated()
}

/// `after` is `before` with its open transaction committed: the document is
/// the engine's committed one, whose only head is the new change when there
/// was something to commit, and whose heads did not move otherwise.
pub open spec fn committed(before: AccessGuard, after: AccessGuard) -> bool {
    &&& before.reference().open_tx() matches Some(t)
    &&& after.reference() == before.reference().with_idle_doc(committed_of(t).0)
    &&& after.ticket() == before.ticket()
    &&& ended(before.reference(), after.reference())
    &&& (committed_of(t).1 is Some <==> pending_of(t) > 0)
    &&& (committed_of(t).1 matches Some(h) ==> heads_of(committed_of(t).0) == seq![h])
    &&& (committed_of(t).1 is None ==> heads_of(committed_of(t).0) == tx_heads_of(t))
}

/// `after` is `before` with its open transaction rolled back: every pending
/// operation is discarded and the heads are those the transaction started
/// from.
pub open spec fn rolled_back(before: AccessGuard, after: AccessGuard) -> bool {
    &&& before.reference().open_tx() matches Some(t)
    &&& after.reference() == before.reference().with_idle_doc(rolled_back_of(t))
    &&& after.ticket() == before.ticket()
    &&& ended(before.reference(), after.reference())
    &&& heads_of(rolled_back_of(t)) == tx_heads_of(t)
}

/// A transaction operation of the scope with ticket `ticket` either was
/// refused, leaving the guard as it was,
/// or was applied by the engine to the open transaction, which stays open:
/// the guard then holds the transaction `step` gives and returns its answer.
pub open spec fn tx_op_done<T>(
    before: AccessGuard,
    after: AccessGuard,
    ticket: u64,
    r: Result<T, AccessError>,
    step: spec_fn(OwnedTransaction) -> (OwnedTransaction, Result<T, AutomergeError>),
) -> bool {
    match before.op_error(ticket) {
        Some(e) => r == Err::<T, AccessError>(e) && after == before,
        None => {
            let got = step(before.reference().open_tx()->Some_0);
            &&& after.reference() == before.reference().with_tx(got.0)
            &&& tx_heads_of(got.0) == tx_heads_of(before.reference().open_tx()->Some_0)
            &&& after.ticket() == before.ticket()
            &&& r == from_engine(got.1)
        },
    }
}

} // verus!
