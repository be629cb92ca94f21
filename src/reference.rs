//! How a document is reached: owned, lent for one call, or held by an actor.

use crate::error::AccessError;
use automerge::transaction::OwnedTransaction;
use automerge::Automerge;
use vstd::prelude::*;

verus! {

/// A document that this side holds: at rest, or moved into an open
/// transaction, which hands it back when it commits or rolls back.
pub enum DocState {
    Idle(Automerge),
    InTransaction(OwnedTransaction),
}

/// A document lent by an enclosing call. The lender invalidates it before
/// its own frame returns and then takes the document back.
pub enum Lent {
    /// Usable.
    Live(DocState),
    /// The lender has invalidated it; the document still sits here until
    /// the lender takes it back.
    Invalidated(DocState),
    /// The lender has taken the document back.
    Returned,
}

/// The three ownership regimes.
pub enum DocumentRef {
    /// The document belongs to this reference alone.
    Owned(DocState),
    /// The document is lent for the duration of one call.
    Borrowed(Lent),
    /// The document is held by an actor behind a lock; `usize` is the lock's
    /// identity. Reaching the document takes that lock, or the reentrancy
    /// registry's entry for it.
    Actor(usize),
}

/// Which regime a reference is under, without its contents.
#[derive(PartialEq, Eq, Structural, Clone, Copy, Debug)]
pub enum Regime {
    Owned,
    Borrowed,
    Actor,
}

impl DocState {
    pub open spec fn is_transaction(self) -> bool {
        self is InTransaction
    }
}

impl DocumentRef {
    pub open spec fn regime(self) -> Regime {
        match self {
            DocumentRef::Owned(_) => Regime::Owned,
            DocumentRef::Borrowed(_) => Regime::Borrowed,
            DocumentRef::Actor(_) => Regime::Actor,
        }
    }

    /// A lent reference whose lender has invalidated it or taken it back.
    pub open spec fn is_invalidated(self) -> bool {
        match self {
            DocumentRef::Borrowed(l) => !(l is Live),
            _ => false,
        }
    }

    /// The state of the document when it is reachable from here.
    pub open spec fn reachable_state(self) -> Option<DocState> {
        match self {
            DocumentRef::Owned(s) => Some(s),
            DocumentRef::Borrowed(Lent::Live(s)) => Some(s),
            _ => None,
        }
    }

    /// A transaction is open on the reachable document.
    pub open spec fn tx_open(self) -> bool {
        match self.reachable_state() {
            Some(s) => s.is_transaction(),
            None => false,
        }
    }

    /// The reachable document at rest, when there is one.
    pub open spec fn idle_doc(self) -> Option<Automerge> {
        match self.reachable_state() {
            Some(DocState::Idle(d)) => Some(d),
            _ => None,
        }
    }

    /// The same reference, with `d` as its document at rest.
    pub open spec fn with_idle_doc(self, d: Automerge) -> DocumentRef {
        match self {
            DocumentRef::Owned(_) => DocumentRef::Owned(DocState::Idle(d)),
            DocumentRef::Borrowed(Lent::Live(_)) => DocumentRef::Borrowed(
                Lent::Live(DocState::Idle(d)),
            ),
            _ => self,
        }
    }

    /// The open transaction on the reachable document, when there is one.
    pub open spec fn open_tx(self) -> Option<OwnedTransaction> {
        match self.reachable_state() {
            Some(DocState::InTransaction(t)) => Some(t),
            _ => None,
        }
    }

    /// The same reference, with `t` as its open transaction.
    pub open spec fn with_tx(self, t: OwnedTransaction) -> DocumentRef {
        match self {
            DocumentRef::Owned(_) => DocumentRef::Owned(DocState::InTransaction(t)),
            DocumentRef::Borrowed(Lent::Live(_)) => DocumentRef::Borrowed(
                Lent::Live(DocState::InTransaction(t)),
            ),
            _ => self,
        }
    }

    /// What a read refuses with: only a reference whose lender has
    /// invalidated it. Reads go through an open transaction.
    pub open spec fn read_error(self) -> Option<AccessError> {
        if self.is_invalidated() {
            Some(AccessError::Invalidated)
        } else {
            None
        }
    }

    /// What an operation that needs the document itself (not a transaction's
    /// view of it) refuses with.
    pub open spec fn doc_error(self) -> Option<AccessError> {
        if self.is_invalidated() {
            Some(AccessError::Invalidated)
        } else if self.tx_open() {
            Some(AccessError::ActiveTransaction)
        } else {
            None
        }
    }

    /// What a direct mutation of the document refuses with.
    pub open spec fn write_error(self) -> Option<AccessError> {
        if self.is_invalidated() {
            Some(AccessError::Invalidated)
        } else if self.tx_open() {
            Some(AccessError::ActiveTransaction)
        } else if self.regime() == Regime::Actor {
            Some(AccessError::ReadOnlyActor)
        } else {
            None
        }
    }

    /// What changing the document's actor id refuses with: a lent document
    /// first, then whatever refuses a direct mutation.
    pub open spec fn set_actor_error(self) -> Option<AccessError> {
        if self is Borrowed {
            Some(AccessError::LentActorChange)
        } else {
            self.write_error()
        }
    }

    /// What beginning a transaction refuses with.
    pub open spec fn begin_error(self) -> Option<AccessError> {
        if self.is_invalidated() {
            Some(AccessError::Invalidated)
        } else if self.tx_open() {
            Some(AccessError::AlreadyActive)
        } else if self.regime() == Regime::Actor {
            Some(AccessError::ReadOnlyActor)
        } else {
            None
        }
    }

    /// What an operation of the open transaction refuses with.
    pub open spec fn tx_error(self) -> Option<AccessError> {
        if self.is_invalidated() {
            Some(AccessError::Invalidated)
        } else if !self.tx_open() {
            Some(AccessError::TransactionInactive)
        } else {
            None
        }
    }
}

} // verus!
