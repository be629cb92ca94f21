//! The access guard: one document reference, with reads that work under
//! every regime and direct writes gated by the regime and the transaction
//! state.

use crate::engine::{
    commit_transaction, committed_of, heads_of, load_document, load_error_of, loaded_heads_of,
    merge_documents, merged_of, new_document, new_document_with_actor, open_transaction,
    pending_of, receive_sync, received_of, rollback_transaction, rolled_back_of,
    set_document_actor, tx_delete, tx_delete_of, tx_increment, tx_increment_of, tx_insert,
    tx_insert_object, tx_insert_object_of, tx_insert_of, tx_mark, tx_mark_of, tx_put,
    tx_put_object, tx_put_object_of, tx_put_of, tx_splice_text, tx_splice_text_of, tx_unmark,
    tx_unmark_of, with_actor_id_of, document_heads, tx_heads_of, actor_of,
};
use crate::error::{engine_err, from_engine, AccessError};
use crate::reference::{DocState, DocumentRef, Lent, Regime};
use crate::transaction::{committed, next_ticket, rolled_back, began, tx_op_done};
use crate::view::{state_view, DocView, Reach, ReadView};
use automerge::marks::{ExpandMark, Mark};
use automerge::sync::{Message, State};
use automerge::transaction::OwnedTransaction;
use automerge::{Automerge, ChangeHash, ObjId, ObjType, Prop, ScalarValue};
use vstd::prelude::*;

verus! {

/// Wraps exactly one document reference. An open transaction, when there is
/// one, holds the document itself, so nothing else can reach it meanwhile.
pub struct AccessGuard {
    doc_ref: DocumentRef,
    /// The ticket of the transaction begun last: it tells a transaction's
    /// own scope from a stale one.
    ticket: u64,
}

impl AccessGuard {
    /// The document reference the guard wraps.
    pub closed spec fn reference(self) -> DocumentRef {
        self.doc_ref
    }

    /// The ticket of the transaction begun last.
    pub closed spec fn ticket(self) -> u64 {
        self.ticket
    }
}

impl AccessGuard {
    /// A guard that owns a fresh, empty document.
    pub fn new() -> (r: AccessGuard)
        ensures
            r.reference() is Owned,
            r.reference().idle_doc() is Some,
            heads_of(r.reference().idle_doc()->Some_0).len() == 0,
    {
        AccessGuard { doc_ref: DocumentRef::Owned(DocState::Idle(new_document())), ticket: 0 }
    }

    /// A guard that owns a fresh, empty document whose changes are made under
    /// the actor id `actor`.
    pub fn with_actor(actor: &[u8]) -> (r: AccessGuard)
        ensures
            r.reference() is Owned,
            r.reference().idle_doc() is Some,
            heads_of(r.reference().idle_doc()->Some_0).len() == 0,
            actor_of(r.reference().idle_doc()->Some_0) == actor@,
    {
        AccessGuard { doc_ref: DocumentRef::Owned(DocState::Idle(new_document_with_actor(actor))), ticket: 0 }
    }

    /// A guard that owns `d`.
    pub fn from_document(d: Automerge) -> (r: AccessGuard)
        ensures
            r.reference() == DocumentRef::Owned(DocState::Idle(d)),
    {
        AccessGuard { doc_ref: DocumentRef::Owned(DocState::Idle(d)), ticket: 0 }
    }

    /// A guard over a document lent by the caller, who must invalidate it
    /// before its own frame returns and then take the document back.
    pub fn new_borrowed(d: Automerge) -> (r: AccessGuard)
        ensures
            r.reference() == DocumentRef::Borrowed(Lent::Live(DocState::Idle(d))),
    {
        AccessGuard { doc_ref: DocumentRef::Borrowed(Lent::Live(DocState::Idle(d))), ticket: 0 }
    }

    /// A read-only guard over the document of the actor whose lock has
    /// identity `lock_id`.
    pub fn new_from_actor(lock_id: usize) -> (r: AccessGuard)
        ensures
            r.reference() == DocumentRef::Actor(lock_id),
    {
        AccessGuard { doc_ref: DocumentRef::Actor(lock_id), ticket: 0 }
    }

    /// A guard that owns the document saved in `data`; the engine's error
    /// when `data` is not one.
    pub fn load(data: &[u8]) -> (r: Result<AccessGuard, AccessError>)
        ensures
            r is Ok <==> load_error_of(data@) is None,
            r matches Err(e) ==> load_error_of(data@) matches Some(le) && e == AccessError::Engine(le),
            r matches Ok(g) ==> {
                &&& g.reference() is Owned
                &&& g.reference().idle_doc() matches Some(d)
                &&& heads_of(d) == loaded_heads_of(data@)
            },
    {
        match load_document(data) {
            Ok(d) => Ok(AccessGuard::from_document(d)),
            Err(e) => Err(AccessError::Engine(e)),
        }
    }

    pub open spec fn regime(self) -> Regime {
        self.reference().regime()
    }

    /// Marks a lent reference as no longer usable. Does nothing to an owned
    /// or actor reference, nor to one already invalidated.
    pub fn invalidate(&mut self)
        ensures
            final(self).reference().regime() == old(self).reference().regime(),
            final(self).ticket() == old(self).ticket(),
            old(self).reference() is Borrowed ==> final(self).reference().is_invalidated(),
            !(old(self).reference() matches DocumentRef::Borrowed(Lent::Live(_))) ==> *final(self)
                == *old(self),
            old(self).reference() matches DocumentRef::Borrowed(Lent::Live(s)) ==> final(self).reference()
                == DocumentRef::Borrowed(Lent::Invalidated(s)),
    {
        if let DocumentRef::Borrowed(Lent::Live(_)) = &self.doc_ref {
            let mut taken = DocumentRef::Borrowed(Lent::Returned);
            std::mem::swap(&mut self.doc_ref, &mut taken);
            if let DocumentRef::Borrowed(Lent::Live(s)) = taken {
                self.doc_ref = DocumentRef::Borrowed(Lent::Invalidated(s));
            }
        }
    }

    /// The lender takes its document back: an open transaction is rolled
    /// back, the reference is left invalidated, and the document returned.
    /// Gives nothing for an owned or actor reference, or one already taken.
    pub(crate) fn take_back(&mut self) -> (r: Option<Automerge>)
        ensures
            final(self).ticket() == old(self).ticket(),
            old(self).reference() is Borrowed ==> final(self).reference() == DocumentRef::Borrowed(
                Lent::Returned,
            ),
            !(old(self).reference() is Borrowed) ==> *final(self) == *old(self),
            r is Some <==> (old(self).reference() is Borrowed && !(old(self).reference()
                == DocumentRef::Borrowed(Lent::Returned))),
            old(self).reference() matches DocumentRef::Borrowed(Lent::Live(DocState::Idle(d))) ==> r
                == Some(d),
            old(self).reference() matches DocumentRef::Borrowed(Lent::Invalidated(DocState::Idle(d)))
                ==> r == Some(d),
            old(self).reference() matches DocumentRef::Borrowed(Lent::Live(DocState::InTransaction(t)))
                ==> r == Some(rolled_back_of(t)),
            old(self).reference() matches DocumentRef::Borrowed(
                Lent::Invalidated(DocState::InTransaction(t)),
            ) ==> r == Some(rolled_back_of(t)),
    {
        if let DocumentRef::Borrowed(_) = &self.doc_ref {
            let mut taken = DocumentRef::Borrowed(Lent::Returned);
            std::mem::swap(&mut self.doc_ref, &mut taken);
            match taken {
                DocumentRef::Borrowed(Lent::Live(s)) => Some(settle_by_rollback(s)),
                DocumentRef::Borrowed(Lent::Invalidated(s)) => Some(settle_by_rollback(s)),
                _ => None,
            }
        } else {
            None
        }
    }

    /// The view that reads run against. Reads route through an open
    /// transaction, so they observe its uncommitted writes.
    pub fn read_view(&self) -> (r: Result<Reach<ReadView<'_>>, AccessError>)
        ensures
            self.reference().read_error() matches Some(e) ==> r == Err::<Reach<ReadView<'_>>, AccessError>(e),
            self.reference().read_error() is None ==> r is Ok,
            r matches Ok(v) ==> {
                &&& (v is Actor <==> self.reference() is Actor)
                &&& (self.reference() matches DocumentRef::Actor(k) ==> v == Reach::<ReadView<'_>>::Actor(k))
                &&& (v matches Reach::Here(w) ==> (w is Transaction <==> self.reference().tx_open()))
                &&& (self.reference().idle_doc() matches Some(d) ==> v == Reach::Here(ReadView::Document(&d)))
                &&& (self.reference().open_tx() matches Some(t) ==> v == Reach::Here(ReadView::Transaction(&t)))
            },
    {
        match &self.doc_ref {
            DocumentRef::Owned(s) => Ok(Reach::Here(state_view(s))),
            DocumentRef::Borrowed(Lent::Live(s)) => Ok(Reach::Here(state_view(s))),
            DocumentRef::Borrowed(_) => Err(AccessError::Invalidated),
            DocumentRef::Actor(k) => Ok(Reach::Actor(*k)),
        }
    }

    /// The document itself, for operations that need it immediately; refused
    /// while a transaction holds it.
    pub fn doc_view(&self) -> (r: Result<Reach<DocView<'_>>, AccessError>)
        ensures
            self.reference().doc_error() matches Some(e) ==> r == Err::<Reach<DocView<'_>>, AccessError>(e),
            self.reference().doc_error() is None ==> r is Ok,
            r matches Ok(v) ==> {
                &&& (v is Actor <==> self.reference() is Actor)
                &&& (self.reference() matches DocumentRef::Actor(k) ==> v == Reach::<DocView<'_>>::Actor(k))
                &&& (self.reference().idle_doc() matches Some(d) ==> v == Reach::Here(DocView(&d)))
            },
    {
        match &self.doc_ref {
            DocumentRef::Owned(DocState::Idle(d)) => Ok(Reach::Here(DocView(d))),
            DocumentRef::Borrowed(Lent::Live(DocState::Idle(d))) => Ok(Reach::Here(DocView(d))),
            DocumentRef::Owned(DocState::InTransaction(_)) => Err(AccessError::ActiveTransaction),
            DocumentRef::Borrowed(Lent::Live(DocState::InTransaction(_))) => Err(
                AccessError::ActiveTransaction,
            ),
            DocumentRef::Borrowed(_) => Err(AccessError::Invalidated),
            DocumentRef::Actor(k) => Ok(Reach::Actor(*k)),
        }
    }

    /// Mutable access to the document itself. Refused while a transaction
    /// holds it, after invalidation, and always for an actor's document,
    /// which is changed only through the actor's own entry point.
    pub fn write_mut(&mut self) -> (r: Result<&mut Automerge, AccessError>)
        ensures
            old(self).reference().write_error() matches Some(e) ==> r is Err && r->Err_0 == e
                && *final(self) == *old(self),
            old(self).reference().write_error() is None ==> r is Ok,
            r matches Ok(d) ==> {
                &&& old(self).reference().idle_doc() == Some(*d)
                &&& final(self).reference() == old(self).reference().with_idle_doc(*final(d))
                &&& final(self).ticket() == old(self).ticket()
            },
    {
        match &mut self.doc_ref {
            DocumentRef::Owned(DocState::Idle(d)) => Ok(d),
            DocumentRef::Borrowed(Lent::Live(DocState::Idle(d))) => Ok(d),
            DocumentRef::Owned(DocState::InTransaction(_)) => Err(AccessError::ActiveTransaction),
            DocumentRef::Borrowed(Lent::Live(DocState::InTransaction(_))) => Err(
                AccessError::ActiveTransaction,
            ),
            DocumentRef::Borrowed(_) => Err(AccessError::Invalidated),
            DocumentRef::Actor(_) => Err(AccessError::ReadOnlyActor),
        }
    }
}

impl AccessGuard {
    /// Applies a sync message from the peer whose state is `state`. The
    /// document must be reachable for mutation; a refusal leaves the guard
    /// and `state` untouched.
    pub fn receive_sync_message(&mut self, state: &mut State, message: Message) -> (r: Result<
        (),
        AccessError,
    >)
        ensures
            old(self).reference().write_error() matches Some(e) ==> r == Err::<(), AccessError>(e)
                && *final(self) == *old(self) && *final(state) == *old(state),
            old(self).reference().write_error() is None ==> ({
                let got = received_of(old(self).reference().idle_doc()->Some_0, *old(state), message);
                &&& final(self).reference() == old(self).reference().with_idle_doc(got.0)
                &&& final(self).ticket() == old(self).ticket()
                &&& *final(state) == got.1
                &&& r == from_engine(got.2)
            }),
    {
        let d = match self.write_mut() {
            Ok(d) => d,
            Err(e) => return Err(e),
        };
        engine_err(receive_sync(d, state, message))
    }

    /// Merges the changes of `other` into this document; the new heads.
    /// Both documents must be reachable for mutation; `other` is only read.
    pub fn merge(&mut self, other: &mut AccessGuard) -> (r: Result<Vec<ChangeHash>, AccessError>)
        ensures
            old(self).reference().write_error() matches Some(e) ==> r == Err::<Vec<ChangeHash>, AccessError>(e)
                && *final(self) == *old(self) && *final(other) == *old(other),
            old(self).reference().write_error() is None ==> (old(other).reference().write_error() matches Some(
                e) ==> r == Err::<Vec<ChangeHash>, AccessError>(e) && *final(self) == *old(self)
                && *final(other) == *old(other)),
            old(self).reference().write_error() is None && old(other).reference().write_error() is None ==> ({
                let got = merged_of(
                    old(self).reference().idle_doc()->Some_0,
                    old(other).reference().idle_doc()->Some_0,
                );
                &&& final(self).reference() == old(self).reference().with_idle_doc(got.0)
                &&& final(self).ticket() == old(self).ticket()
                &&& *final(other) == *old(other)
                &&& r == from_engine(got.1)
                &&& (r matches Ok(h) ==> h@ == heads_of(got.0))
            }),
    {
        let d = match self.write_mut() {
            Ok(d) => d,
            Err(e) => return Err(e),
        };
        let o = match other.write_mut() {
            Ok(o) => o,
            Err(e) => return Err(e),
        };
        engine_err(merge_documents(d, o))
    }

    /// Merges the document with itself, which adds no change: refused where
    /// a merge is refused, and otherwise the document's heads, with the guard
    /// left as it was.
    pub fn merge_self(&mut self) -> (r: Result<Vec<ChangeHash>, AccessError>)
        ensures
            *final(self) == *old(self),
            old(self).reference().write_error() matches Some(e) ==> r == Err::<Vec<ChangeHash>, AccessError>(e),
            old(self).reference().write_error() is None ==> r is Ok,
            r matches Ok(h) ==> h@ == heads_of(old(self).reference().idle_doc()->Some_0),
    {
        match self.write_mut() {
            Ok(d) => Ok(document_heads(d)),
            Err(e) => Err(e),
        }
    }

    /// Makes later changes under the actor id `actor`. Refused on a lent
    /// document, whose actor id belongs to the lender, and otherwise where a
    /// direct write is refused.
    pub fn set_actor(&mut self, actor: &[u8]) -> (r: Result<(), AccessError>)
        ensures
            old(self).reference().set_actor_error() matches Some(e) ==> r == Err::<(), AccessError>(e)
                && *final(self) == *old(self),
            old(self).reference().set_actor_error() is None ==> {
                &&& r is Ok
                &&& final(self).reference() == old(self).reference().with_idle_doc(
                    with_actor_id_of(old(self).reference().idle_doc()->Some_0, actor@),
                )
                &&& final(self).ticket() == old(self).ticket()
            },
    {
        if let DocumentRef::Borrowed(_) = &self.doc_ref {
            return Err(AccessError::LentActorChange);
        }
        let d = match self.write_mut() {
            Ok(d) => d,
            Err(e) => return Err(e),
        };
        set_document_actor(d, actor);
        Ok(())
    }
}

/// Brings a held document to rest, discarding any pending operations.
fn settle_by_rollback(s: DocState) -> (d: Automerge)
    ensures
        s matches DocState::Idle(x) ==> d == x,
        s matches DocState::InTransaction(t) ==> d == rolled_back_of(t),
{
    match s {
        DocState::Idle(d) => d,
        DocState::InTransaction(t) => {
            let (d, _discarded) = rollback_transaction(t);
            d
        },
    }
}

impl AccessGuard {
    /// The open transaction, for an operation of the scope with ticket
    /// `ticket`; refused when that transaction has ended.
    fn tx_mut(&mut self, ticket: u64) -> (r: Result<&mut OwnedTransaction, AccessError>)
        ensures
            old(self).op_error(ticket) matches Some(e) ==> r is Err && r->Err_0 == e
                && *final(self) == *old(self),
            old(self).op_error(ticket) is None ==> r is Ok,
            r matches Ok(t) ==> {
                &&& old(self).reference().open_tx() == Some(*t)
                &&& final(self).reference() == old(self).reference().with_tx(*final(t))
                &&& final(self).ticket() == old(self).ticket()
            },
    {
        if let DocumentRef::Borrowed(Lent::Invalidated(_)) = &self.doc_ref {
            return Err(AccessError::Invalidated);
        }
        if let DocumentRef::Borrowed(Lent::Returned) = &self.doc_ref {
            return Err(AccessError::Invalidated);
        }
        if ticket != self.ticket {
            return Err(AccessError::TransactionInactive);
        }
        match &mut self.doc_ref {
            DocumentRef::Owned(DocState::InTransaction(t)) => Ok(t),
            DocumentRef::Borrowed(Lent::Live(DocState::InTransaction(t))) => Ok(t),
            DocumentRef::Owned(DocState::Idle(_)) => Err(AccessError::TransactionInactive),
            DocumentRef::Borrowed(Lent::Live(DocState::Idle(_))) => Err(
                AccessError::TransactionInactive,
            ),
            DocumentRef::Borrowed(_) => Err(AccessError::Invalidated),
            DocumentRef::Actor(_) => Err(AccessError::TransactionInactive),
        }
    }

    /// Begins a transaction on the guard's own document, which moves into it
    /// until it commits or rolls back; the new transaction's ticket. Refused
    /// while one is open, without touching the document.
    pub fn transaction(&mut self) -> (r: Result<u64, AccessError>)
        ensures
            old(self).reference().begin_error() matches Some(e) ==> r == Err::<u64, AccessError>(e)
                && *final(self) == *old(self),
            old(self).reference().begin_error() is None ==> {
                &&& r == Ok::<u64, AccessError>(final(self).ticket())
                &&& final(self).ticket() == next_ticket(old(self).ticket())
                &&& began(old(self).reference(), final(self).reference())
            },
    {
        match &self.doc_ref {
            DocumentRef::Owned(DocState::InTransaction(_)) => {
                return Err(AccessError::AlreadyActive);
            },
            DocumentRef::Borrowed(Lent::Live(DocState::InTransaction(_))) => {
                return Err(AccessError::AlreadyActive);
            },
            DocumentRef::Borrowed(Lent::Invalidated(_)) => {
                return Err(AccessError::Invalidated);
            },
            DocumentRef::Borrowed(Lent::Returned) => {
                return Err(AccessError::Invalidated);
            },
            DocumentRef::Actor(_) => {
                return Err(AccessError::ReadOnlyActor);
            },
            _ => {},
        }
        let mut taken = DocumentRef::Borrowed(Lent::Returned);
        std::mem::swap(&mut self.doc_ref, &mut taken);
        self.doc_ref = match taken {
            DocumentRef::Owned(DocState::Idle(d)) => DocumentRef::Owned(
                DocState::InTransaction(open_transaction(d).unwrap()),
            ),
            DocumentRef::Borrowed(Lent::Live(DocState::Idle(d))) => DocumentRef::Borrowed(
                Lent::Live(DocState::InTransaction(open_transaction(d).unwrap())),
            ),
            other => other,
        };
        self.ticket = if self.ticket == u64::MAX {
            0
        } else {
            self.ticket + 1
        };
        Ok(self.ticket)
    }

    /// Ends the transaction with ticket `ticket`, folding its operations into
    /// the document's history; the hash of the new change, if it made one.
    pub fn commit(&mut self, ticket: u64) -> (r: Result<Option<ChangeHash>, AccessError>)
        ensures
            old(self).op_error(ticket) matches Some(e) ==> r == Err::<Option<ChangeHash>, AccessError>(e)
                && *final(self) == *old(self),
            old(self).op_error(ticket) is None ==> {
                &&& r == Ok::<Option<ChangeHash>, AccessError>(
                    committed_of(old(self).reference().open_tx()->Some_0).1,
                )
                &&& committed(*old(self), *final(self))
            },
    {
        match self.finish(ticket, true) {
            Ok(ended) => Ok(ended.hash),
            Err(e) => Err(e),
        }
    }

    /// Ends the transaction with ticket `ticket`, discarding its operations;
    /// how many there were.
    pub fn rollback(&mut self, ticket: u64) -> (r: Result<usize, AccessError>)
        ensures
            old(self).op_error(ticket) matches Some(e) ==> r == Err::<usize, AccessError>(e)
                && *final(self) == *old(self),
            old(self).op_error(ticket) is None ==> r is Ok && rolled_back(*old(self), *final(self)),
            r matches Ok(n) ==> n == pending_of(old(self).reference().open_tx()->Some_0),
    {
        match self.finish(ticket, false) {
            Ok(ended) => Ok(ended.discarded),
            Err(e) => Err(e),
        }
    }

    /// The end of the scope of the transaction with ticket `ticket`: commits
    /// on a normal exit, rolls back on an exit by failure. If that
    /// transaction has already ended (none is open, or the open one has
    /// another ticket), nothing happens, so each transaction ends once and a
    /// stale scope never ends a newer transaction.
    pub fn exit(&mut self, ticket: u64, failed: bool) -> (r: Result<(), AccessError>)
        ensures
            old(self).reference().is_invalidated() ==> r == Err::<(), AccessError>(
                AccessError::Invalidated,
            ) && *final(self) == *old(self),
            !old(self).reference().is_invalidated() ==> r is Ok,
            !old(self).reference().tx_open() || ticket != old(self).ticket() ==> *final(self)
                == *old(self),
            !old(self).reference().is_invalidated() && old(self).reference().tx_open() && ticket == old(
                self,
            ).ticket() ==> {
                &&& failed ==> rolled_back(*old(self), *final(self))
                &&& !failed ==> committed(*old(self), *final(self))
            },
    {
        match &self.doc_ref {
            DocumentRef::Borrowed(Lent::Invalidated(_)) => {
                return Err(AccessError::Invalidated);
            },
            DocumentRef::Borrowed(Lent::Returned) => {
                return Err(AccessError::Invalidated);
            },
            _ => {},
        }
        if ticket == self.ticket {
            match self.finish(ticket, !failed) {
                _ => {},
            }
        }
        Ok(())
    }

    /// Commits (`keep`) or rolls back the open transaction.
    fn finish(&mut self, ticket: u64, keep: bool) -> (r: Result<Ended, AccessError>)
        ensures
            old(self).op_error(ticket) matches Some(e) ==> r == Err::<Ended, AccessError>(e)
                && *final(self) == *old(self),
            old(self).op_error(ticket) is None ==> r is Ok,
            r matches Ok(x) ==> ({
                let t = old(self).reference().open_tx()->Some_0;
                &&& keep ==> committed(*old(self), *final(self)) && x.hash == committed_of(t).1
                &&& !keep ==> rolled_back(*old(self), *final(self)) && x.discarded == pending_of(t)
            }),
    {
        match &self.doc_ref {
            DocumentRef::Borrowed(Lent::Invalidated(_)) => {
                return Err(AccessError::Invalidated);
            },
            DocumentRef::Borrowed(Lent::Returned) => {
                return Err(AccessError::Invalidated);
            },
            _ => {},
        }
        if ticket != self.ticket {
            return Err(AccessError::TransactionInactive);
        }
        match &self.doc_ref {
            DocumentRef::Owned(DocState::Idle(_)) => {
                return Err(AccessError::TransactionInactive);
            },
            DocumentRef::Borrowed(Lent::Live(DocState::Idle(_))) => {
                return Err(AccessError::TransactionInactive);
            },
            DocumentRef::Borrowed(Lent::Invalidated(_)) => {
                return Err(AccessError::Invalidated);
            },
            DocumentRef::Borrowed(Lent::Returned) => {
                return Err(AccessError::Invalidated);
            },
            DocumentRef::Actor(_) => {
                return Err(AccessError::TransactionInactive);
            },
            _ => {},
        }
        let mut taken = DocumentRef::Borrowed(Lent::Returned);
        std::mem::swap(&mut self.doc_ref, &mut taken);
        let (rest, ended) = match taken {
            DocumentRef::Owned(DocState::InTransaction(t)) => {
                let (d, ended) = end_transaction(t, keep);
                (DocumentRef::Owned(DocState::Idle(d)), ended)
            },
            DocumentRef::Borrowed(Lent::Live(DocState::InTransaction(t))) => {
                let (d, ended) = end_transaction(t, keep);
                (DocumentRef::Borrowed(Lent::Live(DocState::Idle(d))), ended)
            },
            other => (other, Ended { hash: None, discarded: 0 }),
        };
        self.doc_ref = rest;
        Ok(ended)
    }

    /// Puts `value` under `prop` of `obj`.
    pub fn put(&mut self, ticket: u64, obj: &ObjId, prop: Prop, value: ScalarValue) -> (r: Result<(), AccessError>)
        ensures
            tx_op_done(*old(self), *final(self), ticket, r, (|t: OwnedTransaction| tx_put_of(t, *obj, prop, value))),
    {
        let t = match self.tx_mut(ticket) {
            Ok(t) => t,
            Err(e) => return Err(e),
        };
        engine_err(tx_put(t, obj, prop, value))
    }

    /// Puts a new object of kind `kind` under `prop`; its id.
    pub fn put_object(&mut self, ticket: u64, obj: &ObjId, prop: Prop, kind: ObjType) -> (r: Result<ObjId, AccessError>)
        ensures
            tx_op_done(*old(self), *final(self), ticket, r, (|t: OwnedTransaction| tx_put_object_of(t, *obj, prop, kind))),
    {
        let t = match self.tx_mut(ticket) {
            Ok(t) => t,
            Err(e) => return Err(e),
        };
        engine_err(tx_put_object(t, obj, prop, kind))
    }

    /// Inserts `value` at `index` of a sequence.
    pub fn insert(&mut self, ticket: u64, obj: &ObjId, index: usize, value: ScalarValue) -> (r: Result<(), AccessError>)
        ensures
            tx_op_done(*old(self), *final(self), ticket, r, (|t: OwnedTransaction| tx_insert_of(t, *obj, index, value))),
    {
        let t = match self.tx_mut(ticket) {
            Ok(t) => t,
            Err(e) => return Err(e),
        };
        engine_err(tx_insert(t, obj, index, value))
    }

    /// Inserts a new object of kind `kind` at `index` of a sequence; its id.
    pub fn insert_object(&mut self, ticket: u64, obj: &ObjId, index: usize, kind: ObjType) -> (r: Result<ObjId, AccessError>)
        ensures
            tx_op_done(*old(self), *final(self), ticket, r, (|t: OwnedTransaction| tx_insert_object_of(t, *obj, index, kind))),
    {
        let t = match self.tx_mut(ticket) {
            Ok(t) => t,
            Err(e) => return Err(e),
        };
        engine_err(tx_insert_object(t, obj, index, kind))
    }

    /// Adds `by` to the counter under `prop`.
    pub fn increment(&mut self, ticket: u64, obj: &ObjId, prop: Prop, by: i64) -> (r: Result<(), AccessError>)
        ensures
            tx_op_done(*old(self), *final(self), ticket, r, (|t: OwnedTransaction| tx_increment_of(t, *obj, prop, by))),
    {
        let t = match self.tx_mut(ticket) {
            Ok(t) => t,
            Err(e) => return Err(e),
        };
        engine_err(tx_increment(t, obj, prop, by))
    }

    /// Deletes what is under `prop`.
    pub fn delete(&mut self, ticket: u64, obj: &ObjId, prop: Prop) -> (r: Result<(), AccessError>)
        ensures
            tx_op_done(*old(self), *final(self), ticket, r, (|t: OwnedTransaction| tx_delete_of(t, *obj, prop))),
    {
        let t = match self.tx_mut(ticket) {
            Ok(t) => t,
            Err(e) => return Err(e),
        };
        engine_err(tx_delete(t, obj, prop))
    }

    /// Replaces `del` characters at `pos` of a text object with `text`.
    pub fn splice_text(&mut self, ticket: u64, obj: &ObjId, pos: usize, del: isize, text: &str) -> (r: Result<(), AccessError>)
        requires
            del != isize::MIN,
        ensures
            tx_op_done(*old(self), *final(self), ticket, r, (|t: OwnedTransaction| tx_splice_text_of(t, *obj, pos, del, text@))),
    {
        let t = match self.tx_mut(ticket) {
            Ok(t) => t,
            Err(e) => return Err(e),
        };
        engine_err(tx_splice_text(t, obj, pos, del, text))
    }

    /// Marks the range `start..end` of `obj`.
    pub fn mark(&mut self, ticket: u64, obj: &ObjId, mark: Mark, expand: ExpandMark) -> (r: Result<(), AccessError>)
        ensures
            tx_op_done(*old(self), *final(self), ticket, r, (|t: OwnedTransaction| tx_mark_of(t, *obj, mark, expand))),
    {
        let t = match self.tx_mut(ticket) {
            Ok(t) => t,
            Err(e) => return Err(e),
        };
        engine_err(tx_mark(t, obj, mark, expand))
    }

    /// Removes the mark `name` from the range `start..end` of `obj`.
    pub fn unmark(&mut self, ticket: u64, obj: &ObjId, name: &str, start: usize, end: usize, expand: ExpandMark) -> (r: Result<(), AccessError>)
        ensures
            tx_op_done(*old(self), *final(self), ticket, r, (|t: OwnedTransaction| tx_unmark_of(t, *obj, name@, start, end, expand))),
    {
        let t = match self.tx_mut(ticket) {
            Ok(t) => t,
            Err(e) => return Err(e),
        };
        engine_err(tx_unmark(t, obj, name, start, end, expand))
    }
}


/// How a transaction ended.
struct Ended {
    hash: Option<ChangeHash>,
    discarded: usize,
}

/// Commits (`keep`) or rolls back `t`, handing the document back.
fn end_transaction(t: OwnedTransaction, keep: bool) -> (r: (Automerge, Ended))
    ensures
        keep ==> r.0 == committed_of(t).0 && r.1.hash == committed_of(t).1,
        keep ==> (committed_of(t).1 is Some <==> pending_of(t) > 0),
        keep ==> (committed_of(t).1 matches Some(h) ==> heads_of(committed_of(t).0) == seq![h]),
        keep ==> (committed_of(t).1 is None ==> heads_of(committed_of(t).0) == tx_heads_of(t)),
        !keep ==> r.0 == rolled_back_of(t) && r.1.discarded == pending_of(t),
        !keep ==> heads_of(rolled_back_of(t)) == tx_heads_of(t),
{
    if keep {
        let (d, hash) = commit_transaction(t);
        (d, Ended { hash, discarded: 0 })
    } else {
        let (d, discarded) = rollback_transaction(t);
        (d, Ended { hash: None, discarded })
    }
}

} // verus!
