//! Views that reads run against, and the reads themselves.

use crate::engine::{
    actor_of, changes_of, fork_at_error_of, diff_document, diff_of, doc_get, doc_get_at, doc_get_at_of, doc_get_of,
    doc_keys, doc_keys_at, doc_keys_at_of, doc_keys_of, doc_length, doc_length_at,
    doc_length_at_of, doc_length_of, doc_marks, doc_marks_at, doc_marks_at_of, doc_marks_of,
    doc_object_type, doc_object_type_of, doc_text, doc_text_at, doc_text_at_of, doc_text_of,
    doc_values, doc_values_at, doc_values_at_of, doc_values_of, document_actor, document_changes,
    document_heads, fork_document, fork_document_at, generate_sync, generated_of, heads_of,
    last_local_change, last_local_change_of, save_document, saved_of, tx_get, tx_get_at,
    tx_get_at_of, tx_get_of, tx_heads, tx_heads_of, tx_keys, tx_keys_at, tx_keys_at_of, tx_keys_of,
    tx_length, tx_length_at, tx_length_at_of, tx_length_of, tx_marks, tx_marks_at, tx_marks_at_of,
    tx_marks_of, tx_object_type, tx_object_type_of, tx_text, tx_text_at, tx_text_at_of, tx_text_of,
    tx_values, tx_values_at, tx_values_at_of, tx_values_of,
};
use crate::error::{engine_err, from_engine, AccessError};
use crate::guard::AccessGuard;
use crate::reference::DocState;
use automerge::marks::Mark;
use automerge::sync::{Message, State};
use automerge::transaction::OwnedTransaction;
use automerge::{Automerge, Change, ChangeHash, ObjId, ObjType, Patch, Prop, Value};
use vstd::prelude::*;

verus! {

/// What a read runs against: the document at rest, or the open
/// transaction's view, which sees its pending writes.
pub enum ReadView<'a> {
    Document(&'a Automerge),
    Transaction(&'a OwnedTransaction),
}

/// The document itself, for operations that a transaction's view cannot
/// serve.
pub struct DocView<'a>(pub &'a Automerge);

/// Where an access lands: on a view held right here, or on an actor's
/// document, reached through the actor's lock (identity given) or through
/// the reentrancy registry's entry for that lock.
pub enum Reach<V> {
    Here(V),
    Actor(usize),
}

impl<'a> ReadView<'a> {
    /// What `get` returns on this view.
    pub open spec fn get_result(self, obj: ObjId, prop: Prop, heads: Option<Seq<ChangeHash>>) -> Result<Option<(Value<'static>, ObjId)>, AccessError> {
        match (self, heads) {
            (ReadView::Document(d), None) => from_engine(doc_get_of(*d, obj, prop)),
            (ReadView::Document(d), Some(h)) => from_engine(doc_get_at_of(*d, obj, prop, h)),
            (ReadView::Transaction(t), None) => from_engine(tx_get_of(*t, obj, prop)),
            (ReadView::Transaction(t), Some(h)) => from_engine(tx_get_at_of(*t, obj, prop, h)),
        }
    }

    /// The value under `prop` of `obj`, with its id; as of `heads` when
    /// given.
    pub fn get(&self, obj: &ObjId, prop: &Prop, heads: Option<&[ChangeHash]>) -> (r: Result<Option<(Value<'static>, ObjId)>, AccessError>)
        ensures
            r == self.get_result(*obj, *prop, heads_view(heads)),
    {
        match (self, heads) {
            (ReadView::Document(d), None) => engine_err(doc_get(d, obj, prop)),
            (ReadView::Document(d), Some(h)) => engine_err(doc_get_at(d, obj, prop, h)),
            (ReadView::Transaction(t), None) => engine_err(tx_get(t, obj, prop)),
            (ReadView::Transaction(t), Some(h)) => engine_err(tx_get_at(t, obj, prop, h)),
        }
    }

    /// What `keys` returns on this view.
    pub open spec fn keys_result(self, obj: ObjId, heads: Option<Seq<ChangeHash>>) -> Seq<String> {
        match (self, heads) {
            (ReadView::Document(d), None) => (doc_keys_of(*d, obj)),
            (ReadView::Document(d), Some(h)) => (doc_keys_at_of(*d, obj, h)),
            (ReadView::Transaction(t), None) => (tx_keys_of(*t, obj)),
            (ReadView::Transaction(t), Some(h)) => (tx_keys_at_of(*t, obj, h)),
        }
    }

    /// The keys of the map `obj`; as of `heads` when given.
    pub fn keys(&self, obj: &ObjId, heads: Option<&[ChangeHash]>) -> (r: Vec<String>)
        ensures
            r@ == self.keys_result(*obj, heads_view(heads)),
    {
        match (self, heads) {
            (ReadView::Document(d), None) => (doc_keys(d, obj)),
            (ReadView::Document(d), Some(h)) => (doc_keys_at(d, obj, h)),
            (ReadView::Transaction(t), None) => (tx_keys(t, obj)),
            (ReadView::Transaction(t), Some(h)) => (tx_keys_at(t, obj, h)),
        }
    }

    /// What `values` returns on this view.
    pub open spec fn values_result(self, obj: ObjId, heads: Option<Seq<ChangeHash>>) -> Seq<(Value<'static>, ObjId)> {
        match (self, heads) {
            (ReadView::Document(d), None) => (doc_values_of(*d, obj)),
            (ReadView::Document(d), Some(h)) => (doc_values_at_of(*d, obj, h)),
            (ReadView::Transaction(t), None) => (tx_values_of(*t, obj)),
            (ReadView::Transaction(t), Some(h)) => (tx_values_at_of(*t, obj, h)),
        }
    }

    /// The values in `obj`, each with its id; as of `heads` when given.
    pub fn values(&self, obj: &ObjId, heads: Option<&[ChangeHash]>) -> (r: Vec<(Value<'static>, ObjId)>)
        ensures
            r@ == self.values_result(*obj, heads_view(heads)),
    {
        match (self, heads) {
            (ReadView::Document(d), None) => (doc_values(d, obj)),
            (ReadView::Document(d), Some(h)) => (doc_values_at(d, obj, h)),
            (ReadView::Transaction(t), None) => (tx_values(t, obj)),
            (ReadView::Transaction(t), Some(h)) => (tx_values_at(t, obj, h)),
        }
    }

    /// What `marks` returns on this view.
    pub open spec fn marks_result(self, obj: ObjId, heads: Option<Seq<ChangeHash>>) -> Result<Vec<Mark>, AccessError> {
        match (self, heads) {
            (ReadView::Document(d), None) => from_engine(doc_marks_of(*d, obj)),
            (ReadView::Document(d), Some(h)) => from_engine(doc_marks_at_of(*d, obj, h)),
            (ReadView::Transaction(t), None) => from_engine(tx_marks_of(*t, obj)),
            (ReadView::Transaction(t), Some(h)) => from_engine(tx_marks_at_of(*t, obj, h)),
        }
    }

    /// The marks on the text or list `obj`; as of `heads` when given.
    pub fn marks(&self, obj: &ObjId, heads: Option<&[ChangeHash]>) -> (r: Result<Vec<Mark>, AccessError>)
        ensures
            r == self.marks_result(*obj, heads_view(heads)),
    {
        match (self, heads) {
            (ReadView::Document(d), None) => engine_err(doc_marks(d, obj)),
            (ReadView::Document(d), Some(h)) => engine_err(doc_marks_at(d, obj, h)),
            (ReadView::Transaction(t), None) => engine_err(tx_marks(t, obj)),
            (ReadView::Transaction(t), Some(h)) => engine_err(tx_marks_at(t, obj, h)),
        }
    }

    /// What `length` returns on this view.
    pub open spec fn length_result(self, obj: ObjId, heads: Option<Seq<ChangeHash>>) -> usize {
        match (self, heads) {
            (ReadView::Document(d), None) => (doc_length_of(*d, obj)),
            (ReadView::Document(d), Some(h)) => (doc_length_at_of(*d, obj, h)),
            (ReadView::Transaction(t), None) => (tx_length_of(*t, obj)),
            (ReadView::Transaction(t), Some(h)) => (tx_length_at_of(*t, obj, h)),
        }
    }

    /// The length of `obj`; as of `heads` when given.
    pub fn length(&self, obj: &ObjId, heads: Option<&[ChangeHash]>) -> (r: usize)
        ensures
            r == self.length_result(*obj, heads_view(heads)),
    {
        match (self, heads) {
            (ReadView::Document(d), None) => (doc_length(d, obj)),
            (ReadView::Document(d), Some(h)) => (doc_length_at(d, obj, h)),
            (ReadView::Transaction(t), None) => (tx_length(t, obj)),
            (ReadView::Transaction(t), Some(h)) => (tx_length_at(t, obj, h)),
        }
    }

    /// What `text` returns on this view.
    pub open spec fn text_result(self, obj: ObjId, heads: Option<Seq<ChangeHash>>) -> Result<String, AccessError> {
        match (self, heads) {
            (ReadView::Document(d), None) => from_engine(doc_text_of(*d, obj)),
            (ReadView::Document(d), Some(h)) => from_engine(doc_text_at_of(*d, obj, h)),
            (ReadView::Transaction(t), None) => from_engine(tx_text_of(*t, obj)),
            (ReadView::Transaction(t), Some(h)) => from_engine(tx_text_at_of(*t, obj, h)),
        }
    }

    /// The text held by the text object `obj`; as of `heads` when given.
    pub fn text(&self, obj: &ObjId, heads: Option<&[ChangeHash]>) -> (r: Result<String, AccessError>)
        ensures
            r == self.text_result(*obj, heads_view(heads)),
    {
        match (self, heads) {
            (ReadView::Document(d), None) => engine_err(doc_text(d, obj)),
            (ReadView::Document(d), Some(h)) => engine_err(doc_text_at(d, obj, h)),
            (ReadView::Transaction(t), None) => engine_err(tx_text(t, obj)),
            (ReadView::Transaction(t), Some(h)) => engine_err(tx_text_at(t, obj, h)),
        }
    }

    /// The kind of the object `obj`.
    pub fn object_type(&self, obj: &ObjId) -> (r: Result<ObjType, AccessError>)
        ensures
            r == match *self {
                ReadView::Document(d) => from_engine(doc_object_type_of(*d, *obj)),
                ReadView::Transaction(t) => from_engine(tx_object_type_of(*t, *obj)),
            },
    {
        match self {
            ReadView::Document(d) => engine_err(doc_object_type(d, obj)),
            ReadView::Transaction(t) => engine_err(tx_object_type(t, obj)),
        }
    }

    /// The heads of the document; through a transaction, the heads it
    /// started from.
    pub fn get_heads(&self) -> (r: Vec<ChangeHash>)
        ensures
            r@ == match *self {
                ReadView::Document(d) => heads_of(*d),
                ReadView::Transaction(t) => tx_heads_of(*t),
            },
    {
        match self {
            ReadView::Document(d) => document_heads(d),
            ReadView::Transaction(t) => tx_heads(t),
        }
    }
}

/// The heads a read is asked to look at, as a sequence.
pub open spec fn heads_view(heads: Option<&[ChangeHash]>) -> Option<Seq<ChangeHash>> {
    match heads {
        Some(h) => Some(h@),
        None => None,
    }
}

impl<'a> DocView<'a> {
    /// The whole document in its binary form.
    pub fn save(&self) -> (r: Vec<u8>)
        ensures
            r@ == saved_of(*self.0),
    {
        save_document(self.0)
    }

    /// The heads of the document.
    pub fn get_heads(&self) -> (r: Vec<ChangeHash>)
        ensures
            r@ == heads_of(*self.0),
    {
        document_heads(self.0)
    }

    /// The bytes of the actor id that new changes are made under.
    pub fn get_actor(&self) -> (r: Vec<u8>)
        ensures
            r@ == actor_of(*self.0),
    {
        document_actor(self.0)
    }

    /// The changes not reachable from `have_deps`.
    pub fn get_changes(&self, have_deps: &[ChangeHash]) -> (r: Vec<Change>)
        ensures
            r@ == changes_of(*self.0, have_deps@),
    {
        document_changes(self.0, have_deps)
    }

    /// The latest change made under the document's own actor, if any.
    pub fn get_last_local_change(&self) -> (r: Option<Change>)
        ensures
            r == last_local_change_of(*self.0),
    {
        last_local_change(self.0)
    }

    /// An owned copy of the document, under a new actor.
    pub fn fork(&self) -> (r: AccessGuard)
        ensures
            r.reference() is Owned,
            r.reference().idle_doc() matches Some(d) && heads_of(d) == heads_of(*self.0),
            !r.reference().tx_open(),
    {
        AccessGuard::from_document(fork_document(self.0))
    }

    /// An owned copy of the document as of `heads`.
    pub fn fork_at(&self, heads: &[ChangeHash]) -> (r: Result<AccessGuard, AccessError>)
        ensures
            r is Ok <==> fork_at_error_of(*self.0, heads@) is None,
            r matches Err(e) ==> fork_at_error_of(*self.0, heads@) matches Some(fe) && e
                == AccessError::Engine(fe),
            r matches Ok(g) ==> g.reference() is Owned && g.reference().idle_doc() is Some,
    {
        match fork_document_at(self.0, heads) {
            Ok(f) => Ok(AccessGuard::from_document(f)),
            Err(e) => Err(AccessError::Engine(e)),
        }
    }

    /// The next sync message for the peer whose state is `state`, if it
    /// needs one.
    pub fn generate_sync_message(&self, state: &mut State) -> (r: Option<Message>)
        ensures
            (*final(state), r) == generated_of(*self.0, *old(state)),
    {
        generate_sync(self.0, state)
    }

    /// Patches that lead from the state at `before` to the state at `after`.
    pub fn diff(&self, before: &[ChangeHash], after: &[ChangeHash]) -> (r: Vec<Patch>)
        ensures
            r@ == diff_of(*self.0, before@, after@),
    {
        diff_document(self.0, before, after)
    }
}

/// The read view of a held document.
pub(crate) fn state_view(s: &DocState) -> (r: ReadView<'_>)
    ensures
        s matches DocState::Idle(d) ==> r == ReadView::Document(&d),
        s matches DocState::InTransaction(t) ==> r == ReadView::Transaction(&t),
{
    match s {
        DocState::Idle(d) => ReadView::Document(d),
        DocState::InTransaction(t) => ReadView::Transaction(t),
    }
}

} // verus!
