//! The document engine seen from this library: the engine's types, declared
//! opaque, a name for what each engine call returns, and one trusted wrapper
//! per engine call that the logic makes.
//!
//! The library never looks inside a document, a transaction or a value: it
//! decides when an engine call is legal, makes it, and hands the engine's
//! answer back. The names below let contracts say which call was made on
//! which document. Each is a function of its arguments alone: the engine
//! reads no clock, no randomness and no environment in these calls (a
//! transaction's timestamp stays 0 unless a commit option sets it).

use automerge::marks::{ExpandMark, Mark};
use automerge::sync::{Message, ReadMessageError, State, SyncDoc};
use automerge::transaction::OwnedTransaction;
use automerge::transaction::Transactable;
use automerge::{Automerge, AutomergeError, Change, ChangeHash, ObjId, ObjType, Patch, Prop, ReadDoc};
use automerge::{ScalarValue, Value};
use vstd::prelude::*;

verus! {

#[verifier::external_type_specification]
#[verifier::external_body]
pub struct ExAutomerge(automerge::Automerge);

#[verifier::external_type_specification]
#[verifier::external_body]
pub struct ExOwnedTransaction(automerge::transaction::OwnedTransaction);

#[verifier::external_type_specification]
#[verifier::external_body]
pub struct ExChangeHash(automerge::ChangeHash);

#[verifier::external_type_specification]
#[verifier::external_body]
pub struct ExObjId(automerge::ObjId);

#[verifier::external_type_specification]
#[verifier::external_body]
pub struct ExObjType(automerge::ObjType);

#[verifier::external_type_specification]
#[verifier::external_body]
pub struct ExProp(automerge::Prop);

#[verifier::external_type_specification]
#[verifier::external_body]
pub struct ExScalarValue(automerge::ScalarValue);

#[verifier::external_type_specification]
#[verifier::external_body]
pub struct ExPatch(automerge::Patch);

#[verifier::external_type_specification]
#[verifier::external_body]
pub struct ExAutomergeError(automerge::AutomergeError);

#[verifier::external_type_specification]
#[verifier::external_body]
pub struct ExChange(automerge::Change);

#[verifier::external_type_specification]
#[verifier::external_body]
pub struct ExMark(automerge::marks::Mark);

#[verifier::external_type_specification]
#[verifier::external_body]
pub struct ExExpandMark(automerge::marks::ExpandMark);

#[verifier::external_type_specification]
#[verifier::external_body]
pub struct ExSyncState(automerge::sync::State);

#[verifier::external_type_specification]
#[verifier::external_body]
pub struct ExSyncMessage(automerge::sync::Message);

#[verifier::external_type_specification]
#[verifier::external_body]
pub struct ExReadMessageError(automerge::sync::ReadMessageError);

#[verifier::external_type_specification]
#[verifier::external_body]
pub struct ExPatchLogMismatch(automerge::PatchLogMismatch);

#[verifier::external_type_specification]
#[verifier::external_body]
pub struct ExValue<'a>(automerge::Value<'a>);

// ---- whole documents ----

/// Relies on `Automerge::new`: a fresh, empty document under a random actor id.
#[verifier::external_body]
pub(crate) fn new_document() -> (r: Automerge)
    ensures
        heads_of(r).len() == 0,
{
    Automerge::new()
}

/// Relies on `Automerge::with_actor` and `ActorId::from(&[u8])`: a fresh,
/// empty document whose changes are made under the actor id `actor`.
#[verifier::external_body]
pub(crate) fn new_document_with_actor(actor: &[u8]) -> (r: Automerge)
    ensures
        heads_of(r).len() == 0,
        actor_of(r) == actor@,
{
    Automerge::new().with_actor(automerge::ActorId::from(actor))
}

/// The heads of `d`, as `Automerge::get_heads` lists them.
pub uninterp spec fn heads_of(d: Automerge) -> Seq<ChangeHash>;

/// Relies on `Automerge::get_heads`: the document's current heads.
#[verifier::external_body]
pub(crate) fn document_heads(d: &Automerge) -> (r: Vec<ChangeHash>)
    ensures
        r@ == heads_of(*d),
{
    d.get_heads()
}

/// What `Automerge::save` writes for `d`.
pub uninterp spec fn saved_of(d: Automerge) -> Seq<u8>;

/// Relies on `Automerge::save`: the whole document in its binary form.
#[verifier::external_body]
pub(crate) fn save_document(d: &Automerge) -> (r: Vec<u8>)
    ensures
        r@ == saved_of(*d),
{
    d.save()
}

/// Why `Automerge::load` refuses `data`, if it does; this depends on the
/// bytes alone.
pub uninterp spec fn load_error_of(data: Seq<u8>) -> Option<AutomergeError>;

/// The heads of the document `Automerge::load` reads from `data`.
pub uninterp spec fn loaded_heads_of(data: Seq<u8>) -> Seq<ChangeHash>;

/// Relies on `Automerge::load`: a document read back from its binary form,
/// under a random actor id. Whether it fails, and the heads of what it
/// reads, depend on the bytes alone.
#[verifier::external_body]
pub(crate) fn load_document(data: &[u8]) -> (r: Result<Automerge, AutomergeError>)
    ensures
        r is Ok <==> load_error_of(data@) is None,
        r matches Err(e) ==> load_error_of(data@) == Some(e),
        r matches Ok(d) ==> heads_of(d) == loaded_heads_of(data@),
{
    Automerge::load(data)
}

/// Relies on `Automerge::fork`: a copy of the document under a new, random
/// actor id.
#[verifier::external_body]
pub(crate) fn fork_document(d: &Automerge) -> (r: Automerge)
    ensures
        heads_of(r) == heads_of(*d),
{
    d.fork()
}

/// Why `Automerge::fork_at` refuses `heads` on `d`, if it does.
pub uninterp spec fn fork_at_error_of(d: Automerge, heads: Seq<ChangeHash>) -> Option<AutomergeError>;

/// Relies on `Automerge::fork_at`: a copy of the document as of `heads`,
/// under a new, random actor id; whether it fails depends on `d` and
/// `heads` alone.
#[verifier::external_body]
pub(crate) fn fork_document_at(d: &Automerge, heads: &[ChangeHash]) -> (r: Result<Automerge, AutomergeError>)
    ensures
        r is Ok <==> fork_at_error_of(*d, heads@) is None,
        r matches Err(e) ==> fork_at_error_of(*d, heads@) == Some(e),
{
    d.fork_at(heads)
}

/// `d` after `Automerge::merge` applied the changes of `other` it lacked, and
/// what the call returned.
pub uninterp spec fn merged_of(d: Automerge, other: Automerge) -> (Automerge, Result<Vec<ChangeHash>, AutomergeError>);

/// Relies on `Automerge::merge`: applies the changes of `other` that `d`
/// lacks and returns `d`'s heads afterwards. `other` is only read
/// (`get_changes_added` takes it by shared reference).
#[verifier::external_body]
pub(crate) fn merge_documents(d: &mut Automerge, other: &mut Automerge) -> (r: Result<Vec<ChangeHash>, AutomergeError>)
    ensures
        (*final(d), r) == merged_of(*old(d), *old(other)),
        *final(other) == *old(other),
        r matches Ok(h) ==> h@ == heads_of(*final(d)),
{
    d.merge(other)
}

/// The bytes of `d`'s actor id.
pub uninterp spec fn actor_of(d: Automerge) -> Seq<u8>;

/// Relies on `Automerge::get_actor`: the bytes of the actor id that new
/// changes are made under.
#[verifier::external_body]
pub(crate) fn document_actor(d: &Automerge) -> (r: Vec<u8>)
    ensures
        r@ == actor_of(*d),
{
    d.get_actor().to_bytes().to_vec()
}

/// `d` after `Automerge::set_actor` with the actor id of bytes `actor`.
pub uninterp spec fn with_actor_id_of(d: Automerge, actor: Seq<u8>) -> Automerge;

/// Relies on `Automerge::set_actor` and `ActorId::from(&[u8])`: later
/// changes are made under the actor id `actor`.
#[verifier::external_body]
pub(crate) fn set_document_actor(d: &mut Automerge, actor: &[u8])
    ensures
        *final(d) == with_actor_id_of(*old(d), actor@),
        actor_of(*final(d)) == actor@,
        heads_of(*final(d)) == heads_of(*old(d)),
{
    d.set_actor(automerge::ActorId::from(actor));
}

/// What `Automerge::get_changes` returns for `have_deps`.
pub uninterp spec fn changes_of(d: Automerge, have_deps: Seq<ChangeHash>) -> Seq<Change>;

/// Relies on `Automerge::get_changes`: the changes not reachable from
/// `have_deps`.
#[verifier::external_body]
pub(crate) fn document_changes(d: &Automerge, have_deps: &[ChangeHash]) -> (r: Vec<Change>)
    ensures
        r@ == changes_of(*d, have_deps@),
{
    d.get_changes(have_deps)
}

/// What `Automerge::get_last_local_change` returns.
pub uninterp spec fn last_local_change_of(d: Automerge) -> Option<Change>;

/// Relies on `Automerge::get_last_local_change`: the latest change made
/// under the document's own actor, if any.
#[verifier::external_body]
pub(crate) fn last_local_change(d: &Automerge) -> (r: Option<Change>)
    ensures
        r == last_local_change_of(*d),
{
    d.get_last_local_change()
}

/// The patches `Automerge::diff` computes from `before` to `after`.
pub uninterp spec fn diff_of(d: Automerge, before: Seq<ChangeHash>, after: Seq<ChangeHash>) -> Seq<Patch>;

/// Relies on `Automerge::diff`: patches that lead from `before` to `after`.
#[verifier::external_body]
pub(crate) fn diff_document(d: &Automerge, before: &[ChangeHash], after: &[ChangeHash]) -> (r: Vec<Patch>)
    ensures
        r@ == diff_of(*d, before@, after@),
{
    d.diff(before, after)
}

/// Relies on `PartialEq` of `[ChangeHash]`, which compares the hashes one by
/// one: equal exactly when the two lists are the same.
#[verifier::external_body]
pub(crate) fn same_heads(a: &Vec<ChangeHash>, b: &Vec<ChangeHash>) -> (r: bool)
    ensures
        r == (a@ == b@),
{
    a == b
}

// ---- sync protocol ----

/// Relies on `sync::State::new`: the state of a peer never heard from.
#[verifier::external_body]
pub fn new_sync_state() -> (r: State)
{
    State::new()
}

/// Relies on `sync::Message::encode`: the message in its wire form.
#[verifier::external_body]
pub fn encode_message(m: Message) -> (r: Vec<u8>)
{
    m.encode()
}

/// Relies on `sync::Message::decode`: a message read back from its wire form.
#[verifier::external_body]
pub fn decode_message(data: &[u8]) -> (r: Result<Message, ReadMessageError>)
{
    Message::decode(data)
}

/// The peer state after `SyncDoc::generate_sync_message` on `d`, and the message.
pub uninterp spec fn generated_of(d: Automerge, state: State) -> (State, Option<Message>);

/// Relies on `SyncDoc::generate_sync_message` of `Automerge`: the next
/// message for the peer whose state is `state`, if it needs one.
#[verifier::external_body]
pub(crate) fn generate_sync(d: &Automerge, state: &mut State) -> (r: Option<Message>)
    ensures
        (*final(state), r) == generated_of(*d, *old(state)),
{
    d.generate_sync_message(state)
}

/// The document and peer state after `SyncDoc::receive_sync_message`, and
/// what the call returned.
pub uninterp spec fn received_of(d: Automerge, state: State, m: Message) -> (Automerge, State, Result<(), AutomergeError>);

/// Relies on `SyncDoc::receive_sync_message` of `Automerge`: applies a
/// message from the peer whose state is `state`.
#[verifier::external_body]
pub(crate) fn receive_sync(d: &mut Automerge, state: &mut State, m: Message) -> (r: Result<(), AutomergeError>)
    ensures
        (*final(d), *final(state), r) == received_of(*old(d), *old(state), m),
{
    d.receive_sync_message(state, m)
}

// ---- reads, on a document at rest ----

/// What `ReadDoc::get` of `Automerge` returns.
pub uninterp spec fn doc_get_of(d: Automerge, obj: ObjId, prop: Prop) -> Result<Option<(Value<'static>, ObjId)>, AutomergeError>;

/// Relies on `ReadDoc::get` of `Automerge`.
#[verifier::external_body]
pub(crate) fn doc_get(d: &Automerge, obj: &ObjId, prop: &Prop) -> (r: Result<Option<(Value<'static>, ObjId)>, AutomergeError>)
    ensures
        r == doc_get_of(*d, *obj, *prop),
{
    d.get(obj, prop.clone()).map(|o| o.map(|(v, id)| (v.into_owned(), id)))
}

/// What `ReadDoc::get_at` of `Automerge` returns.
pub uninterp spec fn doc_get_at_of(d: Automerge, obj: ObjId, prop: Prop, heads: Seq<ChangeHash>) -> Result<Option<(Value<'static>, ObjId)>, AutomergeError>;

/// Relies on `ReadDoc::get_at` of `Automerge`: as of `heads`.
#[verifier::external_body]
pub(crate) fn doc_get_at(d: &Automerge, obj: &ObjId, prop: &Prop, heads: &[ChangeHash]) -> (r: Result<Option<(Value<'static>, ObjId)>, AutomergeError>)
    ensures
        r == doc_get_at_of(*d, *obj, *prop, heads@),
{
    d.get_at(obj, prop.clone(), heads).map(|o| o.map(|(v, id)| (v.into_owned(), id)))
}

/// What `ReadDoc::keys` of `Automerge` returns.
pub uninterp spec fn doc_keys_of(d: Automerge, obj: ObjId) -> Seq<String>;

/// Relies on `ReadDoc::keys` of `Automerge`.
#[verifier::external_body]
pub(crate) fn doc_keys(d: &Automerge, obj: &ObjId) -> (r: Vec<String>)
    ensures
        r@ == doc_keys_of(*d, *obj),
{
    d.keys(obj).collect()
}

/// What `ReadDoc::keys_at` of `Automerge` returns.
pub uninterp spec fn doc_keys_at_of(d: Automerge, obj: ObjId, heads: Seq<ChangeHash>) -> Seq<String>;

/// Relies on `ReadDoc::keys_at` of `Automerge`: as of `heads`.
#[verifier::external_body]
pub(crate) fn doc_keys_at(d: &Automerge, obj: &ObjId, heads: &[ChangeHash]) -> (r: Vec<String>)
    ensures
        r@ == doc_keys_at_of(*d, *obj, heads@),
{
    d.keys_at(obj, heads).collect()
}

/// What `ReadDoc::values` of `Automerge` returns.
pub uninterp spec fn doc_values_of(d: Automerge, obj: ObjId) -> Seq<(Value<'static>, ObjId)>;

/// Relies on `ReadDoc::values` of `Automerge`.
#[verifier::external_body]
pub(crate) fn doc_values(d: &Automerge, obj: &ObjId) -> (r: Vec<(Value<'static>, ObjId)>)
    ensures
        r@ == doc_values_of(*d, *obj),
{
    d.values(obj).map(|(v, id)| (v.into_owned(), id)).collect()
}

/// What `ReadDoc::values_at` of `Automerge` returns.
pub uninterp spec fn doc_values_at_of(d: Automerge, obj: ObjId, heads: Seq<ChangeHash>) -> Seq<(Value<'static>, ObjId)>;

/// Relies on `ReadDoc::values_at` of `Automerge`: as of `heads`.
#[verifier::external_body]
pub(crate) fn doc_values_at(d: &Automerge, obj: &ObjId, heads: &[ChangeHash]) -> (r: Vec<(Value<'static>, ObjId)>)
    ensures
        r@ == doc_values_at_of(*d, *obj, heads@),
{
    d.values_at(obj, heads).map(|(v, id)| (v.into_owned(), id)).collect()
}

/// What `ReadDoc::marks` of `Automerge` returns.
pub uninterp spec fn doc_marks_of(d: Automerge, obj: ObjId) -> Result<Vec<Mark>, AutomergeError>;

/// Relies on `ReadDoc::marks` of `Automerge`.
#[verifier::external_body]
pub(crate) fn doc_marks(d: &Automerge, obj: &ObjId) -> (r: Result<Vec<Mark>, AutomergeError>)
    ensures
        r == doc_marks_of(*d, *obj),
{
    d.marks(obj)
}

/// What `ReadDoc::marks_at` of `Automerge` returns.
pub uninterp spec fn doc_marks_at_of(d: Automerge, obj: ObjId, heads: Seq<ChangeHash>) -> Result<Vec<Mark>, AutomergeError>;

/// Relies on `ReadDoc::marks_at` of `Automerge`: as of `heads`.
#[verifier::external_body]
pub(crate) fn doc_marks_at(d: &Automerge, obj: &ObjId, heads: &[ChangeHash]) -> (r: Result<Vec<Mark>, AutomergeError>)
    ensures
        r == doc_marks_at_of(*d, *obj, heads@),
{
    d.marks_at(obj, heads)
}

/// What `ReadDoc::length` of `Automerge` returns.
pub uninterp spec fn doc_length_of(d: Automerge, obj: ObjId) -> usize;

/// Relies on `ReadDoc::length` of `Automerge`.
#[verifier::external_body]
pub(crate) fn doc_length(d: &Automerge, obj: &ObjId) -> (r: usize)
    ensures
        r == doc_length_of(*d, *obj),
{
    d.length(obj)
}

/// What `ReadDoc::length_at` of `Automerge` returns.
pub uninterp spec fn doc_length_at_of(d: Automerge, obj: ObjId, heads: Seq<ChangeHash>) -> usize;

/// Relies on `ReadDoc::length_at` of `Automerge`: as of `heads`.
#[verifier::external_body]
pub(crate) fn doc_length_at(d: &Automerge, obj: &ObjId, heads: &[ChangeHash]) -> (r: usize)
    ensures
        r == doc_length_at_of(*d, *obj, heads@),
{
    d.length_at(obj, heads)
}

/// What `ReadDoc::text` of `Automerge` returns.
pub uninterp spec fn doc_text_of(d: Automerge, obj: ObjId) -> Result<String, AutomergeError>;

/// Relies on `ReadDoc::text` of `Automerge`.
#[verifier::external_body]
pub(crate) fn doc_text(d: &Automerge, obj: &ObjId) -> (r: Result<String, AutomergeError>)
    ensures
        r == doc_text_of(*d, *obj),
{
    d.text(obj)
}

/// What `ReadDoc::text_at` of `Automerge` returns.
pub uninterp spec fn doc_text_at_of(d: Automerge, obj: ObjId, heads: Seq<ChangeHash>) -> Result<String, AutomergeError>;

/// Relies on `ReadDoc::text_at` of `Automerge`: as of `heads`.
#[verifier::external_body]
pub(crate) fn doc_text_at(d: &Automerge, obj: &ObjId, heads: &[ChangeHash]) -> (r: Result<String, AutomergeError>)
    ensures
        r == doc_text_at_of(*d, *obj, heads@),
{
    d.text_at(obj, heads)
}

/// What `ReadDoc::object_type` of `Automerge` returns.
pub uninterp spec fn doc_object_type_of(d: Automerge, obj: ObjId) -> Result<ObjType, AutomergeError>;

/// Relies on `ReadDoc::object_type` of `Automerge`.
#[verifier::external_body]
pub(crate) fn doc_object_type(d: &Automerge, obj: &ObjId) -> (r: Result<ObjType, AutomergeError>)
    ensures
        r == doc_object_type_of(*d, *obj),
{
    d.object_type(obj)
}

// ---- transactions ----

/// The transaction `Automerge::into_transaction` opens on `d`.
pub uninterp spec fn opened_of(d: Automerge) -> OwnedTransaction;

/// The heads `OwnedTransaction::get_heads` gives: those of the document
/// before the transaction began.
pub uninterp spec fn tx_heads_of(t: OwnedTransaction) -> Seq<ChangeHash>;

/// Relies on `Automerge::into_transaction` with no patch log and no heads.
/// A fresh patch log has no actors yet, so `PatchLog::migrate_actors` takes
/// them over and the call cannot fail. The transaction keeps `d`, whose heads
/// it reports until it ends.
#[verifier::external_body]
pub(crate) fn open_transaction(d: Automerge) -> (r: Result<OwnedTransaction, automerge::PatchLogMismatch>)
    ensures
        r is Ok,
        r matches Ok(t) ==> t == opened_of(d) && tx_heads_of(t) == heads_of(d),
{
    d.into_transaction(None, None)
}

/// How many operations `t` holds that are not yet committed.
pub uninterp spec fn pending_of(t: OwnedTransaction) -> nat;

/// The document and hash `OwnedTransaction::commit` gives for `t`.
pub uninterp spec fn committed_of(t: OwnedTransaction) -> (Automerge, Option<ChangeHash>);

/// Relies on `OwnedTransaction::commit`: folds the pending operations into
/// the document as one change, which becomes the only head, and hands the
/// document back with its hash; with nothing pending, no change is made.
#[verifier::external_body]
pub(crate) fn commit_transaction(t: OwnedTransaction) -> (r: (Automerge, Option<ChangeHash>))
    ensures
        r == committed_of(t),
        r.1 is Some <==> pending_of(t) > 0,
        r.1 matches Some(h) ==> heads_of(r.0) == seq![h],
        r.1 is None ==> heads_of(r.0) == tx_heads_of(t),
{
    let (d, hash, _log) = t.commit();
    (d, hash)
}

/// The document `OwnedTransaction::rollback` hands back for `t`.
pub uninterp spec fn rolled_back_of(t: OwnedTransaction) -> Automerge;

/// Relies on `OwnedTransaction::rollback`: undoes the pending operations,
/// leaving the document's history, and so its heads, as they were, and
/// hands the document back with the number of operations discarded.
#[verifier::external_body]
pub(crate) fn rollback_transaction(t: OwnedTransaction) -> (r: (Automerge, usize))
    ensures
        r.0 == rolled_back_of(t),
        r.1 == pending_of(t),
        heads_of(r.0) == tx_heads_of(t),
{
    t.rollback()
}

// ---- reads, through an open transaction ----

/// What `ReadDoc::get` of `OwnedTransaction` returns.
pub uninterp spec fn tx_get_of(t: OwnedTransaction, obj: ObjId, prop: Prop) -> Result<Option<(Value<'static>, ObjId)>, AutomergeError>;

/// Relies on `ReadDoc::get` of `OwnedTransaction`.
#[verifier::external_body]
pub(crate) fn tx_get(t: &OwnedTransaction, obj: &ObjId, prop: &Prop) -> (r: Result<Option<(Value<'static>, ObjId)>, AutomergeError>)
    ensures
        r == tx_get_of(*t, *obj, *prop),
{
    t.get(obj, prop.clone()).map(|o| o.map(|(v, id)| (v.into_owned(), id)))
}

/// What `ReadDoc::get_at` of `OwnedTransaction` returns.
pub uninterp spec fn tx_get_at_of(t: OwnedTransaction, obj: ObjId, prop: Prop, heads: Seq<ChangeHash>) -> Result<Option<(Value<'static>, ObjId)>, AutomergeError>;

/// Relies on `ReadDoc::get_at` of `OwnedTransaction`: as of `heads`.
#[verifier::external_body]
pub(crate) fn tx_get_at(t: &OwnedTransaction, obj: &ObjId, prop: &Prop, heads: &[ChangeHash]) -> (r: Result<Option<(Value<'static>, ObjId)>, AutomergeError>)
    ensures
        r == tx_get_at_of(*t, *obj, *prop, heads@),
{
    t.get_at(obj, prop.clone(), heads).map(|o| o.map(|(v, id)| (v.into_owned(), id)))
}

/// What `ReadDoc::keys` of `OwnedTransaction` returns.
pub uninterp spec fn tx_keys_of(t: OwnedTransaction, obj: ObjId) -> Seq<String>;

/// Relies on `ReadDoc::keys` of `OwnedTransaction`.
#[verifier::external_body]
pub(crate) fn tx_keys(t: &OwnedTransaction, obj: &ObjId) -> (r: Vec<String>)
    ensures
        r@ == tx_keys_of(*t, *obj),
{
    t.keys(obj).collect()
}

/// What `ReadDoc::keys_at` of `OwnedTransaction` returns.
pub uninterp spec fn tx_keys_at_of(t: OwnedTransaction, obj: ObjId, heads: Seq<ChangeHash>) -> Seq<String>;

/// Relies on `ReadDoc::keys_at` of `OwnedTransaction`: as of `heads`.
#[verifier::external_body]
pub(crate) fn tx_keys_at(t: &OwnedTransaction, obj: &ObjId, heads: &[ChangeHash]) -> (r: Vec<String>)
    ensures
        r@ == tx_keys_at_of(*t, *obj, heads@),
{
    t.keys_at(obj, heads).collect()
}

/// What `ReadDoc::values` of `OwnedTransaction` returns.
pub uninterp spec fn tx_values_of(t: OwnedTransaction, obj: ObjId) -> Seq<(Value<'static>, ObjId)>;

/// Relies on `ReadDoc::values` of `OwnedTransaction`.
#[verifier::external_body]
pub(crate) fn tx_values(t: &OwnedTransaction, obj: &ObjId) -> (r: Vec<(Value<'static>, ObjId)>)
    ensures
        r@ == tx_values_of(*t, *obj),
{
    t.values(obj).map(|(v, id)| (v.into_owned(), id)).collect()
}

/// What `ReadDoc::values_at` of `OwnedTransaction` returns.
pub uninterp spec fn tx_values_at_of(t: OwnedTransaction, obj: ObjId, heads: Seq<ChangeHash>) -> Seq<(Value<'static>, ObjId)>;

/// Relies on `ReadDoc::values_at` of `OwnedTransaction`: as of `heads`.
#[verifier::external_body]
pub(crate) fn tx_values_at(t: &OwnedTransaction, obj: &ObjId, heads: &[ChangeHash]) -> (r: Vec<(Value<'static>, ObjId)>)
    ensures
        r@ == tx_values_at_of(*t, *obj, heads@),
{
    t.values_at(obj, heads).map(|(v, id)| (v.into_owned(), id)).collect()
}

/// What `ReadDoc::marks` of `OwnedTransaction` returns.
pub uninterp spec fn tx_marks_of(t: OwnedTransaction, obj: ObjId) -> Result<Vec<Mark>, AutomergeError>;

/// Relies on `ReadDoc::marks` of `OwnedTransaction`.
#[verifier::external_body]
pub(crate) fn tx_marks(t: &OwnedTransaction, obj: &ObjId) -> (r: Result<Vec<Mark>, AutomergeError>)
    ensures
        r == tx_marks_of(*t, *obj),
{
    t.marks(obj)
}

/// What `ReadDoc::marks_at` of `OwnedTransaction` returns.
pub uninterp spec fn tx_marks_at_of(t: OwnedTransaction, obj: ObjId, heads: Seq<ChangeHash>) -> Result<Vec<Mark>, AutomergeError>;

/// Relies on `ReadDoc::marks_at` of `OwnedTransaction`: as of `heads`.
#[verifier::external_body]
pub(crate) fn tx_marks_at(t: &OwnedTransaction, obj: &ObjId, heads: &[ChangeHash]) -> (r: Result<Vec<Mark>, AutomergeError>)
    ensures
        r == tx_marks_at_of(*t, *obj, heads@),
{
    t.marks_at(obj, heads)
}

/// What `ReadDoc::length` of `OwnedTransaction` returns.
pub uninterp spec fn tx_length_of(t: OwnedTransaction, obj: ObjId) -> usize;

/// Relies on `ReadDoc::length` of `OwnedTransaction`.
#[verifier::external_body]
pub(crate) fn tx_length(t: &OwnedTransaction, obj: &ObjId) -> (r: usize)
    ensures
        r == tx_length_of(*t, *obj),
{
    t.length(obj)
}

/// What `ReadDoc::length_at` of `OwnedTransaction` returns.
pub uninterp spec fn tx_length_at_of(t: OwnedTransaction, obj: ObjId, heads: Seq<ChangeHash>) -> usize;

/// Relies on `ReadDoc::length_at` of `OwnedTransaction`: as of `heads`.
#[verifier::external_body]
pub(crate) fn tx_length_at(t: &OwnedTransaction, obj: &ObjId, heads: &[ChangeHash]) -> (r: usize)
    ensures
        r == tx_length_at_of(*t, *obj, heads@),
{
    t.length_at(obj, heads)
}

/// What `ReadDoc::text` of `OwnedTransaction` returns.
pub uninterp spec fn tx_text_of(t: OwnedTransaction, obj: ObjId) -> Result<String, AutomergeError>;

/// Relies on `ReadDoc::text` of `OwnedTransaction`.
#[verifier::external_body]
pub(crate) fn tx_text(t: &OwnedTransaction, obj: &ObjId) -> (r: Result<String, AutomergeError>)
    ensures
        r == tx_text_of(*t, *obj),
{
    t.text(obj)
}

/// What `ReadDoc::text_at` of `OwnedTransaction` returns.
pub uninterp spec fn tx_text_at_of(t: OwnedTransaction, obj: ObjId, heads: Seq<ChangeHash>) -> Result<String, AutomergeError>;

/// Relies on `ReadDoc::text_at` of `OwnedTransaction`: as of `heads`.
#[verifier::external_body]
pub(crate) fn tx_text_at(t: &OwnedTransaction, obj: &ObjId, heads: &[ChangeHash]) -> (r: Result<String, AutomergeError>)
    ensures
        r == tx_text_at_of(*t, *obj, heads@),
{
    t.text_at(obj, heads)
}

/// What `ReadDoc::object_type` of `OwnedTransaction` returns.
pub uninterp spec fn tx_object_type_of(t: OwnedTransaction, obj: ObjId) -> Result<ObjType, AutomergeError>;

/// Relies on `ReadDoc::object_type` of `OwnedTransaction`.
#[verifier::external_body]
pub(crate) fn tx_object_type(t: &OwnedTransaction, obj: &ObjId) -> (r: Result<ObjType, AutomergeError>)
    ensures
        r == tx_object_type_of(*t, *obj),
{
    t.object_type(obj)
}

/// Relies on `OwnedTransaction::get_heads`: the heads the transaction
/// started from.
#[verifier::external_body]
pub(crate) fn tx_heads(t: &OwnedTransaction) -> (r: Vec<ChangeHash>)
    ensures
        r@ == tx_heads_of(*t),
{
    t.get_heads()
}

// ---- writes, through an open transaction ----

/// The transaction after `Transactable::put`, and what the call returned.
pub uninterp spec fn tx_put_of(t: OwnedTransaction, obj: ObjId, prop: Prop, v: ScalarValue) -> (OwnedTransaction, Result<(), AutomergeError>);

/// Relies on `Transactable::put` of `OwnedTransaction`. Operations stay
/// pending until the transaction ends, so the heads it reports do not move.
#[verifier::external_body]
pub(crate) fn tx_put(t: &mut OwnedTransaction, obj: &ObjId, prop: Prop, v: ScalarValue) -> (r: Result<(), AutomergeError>)
    ensures
        (*final(t), r) == tx_put_of(*old(t), *obj, prop, v),
        tx_heads_of(*final(t)) == tx_heads_of(*old(t)),
{
    t.put(obj, prop, v)
}

/// The transaction after `Transactable::put_object`, and what the call returned.
pub uninterp spec fn tx_put_object_of(t: OwnedTransaction, obj: ObjId, prop: Prop, kind: ObjType) -> (OwnedTransaction, Result<ObjId, AutomergeError>);

/// Relies on `Transactable::put_object` of `OwnedTransaction`. Operations stay
/// pending until the transaction ends, so the heads it reports do not move.
#[verifier::external_body]
pub(crate) fn tx_put_object(t: &mut OwnedTransaction, obj: &ObjId, prop: Prop, kind: ObjType) -> (r: Result<ObjId, AutomergeError>)
    ensures
        (*final(t), r) == tx_put_object_of(*old(t), *obj, prop, kind),
        tx_heads_of(*final(t)) == tx_heads_of(*old(t)),
{
    t.put_object(obj, prop, kind)
}

/// The transaction after `Transactable::insert`, and what the call returned.
pub uninterp spec fn tx_insert_of(t: OwnedTransaction, obj: ObjId, index: usize, v: ScalarValue) -> (OwnedTransaction, Result<(), AutomergeError>);

/// Relies on `Transactable::insert` of `OwnedTransaction`. Operations stay
/// pending until the transaction ends, so the heads it reports do not move.
#[verifier::external_body]
pub(crate) fn tx_insert(t: &mut OwnedTransaction, obj: &ObjId, index: usize, v: ScalarValue) -> (r: Result<(), AutomergeError>)
    ensures
        (*final(t), r) == tx_insert_of(*old(t), *obj, index, v),
        tx_heads_of(*final(t)) == tx_heads_of(*old(t)),
{
    t.insert(obj, index, v)
}

/// The transaction after `Transactable::insert_object`, and what the call returned.
pub uninterp spec fn tx_insert_object_of(t: OwnedTransaction, obj: ObjId, index: usize, kind: ObjType) -> (OwnedTransaction, Result<ObjId, AutomergeError>);

/// Relies on `Transactable::insert_object` of `OwnedTransaction`. Operations stay
/// pending until the transaction ends, so the heads it reports do not move.
#[verifier::external_body]
pub(crate) fn tx_insert_object(t: &mut OwnedTransaction, obj: &ObjId, index: usize, kind: ObjType) -> (r: Result<ObjId, AutomergeError>)
    ensures
        (*final(t), r) == tx_insert_object_of(*old(t), *obj, index, kind),
        tx_heads_of(*final(t)) == tx_heads_of(*old(t)),
{
    t.insert_object(obj, index, kind)
}

/// The transaction after `Transactable::increment`, and what the call returned.
pub uninterp spec fn tx_increment_of(t: OwnedTransaction, obj: ObjId, prop: Prop, by: i64) -> (OwnedTransaction, Result<(), AutomergeError>);

/// Relies on `Transactable::increment` of `OwnedTransaction`. Operations stay
/// pending until the transaction ends, so the heads it reports do not move.
#[verifier::external_body]
pub(crate) fn tx_increment(t: &mut OwnedTransaction, obj: &ObjId, prop: Prop, by: i64) -> (r: Result<(), AutomergeError>)
    ensures
        (*final(t), r) == tx_increment_of(*old(t), *obj, prop, by),
        tx_heads_of(*final(t)) == tx_heads_of(*old(t)),
{
    t.increment(obj, prop, by)
}

/// The transaction after `Transactable::delete`, and what the call returned.
pub uninterp spec fn tx_delete_of(t: OwnedTransaction, obj: ObjId, prop: Prop) -> (OwnedTransaction, Result<(), AutomergeError>);

/// Relies on `Transactable::delete` of `OwnedTransaction`. Operations stay
/// pending until the transaction ends, so the heads it reports do not move.
#[verifier::external_body]
pub(crate) fn tx_delete(t: &mut OwnedTransaction, obj: &ObjId, prop: Prop) -> (r: Result<(), AutomergeError>)
    ensures
        (*final(t), r) == tx_delete_of(*old(t), *obj, prop),
        tx_heads_of(*final(t)) == tx_heads_of(*old(t)),
{
    t.delete(obj, prop)
}

/// The transaction after `Transactable::splice_text`, and what the call returned.
pub uninterp spec fn tx_splice_text_of(t: OwnedTransaction, obj: ObjId, pos: usize, del: isize, text: Seq<char>) -> (OwnedTransaction, Result<(), AutomergeError>);

/// Relies on `Transactable::splice_text` of `OwnedTransaction`, which takes
/// the absolute value of `del` (so `del` must not be `isize::MIN`). Operations stay
/// pending until the transaction ends, so the heads it reports do not move.
#[verifier::external_body]
pub(crate) fn tx_splice_text(t: &mut OwnedTransaction, obj: &ObjId, pos: usize, del: isize, text: &str) -> (r: Result<(), AutomergeError>)
    requires
        del != isize::MIN,
    ensures
        (*final(t), r) == tx_splice_text_of(*old(t), *obj, pos, del, text@),
        tx_heads_of(*final(t)) == tx_heads_of(*old(t)),
{
    t.splice_text(obj, pos, del, text)
}

/// The transaction after `Transactable::mark`, and what the call returned.
pub uninterp spec fn tx_mark_of(t: OwnedTransaction, obj: ObjId, mark: Mark, expand: ExpandMark) -> (OwnedTransaction, Result<(), AutomergeError>);

/// Relies on `Transactable::mark` of `OwnedTransaction`. Operations stay
/// pending until the transaction ends, so the heads it reports do not move.
#[verifier::external_body]
pub(crate) fn tx_mark(t: &mut OwnedTransaction, obj: &ObjId, mark: Mark, expand: ExpandMark) -> (r: Result<(), AutomergeError>)
    ensures
        (*final(t), r) == tx_mark_of(*old(t), *obj, mark, expand),
        tx_heads_of(*final(t)) == tx_heads_of(*old(t)),
{
    t.mark(obj, mark, expand)
}

/// The transaction after `Transactable::unmark`, and what the call returned.
pub uninterp spec fn tx_unmark_of(t: OwnedTransaction, obj: ObjId, name: Seq<char>, start: usize, end: usize, expand: ExpandMark) -> (OwnedTransaction, Result<(), AutomergeError>);

/// Relies on `Transactable::unmark` of `OwnedTransaction`. Operations stay
/// pending until the transaction ends, so the heads it reports do not move.
#[verifier::external_body]
pub(crate) fn tx_unmark(t: &mut OwnedTransaction, obj: &ObjId, name: &str, start: usize, end: usize, expand: ExpandMark) -> (r: Result<(), AutomergeError>)
    ensures
        (*final(t), r) == tx_unmark_of(*old(t), *obj, name@, start, end, expand),
        tx_heads_of(*final(t)) == tx_heads_of(*old(t)),
{
    t.unmark(obj, name, start, end, expand)
}

} // verus!
