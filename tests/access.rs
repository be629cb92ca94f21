use automerge::marks::{ExpandMark, Mark};
use automerge::{ObjType, Prop, ScalarValue, ROOT};
use doc_access::engine::{decode_message, encode_message, new_sync_state};
use doc_access::bridge::{check_not_nested, finish_callback, lend, route_actor_access, ActorRoute};
use doc_access::error::AccessError;
use doc_access::guard::AccessGuard;
use doc_access::view::{Reach, ReadView};
use doc_access::registry::ReentrancyRegistry;

fn key(k: &str) -> Prop {
    Prop::Map(k.to_string())
}

fn here(g: &AccessGuard) -> ReadView<'_> {
    match g.read_view() {
        Ok(Reach::Here(v)) => v,
        _ => panic!("expected a view held here"),
    }
}

fn get_int(g: &AccessGuard, k: &str) -> Option<i64> {
    here(g)
        .get(&ROOT, &key(k), None)
        .unwrap()
        .and_then(|(v, _)| v.to_i64())
}

fn put_int(g: &mut AccessGuard, k: &str, n: i64) {
    let t_g = g.transaction().unwrap();
    g.put(t_g, &ROOT, key(k), ScalarValue::Int(n)).unwrap();
    g.commit(t_g).unwrap();
}

#[test]
fn commit_keeps_and_rollback_discards() {
    let mut g = AccessGuard::new();
    let t_g = g.transaction().unwrap();
    g.put(t_g, &ROOT, key("x"), ScalarValue::Int(1)).unwrap();
    g.commit(t_g).unwrap();
    assert_eq!(get_int(&g, "x"), Some(1));

    let t_g = g.transaction().unwrap();
    g.put(t_g, &ROOT, key("x"), ScalarValue::Int(2)).unwrap();
    g.rollback(t_g).unwrap();
    assert_eq!(get_int(&g, "x"), Some(1));
}

#[test]
fn reads_through_open_transaction_see_pending_writes() {
    let mut g = AccessGuard::new();
    let t_g = g.transaction().unwrap();
    g.put(t_g, &ROOT, key("y"), ScalarValue::Int(7)).unwrap();
    assert!(matches!(here(&g), ReadView::Transaction(_)));
    assert_eq!(get_int(&g, "y"), Some(7));
    g.rollback(t_g).unwrap();
    assert_eq!(get_int(&g, "y"), None);
}

#[test]
fn owned_reads_do_not_depend_on_order() {
    let mut g = AccessGuard::new();
    put_int(&mut g, "a", 1);
    put_int(&mut g, "b", 2);
    let a1 = get_int(&g, "a");
    let b1 = get_int(&g, "b");
    let keys1 = here(&g).keys(&ROOT, None);
    let b2 = get_int(&g, "b");
    let keys2 = here(&g).keys(&ROOT, None);
    let a2 = get_int(&g, "a");
    assert_eq!((a1, b1), (a2, b2));
    assert_eq!((a1, b1), (Some(1), Some(2)));
    assert_eq!(keys1, keys2);
    assert_eq!(keys1, vec!["a".to_string(), "b".to_string()]);
    assert_eq!(here(&g).length(&ROOT, None), 2);
}

#[test]
fn second_transaction_is_refused_and_changes_nothing() {
    let mut g = AccessGuard::new();
    put_int(&mut g, "x", 1);
    let t_g = g.transaction().unwrap();
    g.put(t_g, &ROOT, key("x"), ScalarValue::Int(5)).unwrap();
    assert!(matches!(g.transaction(), Err(AccessError::AlreadyActive)));
    assert!(matches!(g.transaction(), Err(AccessError::AlreadyActive)));
    assert_eq!(get_int(&g, "x"), Some(5));
    g.commit(t_g).unwrap();
    assert_eq!(get_int(&g, "x"), Some(5));
}

#[test]
fn document_access_is_refused_while_transaction_is_open() {
    let mut g = AccessGuard::new();
    let t_g = g.transaction().unwrap();
    assert!(matches!(g.doc_view(), Err(AccessError::ActiveTransaction)));
    assert!(matches!(g.write_mut(), Err(AccessError::ActiveTransaction)));
    g.commit(t_g).unwrap();
    assert!(g.doc_view().is_ok());
}

#[test]
fn transaction_operations_need_an_open_transaction() {
    let mut g = AccessGuard::new();
    assert!(matches!(
        g.put(0, &ROOT, key("x"), ScalarValue::Int(1)),
        Err(AccessError::TransactionInactive)
    ));
    assert!(matches!(g.commit(0), Err(AccessError::TransactionInactive)));
    assert!(matches!(g.rollback(0), Err(AccessError::TransactionInactive)));
    assert!(g.exit(0, false).is_ok());
}

#[test]
fn exit_commits_on_normal_end_and_rolls_back_on_failure() {
    let mut g = AccessGuard::new();
    let first = g.transaction().unwrap();
    g.put(first, &ROOT, key("k"), ScalarValue::Int(3)).unwrap();
    g.exit(first, false).unwrap();
    assert_eq!(get_int(&g, "k"), Some(3));
    let committed_heads = here(&g).get_heads();

    let second = g.transaction().unwrap();
    assert_ne!(first, second);
    g.put(second, &ROOT, key("k"), ScalarValue::Int(4)).unwrap();
    g.exit(second, true).unwrap();
    assert_eq!(get_int(&g, "k"), Some(3));
    assert_eq!(here(&g).get_heads(), committed_heads);

    // a second exit finds nothing left to end
    g.exit(second, true).unwrap();
    assert_eq!(get_int(&g, "k"), Some(3));
}

#[test]
fn objects_text_and_counters_go_through_the_transaction() {
    let mut g = AccessGuard::new();
    let t_g = g.transaction().unwrap();
    let list = g.put_object(t_g, &ROOT, key("list"), ObjType::List).unwrap();
    g.insert(t_g, &list, 0, ScalarValue::Int(10)).unwrap();
    let inner = g.insert_object(t_g, &list, 1, ObjType::Map).unwrap();
    let text = g.put_object(t_g, &ROOT, key("text"), ObjType::Text).unwrap();
    g.splice_text(t_g, &text, 0, 0, "hello").unwrap();
    g.put(t_g, &ROOT, key("n"), ScalarValue::counter(1)).unwrap();
    g.increment(t_g, &ROOT, key("n"), 4).unwrap();
    g.put(t_g, &ROOT, key("gone"), ScalarValue::Int(0)).unwrap();
    g.delete(t_g, &ROOT, key("gone")).unwrap();
    g.commit(t_g).unwrap();

    let v = here(&g);
    assert_eq!(v.length(&list, None), 2);
    assert_eq!(v.text(&text, None).unwrap(), "hello");
    assert_eq!(v.object_type(&inner).unwrap(), ObjType::Map);
    assert_eq!(v.object_type(&text).unwrap(), ObjType::Text);
    let (n, _) = v.get(&ROOT, &key("n"), None).unwrap().unwrap();
    assert_eq!(n.to_scalar(), Some(&ScalarValue::counter(5)));
    assert!(v.get(&ROOT, &key("gone"), None).unwrap().is_none());
}

#[test]
fn engine_failures_pass_through() {
    let mut g = AccessGuard::new();
    let t_g = g.transaction().unwrap();
    let r = g.insert(t_g, &ROOT, 0, ScalarValue::Int(1));
    assert!(matches!(r, Err(AccessError::Engine(_))));
    g.rollback(t_g).unwrap();
    let unknown = automerge::ChangeHash([7; 32]);
    let forked = match g.doc_view().unwrap() {
        Reach::Here(d) => d.fork_at(&[unknown]),
        Reach::Actor(_) => unreachable!(),
    };
    assert!(matches!(forked, Err(AccessError::Engine(_))));
    assert!(matches!(AccessGuard::load(&[1, 2, 3]), Err(AccessError::Engine(_))));
}

#[test]
fn save_then_load_keeps_heads() {
    let mut g = AccessGuard::new();
    put_int(&mut g, "x", 1);
    put_int(&mut g, "y", 2);
    let heads = here(&g).get_heads();
    assert_eq!(heads.len(), 1);
    let bytes = match g.doc_view().unwrap() {
        Reach::Here(d) => d.save(),
        Reach::Actor(_) => unreachable!(),
    };
    let loaded = AccessGuard::load(&bytes).unwrap();
    assert_eq!(here(&loaded).get_heads(), heads);
    assert_eq!(get_int(&loaded, "y"), Some(2));
}

#[test]
fn fork_and_merge_exchange_changes() {
    let mut a = AccessGuard::new();
    put_int(&mut a, "x", 1);
    let mut b = match a.doc_view().unwrap() {
        Reach::Here(d) => d.fork(),
        Reach::Actor(_) => unreachable!(),
    };
    put_int(&mut b, "y", 2);
    let heads = a.merge(&mut b).unwrap();
    assert_eq!(heads.len(), 1);
    assert_eq!(get_int(&a, "y"), Some(2));
    assert_eq!(here(&a).get_heads(), here(&b).get_heads());
}

#[test]
fn fork_at_and_diff_look_at_history() {
    let mut g = AccessGuard::new();
    put_int(&mut g, "x", 1);
    let first = here(&g).get_heads();
    put_int(&mut g, "x", 2);
    let second = here(&g).get_heads();
    let (old, patches) = match g.doc_view().unwrap() {
        Reach::Here(d) => (d.fork_at(&first).unwrap(), d.diff(&first, &second)),
        Reach::Actor(_) => unreachable!(),
    };
    assert_eq!(get_int(&old, "x"), Some(1));
    assert_eq!(patches.len(), 1);
}

#[test]
fn merge_needs_two_writable_documents() {
    let mut a = AccessGuard::new();
    let mut actor = AccessGuard::new_from_actor(9);
    assert!(matches!(a.merge(&mut actor), Err(AccessError::ReadOnlyActor)));
    assert!(matches!(actor.merge(&mut a), Err(AccessError::ReadOnlyActor)));
    let _ = a.transaction().unwrap();
    let mut b = AccessGuard::new();
    assert!(matches!(a.merge(&mut b), Err(AccessError::ActiveTransaction)));
    assert!(matches!(b.merge(&mut a), Err(AccessError::ActiveTransaction)));
}

#[test]
fn actor_documents_are_read_only() {
    let mut g = AccessGuard::new_from_actor(42);
    assert!(matches!(g.write_mut(), Err(AccessError::ReadOnlyActor)));
    assert!(matches!(g.transaction(), Err(AccessError::ReadOnlyActor)));
    assert!(matches!(g.read_view(), Ok(Reach::Actor(42))));
    assert!(matches!(g.doc_view(), Ok(Reach::Actor(42))));
    g.invalidate();
    assert!(matches!(g.read_view(), Ok(Reach::Actor(42))));
}

#[test]
fn invalidated_borrow_fails_on_every_access() {
    let mut g = AccessGuard::new_borrowed(automerge::Automerge::new());
    let t_g = g.transaction().unwrap();
    g.invalidate();
    g.invalidate();
    for _ in 0..3 {
        assert!(matches!(g.read_view(), Err(AccessError::Invalidated)));
        assert!(matches!(g.doc_view(), Err(AccessError::Invalidated)));
        assert!(matches!(g.write_mut(), Err(AccessError::Invalidated)));
        assert!(matches!(g.transaction(), Err(AccessError::Invalidated)));
        assert!(matches!(
            g.put(t_g, &ROOT, key("x"), ScalarValue::Int(1)),
            Err(AccessError::Invalidated)
        ));
        assert!(matches!(g.commit(t_g), Err(AccessError::Invalidated)));
        assert!(matches!(g.exit(1, false), Err(AccessError::Invalidated)));
    }
}

#[test]
fn registry_entries_are_keyed_by_lock() {
    let mut reg: ReentrancyRegistry<u32> = ReentrancyRegistry::new();
    assert!(reg.lookup(1).is_none());
    reg.enter(1, 10);
    reg.enter(2, 20);
    reg.enter(1, 11);
    assert_eq!(reg.lookup(1), Some(&11));
    assert_eq!(reg.lookup(2), Some(&20));
    assert_eq!(reg.leave(1), Some(11));
    assert!(!reg.is_entered(1));
    assert!(reg.is_entered(2));
    assert_eq!(reg.leave(1), None);
}

#[test]
fn same_actor_reentry_is_refused() {
    let mut reg: ReentrancyRegistry<usize> = ReentrancyRegistry::new();
    assert!(check_not_nested(&reg, 7).is_ok());
    let (mut lent, before) = lend(check_not_nested(&reg, 7).unwrap(), automerge::Automerge::new());
    reg.enter(7, 0);
    assert!(matches!(
        check_not_nested(&reg, 7),
        Err(AccessError::NestedChangeNotSupported)
    ));
    let (doc, res) = finish_callback::<usize, (), ()>(&mut reg, 7, &mut lent, before, Ok(()));
    assert!(doc.is_some());
    assert!(res.is_ok());
    assert!(check_not_nested(&reg, 7).is_ok());
}

#[test]
fn callbacks_for_different_actors_nest_with_their_own_diffs() {
    let mut reg: ReentrancyRegistry<usize> = ReentrancyRegistry::new();

    let (mut outer, outer_before) = lend(check_not_nested(&reg, 1).unwrap(), automerge::Automerge::new());
    reg.enter(1, 100);
    let t_outer = outer.transaction().unwrap();
    outer.put(t_outer, &ROOT, key("outer"), ScalarValue::Int(1)).unwrap();
    outer.commit(t_outer).unwrap();

    assert!(check_not_nested(&reg, 2).is_ok());
    let (mut inner, inner_before) = lend(check_not_nested(&reg, 2).unwrap(), automerge::Automerge::new());
    reg.enter(2, 200);
    assert_eq!(reg.lookup(1), Some(&100));
    let t_inner = inner.transaction().unwrap();
    inner.put(t_inner, &ROOT, key("inner"), ScalarValue::Int(2)).unwrap();
    inner.put(t_inner, &ROOT, key("more"), ScalarValue::Int(3)).unwrap();
    inner.commit(t_inner).unwrap();
    let (inner_doc, inner_res) =
        finish_callback::<usize, u8, ()>(&mut reg, 2, &mut inner, inner_before, Ok(2));
    assert!(inner_doc.is_some());
    let inner_res = inner_res.unwrap();
    assert_eq!(inner_res.value, 2);
    assert_eq!(inner_res.patches.len(), 2);
    assert_eq!(reg.lookup(1), Some(&100));
    assert!(!reg.is_entered(2));

    let (outer_doc, outer_res) =
        finish_callback::<usize, u8, ()>(&mut reg, 1, &mut outer, outer_before, Ok(1));
    let outer_res = outer_res.unwrap();
    assert_eq!(outer_res.value, 1);
    assert_eq!(outer_res.patches.len(), 1);
    assert_ne!(outer_res.heads_before, outer_res.heads_after);
    assert!(outer_doc.is_some());
    assert!(!reg.is_entered(1));
}

#[test]
fn failing_callback_reports_failure_and_cleans_up() {
    let mut reg: ReentrancyRegistry<usize> = ReentrancyRegistry::new();
    let (mut lent, before) = lend(check_not_nested(&reg, 5).unwrap(), automerge::Automerge::new());
    reg.enter(5, 0);
    let t_lent = lent.transaction().unwrap();
    lent.put(t_lent, &ROOT, key("x"), ScalarValue::Int(1)).unwrap();
    let (doc, res) =
        finish_callback::<usize, (), String>(&mut reg, 5, &mut lent, before, Err("boom".to_string()));
    assert!(matches!(res, Err(ref e) if e == "boom"));
    assert!(matches!(lent.read_view(), Err(AccessError::Invalidated)));
    // the open transaction was rolled back when the document came back
    let doc = AccessGuard::from_document(doc.unwrap());
    assert_eq!(get_int(&doc, "x"), None);
    assert!(check_not_nested(&reg, 5).is_ok());

    let (mut again, before) = lend(check_not_nested(&reg, 5).unwrap(), automerge::Automerge::new());
    reg.enter(5, 1);
    let (_, res) = finish_callback::<usize, u8, String>(&mut reg, 5, &mut again, before, Ok(9));
    assert_eq!(res.unwrap().value, 9);
}

#[test]
fn unchanged_heads_give_no_patches() {
    let mut reg: ReentrancyRegistry<usize> = ReentrancyRegistry::new();
    let mut seed = AccessGuard::new();
    put_int(&mut seed, "x", 1);
    let doc = match seed.write_mut() {
        Ok(d) => std::mem::take(d),
        Err(_) => unreachable!(),
    };
    let (mut lent, before) = lend(check_not_nested(&reg, 3).unwrap(), doc);
    assert_eq!(before.len(), 1);
    reg.enter(3, 0);
    assert_eq!(get_int(&lent, "x"), Some(1));
    let (_, res) = finish_callback::<usize, (), ()>(&mut reg, 3, &mut lent, before, Ok(()));
    let res = res.unwrap();
    assert!(res.patches.is_empty());
    assert_eq!(res.heads_before, res.heads_after);
}

#[test]
fn values_and_marks_are_read_through_the_view() {
    let mut g = AccessGuard::new();
    let t_g = g.transaction().unwrap();
    let list = g.put_object(t_g, &ROOT, key("l"), ObjType::List).unwrap();
    g.insert(t_g, &list, 0, ScalarValue::Int(1)).unwrap();
    g.insert(t_g, &list, 1, ScalarValue::Int(2)).unwrap();
    let text = g.put_object(t_g, &ROOT, key("t"), ObjType::Text).unwrap();
    g.splice_text(t_g, &text, 0, 0, "hello world").unwrap();
    g.mark(t_g, &text, Mark::new("bold".to_string(), true, 0, 5), ExpandMark::Both)
        .unwrap();
    assert_eq!(here(&g).marks(&text, None).unwrap().len(), 1);
    g.commit(t_g).unwrap();

    let vals: Vec<i64> = here(&g)
        .values(&list, None)
        .into_iter()
        .filter_map(|(v, _)| v.to_i64())
        .collect();
    assert_eq!(vals, vec![1, 2]);
    let marks = here(&g).marks(&text, None).unwrap();
    assert_eq!(marks.len(), 1);
    assert_eq!(marks[0].name(), "bold");
    assert_eq!((marks[0].start, marks[0].end), (0, 5));

    let t_g = g.transaction().unwrap();
    g.unmark(t_g, &text, "bold", 0, 5, ExpandMark::Both).unwrap();
    g.commit(t_g).unwrap();
    assert!(here(&g).marks(&text, None).unwrap().is_empty());
}

#[test]
fn sync_messages_bring_two_documents_together() {
    let mut a = AccessGuard::new();
    put_int(&mut a, "x", 1);
    let mut b = AccessGuard::new();
    let mut a_state = new_sync_state();
    let mut b_state = new_sync_state();
    for _ in 0..10 {
        let to_b = match a.doc_view().unwrap() {
            Reach::Here(d) => d.generate_sync_message(&mut a_state),
            Reach::Actor(_) => unreachable!(),
        };
        if let Some(m) = to_b {
            let wire = encode_message(m);
            let m = decode_message(&wire).unwrap();
            b.receive_sync_message(&mut b_state, m).unwrap();
        }
        let to_a = match b.doc_view().unwrap() {
            Reach::Here(d) => d.generate_sync_message(&mut b_state),
            Reach::Actor(_) => unreachable!(),
        };
        if let Some(m) = to_a {
            a.receive_sync_message(&mut a_state, m).unwrap();
        }
    }
    assert_eq!(get_int(&b, "x"), Some(1));
    assert_eq!(here(&a).get_heads(), here(&b).get_heads());
    assert!(decode_message(&[0xff, 0x00]).is_err());
}

#[test]
fn sync_messages_are_refused_where_writes_are() {
    let mut a = AccessGuard::new();
    put_int(&mut a, "x", 1);
    let mut st = new_sync_state();
    let m = match a.doc_view().unwrap() {
        Reach::Here(d) => d.generate_sync_message(&mut st).unwrap(),
        Reach::Actor(_) => unreachable!(),
    };
    let wire = encode_message(m);
    let mut actor = AccessGuard::new_from_actor(1);
    let mut st2 = new_sync_state();
    let r = actor.receive_sync_message(&mut st2, decode_message(&wire).unwrap());
    assert!(matches!(r, Err(AccessError::ReadOnlyActor)));
    let mut busy = AccessGuard::new();
    let _ = busy.transaction().unwrap();
    let r = busy.receive_sync_message(&mut st2, decode_message(&wire).unwrap());
    assert!(matches!(r, Err(AccessError::ActiveTransaction)));
}

#[test]
fn reads_as_of_earlier_heads() {
    let mut g = AccessGuard::new();
    put_int(&mut g, "x", 1);
    let first = here(&g).get_heads();
    put_int(&mut g, "x", 2);
    put_int(&mut g, "y", 3);
    let v = here(&g);
    let (old, _) = v.get(&ROOT, &key("x"), Some(&first)).unwrap().unwrap();
    assert_eq!(old.to_i64(), Some(1));
    assert_eq!(v.keys(&ROOT, Some(&first)), vec!["x".to_string()]);
    assert_eq!(v.length(&ROOT, Some(&first)), 1);
    assert_eq!(v.length(&ROOT, None), 2);
    assert_eq!(v.values(&ROOT, Some(&first)).len(), 1);
    // through an open transaction too
    let t_g = g.transaction().unwrap();
    g.put(t_g, &ROOT, key("x"), ScalarValue::Int(9)).unwrap();
    let v = here(&g);
    let (now, _) = v.get(&ROOT, &key("x"), None).unwrap().unwrap();
    let (then, _) = v.get(&ROOT, &key("x"), Some(&first)).unwrap().unwrap();
    assert_eq!((now.to_i64(), then.to_i64()), (Some(9), Some(1)));
    assert_eq!(v.keys(&ROOT, Some(&first)), vec!["x".to_string()]);
    g.rollback(t_g).unwrap();
}

#[test]
fn actor_access_takes_the_fast_path_only_inside_its_own_callback() {
    let mut reg: ReentrancyRegistry<&str> = ReentrancyRegistry::new();
    assert!(matches!(route_actor_access(&reg, 1), ActorRoute::Lock));
    reg.enter(1, "lent to the callback for actor one");
    assert!(matches!(
        route_actor_access(&reg, 1),
        ActorRoute::Reentrant(&"lent to the callback for actor one")
    ));
    assert!(matches!(route_actor_access(&reg, 2), ActorRoute::Lock));
    reg.leave(1);
    assert!(matches!(route_actor_access(&reg, 1), ActorRoute::Lock));
}

#[test]
fn changes_and_actor_are_read_from_the_document() {
    let mut g = AccessGuard::new();
    let none_yet = match g.doc_view().unwrap() {
        Reach::Here(d) => d.get_last_local_change(),
        Reach::Actor(_) => unreachable!(),
    };
    assert!(none_yet.is_none());
    put_int(&mut g, "x", 1);
    put_int(&mut g, "x", 2);
    let heads = here(&g).get_heads();
    let (changes, last, actor, forked) = match g.doc_view().unwrap() {
        Reach::Here(d) => (
            d.get_changes(&[]),
            d.get_last_local_change(),
            d.get_actor(),
            d.fork(),
        ),
        Reach::Actor(_) => unreachable!(),
    };
    assert_eq!(changes.len(), 2);
    assert_eq!(last.unwrap().hash(), heads[0]);
    assert!(!actor.is_empty());
    let forked_actor = match forked.doc_view().unwrap() {
        Reach::Here(d) => d.get_actor(),
        Reach::Actor(_) => unreachable!(),
    };
    assert_ne!(actor, forked_actor);
    let later = match g.doc_view().unwrap() {
        Reach::Here(d) => d.get_changes(&heads),
        Reach::Actor(_) => unreachable!(),
    };
    assert!(later.is_empty());
}

#[test]
fn a_new_document_can_name_its_actor() {
    let g = AccessGuard::with_actor(&[1, 2, 3, 4]);
    let actor = match g.doc_view().unwrap() {
        Reach::Here(d) => d.get_actor(),
        Reach::Actor(_) => unreachable!(),
    };
    assert_eq!(actor, vec![1, 2, 3, 4]);
}

#[test]
fn a_stale_exit_does_not_end_a_newer_transaction() {
    let mut g = AccessGuard::new();
    let old = g.transaction().unwrap();
    g.put(old, &ROOT, key("x"), ScalarValue::Int(1)).unwrap();
    g.exit(old, false).unwrap();
    let newer = g.transaction().unwrap();
    g.put(newer, &ROOT, key("x"), ScalarValue::Int(2)).unwrap();
    // the first scope ends again, by failure: the newer transaction stays open
    g.exit(old, true).unwrap();
    // an operation or an end through the stale scope is refused
    assert!(matches!(
        g.put(old, &ROOT, key("x"), ScalarValue::Int(9)),
        Err(AccessError::TransactionInactive)
    ));
    assert!(matches!(g.commit(old), Err(AccessError::TransactionInactive)));
    assert!(matches!(g.rollback(old), Err(AccessError::TransactionInactive)));
    assert!(matches!(here(&g), ReadView::Transaction(_)));
    assert_eq!(get_int(&g, "x"), Some(2));
    g.exit(newer, false).unwrap();
    assert_eq!(get_int(&g, "x"), Some(2));
}

#[test]
fn rollback_returns_to_the_starting_heads_and_commit_leaves_one_head() {
    let mut g = AccessGuard::new();
    put_int(&mut g, "x", 1);
    let start = here(&g).get_heads();
    let t_g = g.transaction().unwrap();
    g.put(t_g, &ROOT, key("x"), ScalarValue::Int(2)).unwrap();
    g.put(t_g, &ROOT, key("y"), ScalarValue::Int(3)).unwrap();
    assert_eq!(here(&g).get_heads(), start);
    assert_eq!(g.rollback(t_g).unwrap(), 2);
    assert_eq!(here(&g).get_heads(), start);

    let t_g = g.transaction().unwrap();
    assert_eq!(g.commit(t_g).unwrap(), None);
    assert_eq!(here(&g).get_heads(), start);

    let t_g = g.transaction().unwrap();
    g.put(t_g, &ROOT, key("x"), ScalarValue::Int(4)).unwrap();
    let hash = g.commit(t_g).unwrap().unwrap();
    assert_eq!(here(&g).get_heads(), vec![hash]);
}

#[test]
fn set_actor_is_refused_on_lent_and_actor_documents() {
    let mut g = AccessGuard::new();
    g.set_actor(&[9, 9]).unwrap();
    let actor = match g.doc_view().unwrap() {
        Reach::Here(d) => d.get_actor(),
        Reach::Actor(_) => unreachable!(),
    };
    assert_eq!(actor, vec![9, 9]);
    let mut lent = AccessGuard::new_borrowed(automerge::Automerge::new());
    assert!(matches!(lent.set_actor(&[1]), Err(AccessError::LentActorChange)));
    lent.invalidate();
    assert!(matches!(lent.set_actor(&[1]), Err(AccessError::LentActorChange)));
    let mut actor_ref = AccessGuard::new_from_actor(3);
    assert!(matches!(actor_ref.set_actor(&[1]), Err(AccessError::ReadOnlyActor)));
    g.transaction().unwrap();
    assert!(matches!(g.set_actor(&[1]), Err(AccessError::ActiveTransaction)));
}

#[test]
fn merge_returns_the_heads_after_merging() {
    let mut a = AccessGuard::new();
    let mut b = AccessGuard::new();
    put_int(&mut a, "x", 1);
    put_int(&mut b, "y", 2);
    let b_heads = here(&b).get_heads();
    let heads = a.merge(&mut b).unwrap();
    assert_eq!(heads, here(&a).get_heads());
    assert_eq!(heads.len(), 2);
    assert_eq!(here(&b).get_heads(), b_heads);
}

#[test]
fn merging_a_document_with_itself_adds_nothing() {
    let mut g = AccessGuard::new();
    put_int(&mut g, "x", 1);
    let heads = here(&g).get_heads();
    assert_eq!(g.merge_self().unwrap(), heads);
    assert_eq!(here(&g).get_heads(), heads);
    let mut actor = AccessGuard::new_from_actor(4);
    assert!(matches!(actor.merge_self(), Err(AccessError::ReadOnlyActor)));
    let t = g.transaction().unwrap();
    assert!(matches!(g.merge_self(), Err(AccessError::ActiveTransaction)));
    g.rollback(t).unwrap();
}

#[test]
fn a_fork_starts_from_the_same_heads_and_a_new_document_from_none() {
    let mut g = AccessGuard::new();
    assert!(here(&g).get_heads().is_empty());
    put_int(&mut g, "x", 1);
    let forked = match g.doc_view().unwrap() {
        Reach::Here(d) => d.fork(),
        Reach::Actor(_) => unreachable!(),
    };
    assert_eq!(here(&forked).get_heads(), here(&g).get_heads());
    assert!(here(&AccessGuard::with_actor(&[5])).get_heads().is_empty());
}
