use todo_core::store::EntityStore;

#[test]
fn create_sets_fields() {
    let mut s = EntityStore::new();
    let item = s.create("buy milk".to_string(), 100);
    assert_eq!(item.name, "buy milk");
    assert_eq!(item.done, false);
    assert_eq!(item.created_at, 100);
    assert_eq!(item.updated_at, None);
}

#[test]
fn create_sequence_lists_all_names_in_order() {
    let mut s = EntityStore::new();
    s.create("a".to_string(), 1);
    s.create("b".to_string(), 2);
    s.create("c".to_string(), 3);
    let list = s.list();
    assert_eq!(list.len(), 3);
    assert_eq!(list[0].name, "a");
    assert_eq!(list[1].name, "b");
    assert_eq!(list[2].name, "c");
    for item in &list {
        assert_eq!(item.done, false);
    }
    for w in list.windows(2) {
        assert!(w[0].created_at <= w[1].created_at);
    }
}

#[test]
fn list_is_stable_between_mutations() {
    let mut s = EntityStore::new();
    s.create("a".to_string(), 1);
    s.create("b".to_string(), 2);
    let first = s.list();
    let second = s.list();
    assert_eq!(first.len(), second.len());
    for (x, y) in first.iter().zip(second.iter()) {
        assert_eq!(x.id, y.id);
        assert_eq!(x.name, y.name);
        assert_eq!(x.done, y.done);
        assert_eq!(x.created_at, y.created_at);
        assert_eq!(x.updated_at, y.updated_at);
    }
}

#[test]
fn create_accepts_empty_name() {
    let mut s = EntityStore::new();
    let item = s.create(String::new(), 7);
    assert_eq!(item.name, "");
    assert_eq!(s.list().len(), 1);
}

#[test]
fn create_clamps_backward_clock() {
    let mut s = EntityStore::new();
    s.create("a".to_string(), 10);
    let second = s.create("b".to_string(), 5);
    assert_eq!(second.created_at, 10);
    let list = s.list();
    assert!(list[0].created_at <= list[1].created_at);
}

#[test]
fn update_done_only_keeps_name() {
    let mut s = EntityStore::new();
    let item = s.create("buy milk".to_string(), 100);
    let updated = s.update(item.id, None, Some(true), 150).unwrap();
    assert_eq!(updated.name, "buy milk");
    assert_eq!(updated.done, true);
    assert_eq!(updated.created_at, 100);
    assert_eq!(updated.updated_at, Some(150));
    assert!(updated.updated_at.unwrap() >= updated.created_at);
}

#[test]
fn update_name_and_done() {
    let mut s = EntityStore::new();
    let item = s.create("old".to_string(), 100);
    let updated = s.update(item.id, Some("new".to_string()), Some(true), 120).unwrap();
    assert_eq!(updated.name, "new");
    assert_eq!(updated.done, true);
    let list = s.list();
    assert_eq!(list[0].name, "new");
}

#[test]
fn update_without_fields_still_sets_updated_at() {
    let mut s = EntityStore::new();
    let item = s.create("a".to_string(), 100);
    let updated = s.update(item.id, None, None, 130).unwrap();
    assert_eq!(updated.name, "a");
    assert_eq!(updated.done, false);
    assert_eq!(updated.updated_at, Some(130));
}

#[test]
fn update_clamps_updated_at_to_created_at() {
    let mut s = EntityStore::new();
    let item = s.create("a".to_string(), 100);
    let updated = s.update(item.id, None, Some(true), 40).unwrap();
    assert_eq!(updated.updated_at, Some(100));
}

#[test]
fn update_missing_id_is_not_found_and_changes_nothing() {
    let mut s = EntityStore::new();
    s.create("a".to_string(), 1);
    let r = s.update(999, None, Some(true), 2);
    assert!(r.is_err());
    let list = s.list();
    assert_eq!(list.len(), 1);
    assert_eq!(list[0].done, false);
    assert_eq!(list[0].updated_at, None);
}

#[test]
fn delete_missing_id_is_not_found_and_changes_nothing() {
    let mut s = EntityStore::new();
    s.create("a".to_string(), 1);
    let r = s.delete(999);
    assert!(r.is_err());
    assert_eq!(s.list().len(), 1);
}

#[test]
fn delete_removes_exactly_one() {
    let mut s = EntityStore::new();
    let a = s.create("a".to_string(), 1);
    let b = s.create("b".to_string(), 2);
    let c = s.create("c".to_string(), 3);
    let before = s.list().len();
    s.delete(b.id).unwrap();
    let list = s.list();
    assert_eq!(list.len(), before - 1);
    assert!(list.iter().all(|t| t.id != b.id));
    assert_eq!(list[0].id, a.id);
    assert_eq!(list[1].id, c.id);
}

#[test]
fn deleted_id_is_never_reused() {
    let mut s = EntityStore::new();
    let a = s.create("a".to_string(), 1);
    s.delete(a.id).unwrap();
    let b = s.create("b".to_string(), 2);
    assert_ne!(a.id, b.id);
    s.delete(b.id).unwrap();
    let c = s.create("c".to_string(), 3);
    assert_ne!(a.id, c.id);
    assert_ne!(b.id, c.id);
}
