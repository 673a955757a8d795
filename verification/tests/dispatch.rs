use todo_core::command::ecs::ECSCommand;
use todo_core::command::{CoreCommand, CreateParams, UpdateParams};
use todo_core::dispatch::{dispatch, NotifyCommand};
use todo_core::store::EntityStore;

#[test]
fn list_notifies_listed() {
    let mut s = EntityStore::new();
    let r = dispatch(&mut s, CoreCommand::List, 1);
    assert_eq!(r, Some(NotifyCommand::List));
    assert_eq!(s.list().len(), 0);
}

#[test]
fn create_notifies_with_new_id() {
    let mut s = EntityStore::new();
    let r = dispatch(&mut s, CoreCommand::Create(CreateParams::new("a".to_string())), 1);
    let id = match r {
        Some(NotifyCommand::Create(id)) => id,
        other => panic!("expected a creation event, got {:?}", other),
    };
    let list = s.list();
    assert_eq!(list.len(), 1);
    assert_eq!(list[0].id, id);
    assert_eq!(list[0].name, "a");
}

#[test]
fn update_notifies_with_id() {
    let mut s = EntityStore::new();
    let item = s.create("a".to_string(), 1);
    let cmd = CoreCommand::Update(UpdateParams { entity: item.id, name: None, done: Some(true) });
    let r = dispatch(&mut s, cmd, 2);
    assert_eq!(r, Some(NotifyCommand::Update(item.id)));
    assert_eq!(s.list()[0].done, true);
}

#[test]
fn delete_notifies_with_id() {
    let mut s = EntityStore::new();
    let item = s.create("a".to_string(), 1);
    let r = dispatch(&mut s, CoreCommand::Delete(item.id), 2);
    assert_eq!(r, Some(NotifyCommand::Delete(item.id)));
    assert_eq!(s.list().len(), 0);
}

#[test]
fn update_missing_id_is_dropped_silently() {
    let mut s = EntityStore::new();
    s.create("a".to_string(), 1);
    let cmd = CoreCommand::Update(UpdateParams { entity: 42, name: None, done: Some(true) });
    let r = dispatch(&mut s, cmd, 2);
    assert_eq!(r, None);
    let list = s.list();
    assert_eq!(list.len(), 1);
    assert_eq!(list[0].done, false);
}

#[test]
fn delete_missing_id_is_dropped_silently() {
    let mut s = EntityStore::new();
    s.create("a".to_string(), 1);
    let r = dispatch(&mut s, CoreCommand::Delete(42), 2);
    assert_eq!(r, None);
    assert_eq!(s.list().len(), 1);
}

#[test]
fn ecs_command_converts_to_core() {
    let cmd = ECSCommand::Create(todo_core::command::ecs::CreateParams::new("x".to_string()));
    match cmd.into_core() {
        CoreCommand::Create(p) => assert_eq!(p.name, "x"),
        other => panic!("expected a create command, got {:?}", other),
    }
    match ECSCommand::List.into_core() {
        CoreCommand::List => {}
        other => panic!("expected a list command, got {:?}", other),
    }
    let upd = ECSCommand::Update(todo_core::command::ecs::UpdateParams {
        entity: 3,
        name: Some("y".to_string()),
        done: Some(false),
    });
    match upd.into_core() {
        CoreCommand::Update(p) => {
            assert_eq!(p.entity, 3);
            assert_eq!(p.name.as_deref(), Some("y"));
            assert_eq!(p.done, Some(false));
        }
        other => panic!("expected an update command, got {:?}", other),
    }
}
