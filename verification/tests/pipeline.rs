use todo_core::command::ui::UICommand;
use todo_core::command::{CoreCommand, CreateParams, UpdateParams};
use todo_core::pipeline::Pipeline;

#[test]
fn scenario_single_subscriber_full_lifecycle() {
    let mut p = Pipeline::new();
    let a = p.subscribe(8);

    // A subscriber must issue its own List to materialize the current state.
    let r = p.handle_at(CoreCommand::List, 1);
    assert!(matches!(r, Some(UICommand::List(_))));
    let snap = p.poll(a).unwrap();
    assert!(matches!(snap, UICommand::List(_)));
    assert_eq!(snap.items().len(), 0);

    let r = p.handle_at(CoreCommand::Create(CreateParams::new("buy milk".to_string())), 2);
    assert!(matches!(r, Some(UICommand::Create(_))));
    let items = p.poll(a).unwrap().items();
    assert_eq!(items.len(), 1);
    assert_eq!(items[0].name, "buy milk");
    assert_eq!(items[0].done, false);
    let id = items[0].entity;

    let cmd = CoreCommand::Update(UpdateParams { entity: id, name: None, done: Some(true) });
    let r = p.handle_at(cmd, 3);
    assert!(matches!(r, Some(UICommand::Update(_))));
    let items = p.poll(a).unwrap().items();
    assert_eq!(items.len(), 1);
    assert_eq!(items[0].name, "buy milk");
    assert_eq!(items[0].done, true);
    assert!(items[0].updated_at.unwrap() >= items[0].created_at);

    let r = p.handle_at(CoreCommand::Delete(id), 4);
    assert!(matches!(r, Some(UICommand::Delete(_))));
    let items = p.poll(a).unwrap().items();
    assert_eq!(items.len(), 0);
    assert!(p.poll(a).is_none());
}

#[test]
fn two_subscribers_receive_identical_snapshots() {
    let mut p = Pipeline::new();
    let a = p.subscribe(8);
    let b = p.subscribe(8);
    assert_eq!(p.subscriber_count(), 2);
    p.handle_at(CoreCommand::Create(CreateParams::new("shared".to_string())), 1);

    let sa = p.poll(a).unwrap();
    let sb = p.poll(b).unwrap();
    assert!(matches!(sa, UICommand::Create(_)));
    assert!(matches!(sb, UICommand::Create(_)));
    let ia = sa.items();
    let ib = sb.items();
    assert_eq!(ia.len(), ib.len());
    for (x, y) in ia.iter().zip(ib.iter()) {
        assert_eq!(x.entity, y.entity);
        assert_eq!(x.name, y.name);
        assert_eq!(x.done, y.done);
        assert_eq!(x.created_at, y.created_at);
        assert_eq!(x.updated_at, y.updated_at);
    }
}

#[test]
fn late_subscriber_sees_nothing_until_its_own_list() {
    let mut p = Pipeline::new();
    let a = p.subscribe(8);
    p.handle_at(CoreCommand::Create(CreateParams::new("early".to_string())), 1);

    let c = p.subscribe(8);
    assert!(p.poll(c).is_none());

    p.handle_at(CoreCommand::List, 2);
    let snap = p.poll(c).unwrap();
    assert!(matches!(snap, UICommand::List(_)));
    let items = snap.items();
    assert_eq!(items.len(), 1);
    assert_eq!(items[0].name, "early");

    // The early subscriber received both publications.
    assert!(matches!(p.poll(a).unwrap(), UICommand::Create(_)));
    assert!(matches!(p.poll(a).unwrap(), UICommand::List(_)));
}

#[test]
fn mutation_of_missing_id_broadcasts_nothing() {
    let mut p = Pipeline::new();
    let a = p.subscribe(8);
    let cmd = CoreCommand::Update(UpdateParams { entity: 7, name: None, done: Some(true) });
    assert!(p.handle_at(cmd, 1).is_none());
    assert!(p.handle_at(CoreCommand::Delete(7), 2).is_none());
    assert!(p.poll(a).is_none());

    // The store is untouched: a List snapshot still shows nothing.
    let r = p.handle_at(CoreCommand::List, 3).unwrap();
    assert_eq!(r.items().len(), 0);
}

#[test]
fn full_buffer_drops_oldest_snapshot() {
    let mut p = Pipeline::new();
    let a = p.subscribe(1);
    p.handle_at(CoreCommand::Create(CreateParams::new("first".to_string())), 1);
    p.handle_at(CoreCommand::Create(CreateParams::new("second".to_string())), 2);

    // Only the newest snapshot survives, and it carries the full state.
    let snap = p.poll(a).unwrap();
    let items = snap.items();
    assert_eq!(items.len(), 2);
    assert_eq!(items[0].name, "first");
    assert_eq!(items[1].name, "second");
    assert!(p.poll(a).is_none());
}

#[test]
fn wall_clock_creation_orders_timestamps() {
    let mut p = Pipeline::new();
    p.handle(CoreCommand::Create(CreateParams::new("a".to_string())));
    p.handle(CoreCommand::Create(CreateParams::new("b".to_string())));
    let items = p.handle(CoreCommand::List).unwrap().items();
    assert_eq!(items.len(), 2);
    assert!(items[0].created_at <= items[1].created_at);
    assert!(items[0].entity < items[1].entity);
}

#[test]
fn snapshot_is_an_independent_copy() {
    let mut p = Pipeline::new();
    let a = p.subscribe(8);
    p.handle_at(CoreCommand::Create(CreateParams::new("x".to_string())), 1);
    let first = p.handle_at(CoreCommand::List, 2).unwrap().items();

    // Mutating the store afterwards leaves the delivered copy as it was.
    let id = first[0].entity;
    let cmd = CoreCommand::Update(UpdateParams { entity: id, name: None, done: Some(true) });
    p.handle_at(cmd, 3);
    assert_eq!(first[0].done, false);

    // The subscriber's buffered snapshots reflect each state in order.
    let creation = p.poll(a).unwrap().items();
    assert_eq!(creation[0].done, false);
    let listed = p.poll(a).unwrap().items();
    assert_eq!(listed[0].done, false);
    let updated = p.poll(a).unwrap().items();
    assert_eq!(updated[0].done, true);
}
