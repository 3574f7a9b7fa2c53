use stowr::common::{replay, Aggregate};
use stowr::foo::{Foo, FooCommand, FooEvent, FooId};

#[test]
fn rename_foo() {
    let old_name = "Old Name".to_string();
    let new_name = "New Name".to_string();
    let mut f = Foo::new(FooId::new(), old_name);
    f.rename(new_name.clone());
    assert_eq!(f.name, new_name);
}

#[test]
fn rename_command_gives_rename_event_and_applies() {
    let mut foo = Foo::new(FooId::new(), "Old Name");
    let cmd = FooCommand::Rename { new_name: "New Name".to_string() };
    let events = foo.handle_command(cmd).unwrap();
    assert_eq!(events.len(), 1);
    match &events[0] {
        FooEvent::Rename { new_name } => assert_eq!(new_name, "New Name"),
    }
    assert_eq!(foo.name, "Old Name");
    foo.apply_event(&events[0]);
    assert_eq!(foo.name, "New Name");
}

#[test]
fn applying_the_event_matches_calling_the_method() {
    let start = Foo::new(FooId::new(), "A");
    let events = start
        .handle_command(FooCommand::Rename { new_name: "B".to_string() })
        .unwrap();
    let mut replayed = start.clone();
    replayed.apply_event(&events[0]);
    let mut direct = start.clone();
    direct.rename("B".to_string());
    assert_eq!(replayed, direct);
}

#[test]
fn replay_applies_events_in_order() {
    let id = FooId::new();
    let mut foo = Foo::new(id, "A");
    let events = vec![
        FooEvent::Rename { new_name: "B".to_string() },
        FooEvent::Rename { new_name: "C".to_string() },
    ];
    replay(&mut foo, &events);
    assert_eq!(foo, Foo::new(id, "C"));
    let mut again = Foo::new(id, "A");
    replay(&mut again, &events);
    assert_eq!(again, foo);
    let mut untouched = Foo::new(id, "A");
    replay(&mut untouched, &Vec::new());
    assert_eq!(untouched.name, "A");
}
