use stowr::common::Repository;
use std::sync::Arc;

use stowr::foo::{Foo, FooId, FooRepo};
use stowr::location::{self, Location, LocationId};
use stowr::memory::MemoryRepository;

#[test]
fn dummy_repo_can_create_and_fetch() {
    let mut repo: MemoryRepository<Foo> = MemoryRepository::new();
    let id = FooId::new();
    let item = Foo::new(id.clone(), "warehouse");
    let created = repo.create(item.clone()).unwrap();
    assert_eq!(created, item);

    let fetched = repo.fetch(id.clone()).unwrap();
    assert_eq!(fetched, Some(item));
}

#[test]
fn fetch_of_unused_id_is_none() {
    let mut repo: MemoryRepository<Foo> = MemoryRepository::new();
    let x = FooId::new();
    repo.create(Foo::new(x, "x")).unwrap();
    let y = FooId::new();
    assert_eq!(repo.fetch(y).unwrap(), None);
    assert_eq!(repo.len(), 1);
}

#[test]
fn empty_store_finds_nothing() {
    let repo: MemoryRepository<Foo> = MemoryRepository::new();
    assert_eq!(repo.fetch(FooId::new()).unwrap(), None);
    assert_eq!(repo.len(), 0);
}

#[test]
fn fetch_finds_the_first_of_equal_ids() {
    let mut repo: MemoryRepository<Foo> = MemoryRepository::new();
    let id = FooId::new();
    repo.create(Foo::new(id, "first")).unwrap();
    repo.create(Foo::new(FooId::new(), "other")).unwrap();
    repo.create(Foo::new(id, "second")).unwrap();
    assert_eq!(repo.fetch(id).unwrap().unwrap().name, "first");
    assert_eq!(repo.len(), 3);
}

#[test]
fn locations_are_stored_too() {
    let mut repo: MemoryRepository<Location> = MemoryRepository::new();
    let id = LocationId::new();
    repo.create(location::new(id, "shed")).unwrap();
    let found = repo.fetch(id).unwrap().unwrap();
    assert_eq!(found.id, id);
    assert_eq!(found.name, "shed");
}

#[test]
fn shared_handle_fetches_from_the_store() {
    let mut store: MemoryRepository<Foo> = MemoryRepository::new();
    let x = FooId::new();
    let item = Foo::new(x, "warehouse");
    store.create(item.clone()).unwrap();
    let repo: FooRepo = Arc::new(store);
    assert_eq!(repo.fetch(x).unwrap(), Some(item));
    assert_eq!(repo.fetch(FooId::new()).unwrap(), None);
}
