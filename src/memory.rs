//! A store that keeps its entities in a list, in the order they were
//! created, and finds them by a scan from the front.
use vstd::prelude::*;
use crate::common::{Entity, Repository, RepositoryError, RepositoryId};

verus! {

/// The first of the entities whose identifier has the given value.
pub open spec fn first_with_id<E: Entity>(s: Seq<E>, v: u128) -> Option<E>
    decreases s.len(),
{
    if s.len() == 0 {
        None
    } else if s[0].id_value() == v {
        Some(s[0])
    } else {
        first_with_id(s.drop_first(), v)
    }
}

/// A store of entities held in memory. The store owns its list; every change
/// goes through `create`, which needs the store exclusively.
pub struct MemoryRepository<E> {
    items: Vec<E>,
}

impl<E> View for MemoryRepository<E> {
    type V = Seq<E>;

    closed spec fn view(&self) -> Seq<E> {
        self.items@
    }
}

impl<E: Entity> MemoryRepository<E> {
    /// An empty store.
    pub fn new() -> (r: Self)
        ensures
            r@ == Seq::<E>::empty(),
    {
        MemoryRepository { items: Vec::new() }
    }

    /// The number of stored entities.
    pub fn len(&self) -> (r: usize)
        ensures
            r == self@.len(),
    {
        self.items.len()
    }
}

impl<E: Entity> Repository for MemoryRepository<E> {
    type Entity = E;

    type Id = RepositoryId<E::Tag>;

    /// Appends the entity to the list and hands it back; never fails.
    fn create(&mut self, entity: E) -> (r: Result<E, RepositoryError>)
        ensures
            final(self)@ == old(self)@.push(entity),
            r == Ok::<E, RepositoryError>(entity),
    {
        let stored = entity.duplicate();
        self.items.push(stored);
        Ok(entity)
    }

    /// The first stored entity with the identifier, by a scan from the
    /// front; never fails.
    fn fetch(&self, id: RepositoryId<E::Tag>) -> (r: Result<Option<E>, RepositoryError>)
        ensures
            r == Ok::<Option<E>, RepositoryError>(first_with_id(self@, id@)),
    {
        let n = self.items.len();
        let mut i: usize = 0;
        assert(self.items@.skip(0) == self.items@);
        while i < n
            invariant
                n == self.items@.len(),
                i <= n,
                first_with_id(self.items@, id@) == first_with_id(self.items@.skip(i as int), id@),
            decreases n - i,
        {
            let ghost rest = self.items@.skip(i as int);
            assert(rest.drop_first() == self.items@.skip(i as int + 1));
            if self.items[i].entity_id() == id {
                return Ok(Some(self.items[i].duplicate()));
            }
            i = i + 1;
        }
        Ok(None)
    }
}

/// After an entity is created in a store that holds no entity with its
/// identifier, fetching that identifier gives the entity; fetching an
/// identifier that no stored entity has gives nothing.
pub proof fn lemma_fetch_after_create<E: Entity>(s: Seq<E>, e: E, other: u128)
    requires
        forall|i: int| 0 <= i < s.len() ==> (#[trigger] s[i]).id_value() != e.id_value(),
        other != e.id_value(),
        forall|i: int| 0 <= i < s.len() ==> (#[trigger] s[i]).id_value() != other,
    ensures
        first_with_id(s.push(e), e.id_value()) == Some(e),
        first_with_id(s.push(e), other) is None,
    decreases s.len(),
{
    if s.len() > 0 {
        assert(s.push(e).drop_first() == s.drop_first().push(e));
        assert forall|i: int| 0 <= i < s.drop_first().len() implies (#[trigger] s.drop_first()[i]).id_value() != e.id_value()
            && s.drop_first()[i].id_value() != other by {
            assert(s.drop_first()[i] == s[i + 1]);
        }
        lemma_fetch_after_create(s.drop_first(), e, other);
        assert(s.push(e)[0] == s[0]);
        assert(s[0].id_value() != other);
    } else {
        assert(s.push(e).drop_first() == Seq::<E>::empty());
        assert(s.push(e)[0] == e);
        assert(first_with_id(Seq::<E>::empty(), other) is None);
    }
}

} // verus!
