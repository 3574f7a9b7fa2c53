//! Locations: the places where assets are kept.
use vstd::prelude::*;
use crate::common::{Entity, IntoString, Repository, RepositoryId};

verus! {

/// The type-level tag of location identifiers. Only the type is used; no
/// value of it is ever made.
#[derive(Clone, Copy, Debug, PartialEq, Eq)]
pub enum LocationTag {
    Marker,
}

/// The identifier of a location.
pub type LocationId = RepositoryId<LocationTag>;

/// Persistence of locations, without committing to any storage technology.
pub trait LocationRepository: Repository<Entity = Location, Id = LocationId> {

}

/// A place where assets are kept.
#[derive(Debug, Clone)]
pub struct Location {
    pub id: LocationId,
    pub name: String,
}

/// A location with the given identifier and name.
pub fn new<N: IntoString>(id: LocationId, name: N) -> (r: Location)
    ensures
        r.id == id,
        r.name@ == name.string_view(),
{
    Location { id, name: name.into_string() }
}

impl Entity for Location {
    type Tag = LocationTag;

    open spec fn id_value(&self) -> u128 {
        self.id@
    }

    fn entity_id(&self) -> (r: LocationId) {
        self.id.clone()
    }

    fn duplicate(&self) -> (r: Location) {
        Location { id: self.id.clone(), name: self.name.clone() }
    }
}

} // verus!
