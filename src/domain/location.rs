//! Locations keyed by a numeric identifier.
use vstd::prelude::*;
use crate::common::IntoString;

verus! {

/// A location with a numeric identifier.
#[derive(Debug, Clone)]
pub struct Location {
    pub id: u64,
    pub name: String,
}

/// Persistence of locations, without exposing any storage details.
pub trait LocationRepository {
    /// The location with the identifier, if any.
    fn get(&self, id: u64) -> Option<Location>;

    /// Saves a new location or replaces the stored one.
    fn store(&self, location: &Location);
}

/// Read access to locations.
pub trait LocationApi {
    /// The location with the identifier, if any.
    fn get(&self, id: u64) -> Option<Location>;
}

/// A location with the given identifier and name.
pub fn new_location<N: IntoString>(id: u64, name: N) -> (r: Location)
    ensures
        r.id == id,
        r.name@ == name.string_view(),
{
    Location { id, name: name.into_string() }
}

} // verus!
