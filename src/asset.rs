//! Assets: the things that are kept at locations.
use vstd::prelude::*;
use crate::common::{IntoString, Repository};

verus! {

/// Persistence of assets, without committing to any storage technology.
pub trait AssetRepository: Repository<Entity = Asset, Id = AssetId> {

}

/// A thing that is kept somewhere.
#[derive(Debug, Clone)]
pub struct Asset {
    pub id: AssetId,
    pub name: String,
}

/// The identifier of an asset: the 128-bit value of a UUID.
#[derive(Debug, Clone, Copy, PartialEq, Eq, Structural)]
pub struct AssetId(pub u128);

impl Asset {
    /// An asset with the given identifier and name.
    pub fn new<N: IntoString>(id: AssetId, name: N) -> (r: Asset)
        ensures
            r.id == id,
            r.name@ == name.string_view(),
    {
        Asset { id, name: name.into_string() }
    }
}

} // verus!
