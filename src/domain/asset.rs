//! Assets keyed by a numeric identifier.
use vstd::prelude::*;
use crate::common::IntoString;

verus! {

/// An asset with a numeric identifier.
#[derive(Debug, Clone)]
pub struct Asset {
    pub id: u64,
    pub name: String,
}

/// Persistence of assets, without exposing any storage details.
pub trait AssetRepository {
    /// The asset with the identifier, if any.
    fn get(&self, id: u64) -> Option<Asset>;

    /// Saves a new asset or replaces the stored one.
    fn store(&self, asset: &Asset);
}

/// Read access to assets.
pub trait AssetApi {
    /// The asset with the identifier, if any.
    fn get(&self, id: u64) -> Option<Asset>;
}

/// An asset with the given identifier and name.
pub fn new_asset<N: IntoString>(id: u64, name: N) -> (r: Asset)
    ensures
        r.id == id,
        r.name@ == name.string_view(),
{
    Asset { id, name: name.into_string() }
}

} // verus!
