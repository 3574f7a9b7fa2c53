//! Records keyed by plain numeric identifiers, with their storage and query
//! ports.
pub mod asset;
pub mod location;
