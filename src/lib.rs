//! Entity identifiers, repositories, aggregates and the generator that
//! writes the boilerplate of a domain entity.
pub mod id_text;
pub mod common;
pub mod memory;
pub mod location;
pub mod asset;
pub mod foo;
pub mod domain;
pub mod codegen;
