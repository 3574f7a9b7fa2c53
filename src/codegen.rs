//! The generator of domain boilerplate. It reads declarations (a record, or
//! an impl block whose methods are flagged as commands), checks them, and
//! writes the Rust source of the artifacts that go with them.
pub mod decl;
pub mod naming;
pub mod text;
pub mod entity;
pub mod aggregate;
