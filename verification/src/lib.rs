//! Intermediate representation of a compiler front end: arena-backed syntax
//! trees, a side table of source positions, and the store of definitions with
//! the trees derived from them on demand.

pub mod word;
pub mod span;
pub mod syntax;
pub mod spans;
pub mod function;
pub mod db;
pub mod validate;
