//! Interned words and the small closed vocabularies of the language.

use vstd::prelude::*;

verus! {

/// An interned string, known by the number the interner gave it.
#[derive(Clone, Copy, PartialEq, Eq, PartialOrd, Ord, Hash, Debug, Structural)]
pub struct Word(pub u32);

/// How a declared variable holds its value.
#[derive(Clone, Copy, PartialEq, Eq, PartialOrd, Ord, Hash, Debug, Structural)]
pub enum StorageMode {
    Shared,
    Var,
    Atomic,
}

/// A binary operator.
#[derive(Clone, Copy, PartialEq, Eq, PartialOrd, Ord, Hash, Debug, Structural)]
pub enum Op {
    Plus,
    Minus,
    Times,
    DividedBy,
    EqualEqual,
    LessThan,
    GreaterThan,
}

/// The effect a function declares for its body.
#[derive(Clone, Copy, PartialEq, Eq, PartialOrd, Ord, Hash, Debug, Structural)]
pub enum Effect {
    Atomic,
    Default,
    Async,
}

/// Whether a function declares a value to return.
#[derive(Clone, Copy, PartialEq, Eq, PartialOrd, Ord, Hash, Debug, Structural)]
pub enum ReturnType {
    Unit,
    Value,
}

} // verus!
