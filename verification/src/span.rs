//! Source positions.

use vstd::prelude::*;
use crate::word::Word;

verus! {

/// A source file, known by its interned path.
#[derive(Clone, Copy, PartialEq, Eq, PartialOrd, Ord, Hash, Debug, Structural)]
pub struct Filename(pub Word);

/// A range of bytes within some file that the context fixes.
#[derive(Clone, Copy, PartialEq, Eq, PartialOrd, Ord, Hash, Debug, Structural)]
pub struct Span {
    pub start: u32,
    pub end: u32,
}

/// A range of bytes within a named file.
#[derive(Clone, Copy, PartialEq, Eq, PartialOrd, Ord, Hash, Debug, Structural)]
pub struct FileSpan {
    pub filename: Filename,
    pub start: u32,
    pub end: u32,
}

/// A word together with the place where it was written.
#[derive(Clone, Copy, PartialEq, Eq, PartialOrd, Ord, Hash, Debug, Structural)]
pub struct SpannedWord {
    pub word: Word,
    pub span: FileSpan,
}

} // verus!
