//! The definitions that the front end keeps track of: functions, variables
//! and classes, each known by a handle into the database that stores it.

use vstd::prelude::*;
use crate::db::Db;
use crate::span::{FileSpan, Filename, SpannedWord};
use crate::word::{Effect, ReturnType, Word};

verus! {

/// An interned run of tokens that nothing has parsed yet.
#[derive(Clone, Copy, PartialEq, Eq, PartialOrd, Ord, Hash, Debug, Structural)]
pub struct TokenTree(pub u32);

/// The parameters and the body of a function as they were written. They are
/// parsed only when somebody asks for the function's syntax tree.
#[derive(Clone, Copy, PartialEq, Eq, PartialOrd, Ord, Hash, Debug, Structural)]
pub struct UnparsedCode {
    pub parameter_tokens: TokenTree,
    pub body_tokens: TokenTree,
}

/// What the database stores for one function.
#[derive(Clone, Copy, PartialEq, Eq, Hash, Debug, Structural)]
pub struct FunctionData {
    /// The name, with the place where it was written: the function's identity.
    pub name: SpannedWord,
    /// The effect declared for the body, as in `async fn`.
    pub effect: Effect,
    /// Where the effect keyword stands or, without one, the keyword `fn`.
    pub effect_span: FileSpan,
    pub return_type: ReturnType,
    pub unparsed_code: UnparsedCode,
    /// The whole function, its code included.
    pub span: FileSpan,
}

/// Handle of a function definition.
#[derive(Clone, Copy, PartialEq, Eq, PartialOrd, Ord, Hash, Debug, Structural)]
pub struct Function(u32);

/// Handle of a variable definition.
#[derive(Clone, Copy, PartialEq, Eq, PartialOrd, Ord, Hash, Debug, Structural)]
pub struct Variable(u32);

/// Handle of a class definition.
#[derive(Clone, Copy, PartialEq, Eq, PartialOrd, Ord, Hash, Debug, Structural)]
pub struct Class(pub u32);

/// A definition at the top level of a file.
#[derive(Clone, Copy, PartialEq, Eq, PartialOrd, Ord, Hash, Debug, Structural)]
pub enum Item {
    Function(Function),
    Class(Class),
}

impl Function {
    /// The position of the definition in its database.
    pub closed spec fn index(self) -> nat {
        self.0 as nat
    }

    /// The handle at position `raw`.
    pub fn from_u32(raw: u32) -> (f: Function)
        ensures
            f.index() == raw,
    {
        Function(raw)
    }

    /// The position as a number.
    pub fn as_u32(self) -> (raw: u32)
        ensures
            raw == self.index(),
    {
        self.0
    }

    /// Handles are equal exactly when their positions are.
    pub broadcast proof fn index_injective(self, other: Function)
        ensures
            (#[trigger] self.index() == #[trigger] other.index()) == (self == other),
    {
    }

    /// The name, with the place where it was written.
    pub fn name(self, db: &Db) -> (name: SpannedWord)
        requires
            db.has_function(self),
        ensures
            name == db.functions()[self.index() as int].name,
    {
        db.function_data(self).name
    }

    /// The effect declared for the body.
    pub fn effect(self, db: &Db) -> (effect: Effect)
        requires
            db.has_function(self),
        ensures
            effect == db.functions()[self.index() as int].effect,
    {
        db.function_data(self).effect
    }

    /// Where the effect keyword stands or, without one, the keyword `fn`.
    pub fn effect_span(self, db: &Db) -> (span: FileSpan)
        requires
            db.has_function(self),
        ensures
            span == db.functions()[self.index() as int].effect_span,
    {
        db.function_data(self).effect_span
    }

    /// Whether the function declares a value to return.
    pub fn return_type(self, db: &Db) -> (return_type: ReturnType)
        requires
            db.has_function(self),
        ensures
            return_type == db.functions()[self.index() as int].return_type,
    {
        db.function_data(self).return_type
    }

    /// The function's code as it was written, unparsed.
    pub fn unparsed_code(self, db: &Db) -> (code: UnparsedCode)
        requires
            db.has_function(self),
        ensures
            code == db.functions()[self.index() as int].unparsed_code,
    {
        db.function_data(self).unparsed_code
    }

    /// The whole function, its code included.
    pub fn span(self, db: &Db) -> (span: FileSpan)
        requires
            db.has_function(self),
        ensures
            span == db.functions()[self.index() as int].span,
    {
        db.function_data(self).span
    }

    /// The file in which the function is written.
    pub fn filename(self, db: &Db) -> (filename: Filename)
        requires
            db.has_function(self),
        ensures
            filename == db.functions()[self.index() as int].span.filename,
    {
        self.span(db).filename
    }
}

impl Variable {
    /// The position of the definition in its database.
    pub closed spec fn index(self) -> nat {
        self.0 as nat
    }

    /// The handle at position `raw`.
    pub fn from_u32(raw: u32) -> (v: Variable)
        ensures
            v.index() == raw,
    {
        Variable(raw)
    }

    /// The position as a number.
    pub fn as_u32(self) -> (raw: u32)
        ensures
            raw == self.index(),
    {
        self.0
    }

    /// The variable's name, which is its identity.
    pub fn name(self, db: &Db) -> (name: Word)
        requires
            db.has_variable(self),
        ensures
            name == db.variables()[self.index() as int],
    {
        db.variable_name(self)
    }
}

} // verus!
