//! What later stages of the compiler ask of the front end: the validated
//! tree of a function or of an item, and the validation of a whole file.

use vstd::prelude::*;
use crate::db::{Db, Validated};
use crate::function::{Function, Item, UnparsedCode};
use crate::span::Filename;
use crate::syntax::Tree;

verus! {

impl Function {
    /// The validated tree of this function, made on first demand and kept.
    pub fn validated_tree<'a, P: Fn(UnparsedCode) -> Tree, V: Fn(&Tree) -> Validated>(
        self,
        db: &'a mut Db,
        parse: &P,
        validate: &V,
    ) -> (tree: &'a Tree)
        requires
            old(db).well_formed(),
            old(db).has_function(self),
            forall|code: UnparsedCode| parse.requires((code,)),
            forall|tree: &Tree| validate.requires((tree,)),
        ensures
            final(db).well_formed(),
            final(db).validated_on_demand(old(db), self.index() as int, parse, validate),
            final(db).validated_trees()[self.index() as int] is Some,
            *tree == final(db).validated_trees()[self.index() as int]->0.tree,
            final(db).derived_only_for(old(db), self.index() as int),
            old(db).faithful_to(parse, validate) ==> final(db).faithful_to(parse, validate),
    {
        &db.validated(self, parse, validate).tree
    }
}

impl Item {
    /// The validated tree of this item. A function has one, made on first
    /// demand and kept. A class has none: for a class nothing is parsed,
    /// validated or changed.
    pub fn validated_tree<'a, P: Fn(UnparsedCode) -> Tree, V: Fn(&Tree) -> Validated>(
        self,
        db: &'a mut Db,
        parse: &P,
        validate: &V,
    ) -> (tree: Option<&'a Tree>)
        requires
            old(db).well_formed(),
            self matches Item::Function(f) ==> {
                &&& old(db).has_function(f)
                &&& forall|code: UnparsedCode| parse.requires((code,))
                &&& forall|tree: &Tree| validate.requires((tree,))
            },
        ensures
            final(db).well_formed(),
            old(db).faithful_to(parse, validate) ==> final(db).faithful_to(parse, validate),
            match self {
                Item::Function(f) => {
                    &&& final(db).validated_on_demand(old(db), f.index() as int, parse, validate)
                    &&& final(db).validated_trees()[f.index() as int] is Some
                    &&& tree matches Some(t) && *t == final(db).validated_trees()[f.index() as int]->0.tree
                    &&& final(db).derived_only_for(old(db), f.index() as int)
                },
                Item::Class(_) => tree is None && *final(db) == *old(db),
            },
    {
        match self {
            Item::Function(f) => Some(f.validated_tree(db, parse, validate)),
            Item::Class(_) => None,
        }
    }
}

impl Filename {
    /// Validates every function written in this file, each as if its
    /// validated tree had been asked for. Functions of other files are left
    /// as they are.
    pub fn validate_root<P: Fn(UnparsedCode) -> Tree, V: Fn(&Tree) -> Validated>(
        self,
        db: &mut Db,
        parse: &P,
        validate: &V,
    )
        requires
            old(db).well_formed(),
            forall|code: UnparsedCode| parse.requires((code,)),
            forall|tree: &Tree| validate.requires((tree,)),
        ensures
            final(db).well_formed(),
            final(db).same_definitions(old(db)),
            final(db).span_tables() == old(db).span_tables(),
            old(db).faithful_to(parse, validate) ==> final(db).faithful_to(parse, validate),
            forall|i: int|
                0 <= i < old(db).functions().len() ==> if (#[trigger] old(
                    db,
                ).functions()[i]).span.filename == self {
                    &&& final(db).validated_on_demand(old(db), i, parse, validate)
                    &&& final(db).validated_trees()[i] is Some
                } else {
                    &&& final(db).syntax_trees()[i] == old(db).syntax_trees()[i]
                    &&& final(db).validated_trees()[i] == old(db).validated_trees()[i]
                },
    {
        let n: usize = db.function_count();
        let mut i: usize = 0;
        while i < n
            invariant
                i <= n,
                n == db.functions().len(),
                db.well_formed(),
                old(db).well_formed(),
                db.same_definitions(old(db)),
                db.span_tables() == old(db).span_tables(),
                old(db).faithful_to(parse, validate) ==> db.faithful_to(parse, validate),
                forall|code: UnparsedCode| parse.requires((code,)),
                forall|tree: &Tree| validate.requires((tree,)),
                forall|j: int|
                    0 <= j < i ==> if (#[trigger] old(db).functions()[j]).span.filename == self {
                        &&& db.validated_on_demand(old(db), j, parse, validate)
                        &&& db.validated_trees()[j] is Some
                    } else {
                        &&& db.syntax_trees()[j] == old(db).syntax_trees()[j]
                        &&& db.validated_trees()[j] == old(db).validated_trees()[j]
                    },
                forall|j: int|
                    i <= j < n ==> {
                        &&& db.syntax_trees()[j] == old(db).syntax_trees()[j]
                        &&& db.validated_trees()[j] == #[trigger] old(db).validated_trees()[j]
                    },
            decreases n - i,
        {
            let f = Function::from_u32(i as u32);
            let ghost prev = *db;
            if f.filename(db) == self {
                f.validated_tree(db, parse, validate);
            }
            proof {
                assert forall|j: int| i < j < n implies {
                    &&& db.syntax_trees()[j] == old(db).syntax_trees()[j]
                    &&& db.validated_trees()[j] == old(db).validated_trees()[j]
                } by {
                    assert(prev.validated_trees()[j] == old(db).validated_trees()[j]);
                }
            }
            i += 1;
        }
    }
}

} // verus!
