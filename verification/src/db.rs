//! The database: the stored definitions, the revision counter, and for each
//! function the trees derived from its code. A derived tree is computed when
//! it is first asked for, kept, and dropped only when the code it came from
//! changes.

use vstd::prelude::*;
use crate::function::{Function, FunctionData, UnparsedCode, Variable};
use crate::span::{FileSpan, SpannedWord};
use crate::spans::Spans;
use crate::syntax::Tree;
use crate::word::Word;

verus! {

/// The largest number of definitions of one kind that a database can name.
pub const MAX_ENTITIES: usize = 0xffff_ffff;

/// A problem that validation found and went on from.
#[derive(Clone, Copy, PartialEq, Eq, Hash, Debug, Structural)]
pub struct Diagnostic {
    pub span: FileSpan,
    pub message: Word,
}

/// What validation makes of a syntax tree: a tree of its own, and the
/// problems it met on the way.
#[derive(Clone, Debug, PartialEq, Eq)]
pub struct Validated {
    pub tree: Tree,
    pub diagnostics: Vec<Diagnostic>,
}

/// What became of an attempt to store a derived value.
#[derive(Clone, Copy, PartialEq, Eq, Hash, Debug, Structural)]
pub enum Commit {
    /// The value is now the stored one.
    Stored,
    /// Another value had been stored before; it stays.
    AlreadyPresent,
    /// The revision has moved on since the work began; nothing was stored
    /// and the work is to be done again.
    Cancelled,
}

/// The answer to a demand for a derived value.
#[derive(Clone, Copy, PartialEq, Eq, Hash, Debug, Structural)]
pub enum Demand {
    /// The value is kept and can be read.
    Ready,
    /// Another caller is computing the value at this revision. The caller
    /// waits and asks again.
    Wait,
    /// The value is made from another that is not kept yet. The caller asks
    /// for that one first.
    Upstream,
    /// Nobody is computing the value. The caller is to compute it and to
    /// offer the result together with `at`, the revision it started from.
    Compute { at: u64 },
}

/// The revisions at which the derived values of one function were last
/// taken on for computing.
#[derive(Clone, Copy, PartialEq, Eq, Hash, Debug, Structural)]
pub struct InFlight {
    pub syntax: Option<u64>,
    pub validated: Option<u64>,
}

/// The stored definitions and what has been derived from them so far.
pub struct Db {
    revision: u64,
    claims: Vec<InFlight>,
    functions: Vec<FunctionData>,
    syntax: Vec<Option<Tree>>,
    validated: Vec<Option<Validated>>,
    spans: Vec<Option<Spans>>,
    variables: Vec<Word>,
}

impl Db {
    /// The number of the current snapshot of the stored definitions.
    pub closed spec fn revision(&self) -> nat {
        self.revision as nat
    }

    /// What is stored for each function, by the handle's position.
    pub closed spec fn functions(&self) -> Seq<FunctionData> {
        self.functions@
    }

    /// The syntax tree kept for each function, where one is kept.
    pub closed spec fn syntax_trees(&self) -> Seq<Option<Tree>> {
        self.syntax@
    }

    /// The validated tree kept for each function, where one is kept.
    pub closed spec fn validated_trees(&self) -> Seq<Option<Validated>> {
        self.validated@
    }

    /// The positions kept for each function's syntax tree, where any are.
    pub closed spec fn span_tables(&self) -> Seq<Option<Spans>> {
        self.spans@
    }

    /// For each function, the work on its derived values that callers have
    /// taken on.
    pub closed spec fn in_flight(&self) -> Seq<InFlight> {
        self.claims@
    }

    /// The name of each variable, by the handle's position.
    pub closed spec fn variables(&self) -> Seq<Word> {
        self.variables@
    }

    /// The definitions can all be named, no two of a kind share an identity,
    /// and each function has its place for each kind of derived value.
    pub open spec fn well_formed(&self) -> bool {
        &&& self.functions().len() <= MAX_ENTITIES
        &&& self.variables().len() <= MAX_ENTITIES
        &&& self.syntax_trees().len() == self.functions().len()
        &&& self.validated_trees().len() == self.functions().len()
        &&& self.span_tables().len() == self.functions().len()
        &&& self.in_flight().len() == self.functions().len()
        &&& forall|i: int, j: int|
            0 <= i < j < self.functions().len() ==> (#[trigger] self.functions()[i]).name != (
            #[trigger] self.functions()[j]).name
        &&& forall|i: int, j: int|
            0 <= i < j < self.variables().len() ==> #[trigger] self.variables()[i]
                != #[trigger] self.variables()[j]
    }

    /// Where the function with identity `name` is stored, if it is.
    pub open spec fn function_named(&self, name: SpannedWord) -> Option<int> {
        if exists|i: int|
            0 <= i < self.functions().len() && (#[trigger] self.functions()[i]).name == name {
            Some(
                choose|i: int|
                    0 <= i < self.functions().len() && (#[trigger] self.functions()[i]).name
                        == name,
            )
        } else {
            None
        }
    }

    /// Where the variable with identity `name` is stored, if it is.
    pub open spec fn variable_named(&self, name: Word) -> Option<int> {
        if exists|i: int| 0 <= i < self.variables().len() && #[trigger] self.variables()[i] == name {
            Some(
                choose|i: int|
                    0 <= i < self.variables().len() && #[trigger] self.variables()[i] == name,
            )
        } else {
            None
        }
    }

    /// What storing `data` in place of the function at `i` makes of `before`.
    /// The revision advances by one unless `data` is what was stored. What
    /// was derived for that function is dropped if its code differs, and
    /// kept if only other fields do. Nothing of any other function changes.
    pub open spec fn redefined(&self, before: &Db, i: int, data: FunctionData) -> bool {
        &&& self.functions() == before.functions().update(i, data)
        &&& self.variables() == before.variables()
        &&& self.in_flight() == before.in_flight()
        &&& self.revision() == before.revision() + if data == before.functions()[i] {
            0int
        } else {
            1int
        }
        &&& if data.unparsed_code == before.functions()[i].unparsed_code {
            &&& self.syntax_trees() == before.syntax_trees()
            &&& self.validated_trees() == before.validated_trees()
            &&& self.span_tables() == before.span_tables()
        } else {
            self.invalidated_for(before, i)
        }
    }

    /// `f` names a function of this database.
    pub open spec fn has_function(&self, f: Function) -> bool {
        f.index() < self.functions().len()
    }

    /// `v` names a variable of this database.
    pub open spec fn has_variable(&self, v: Variable) -> bool {
        v.index() < self.variables().len()
    }

    /// A database without definitions, at revision 0.
    pub fn new() -> (db: Db)
        ensures
            db.well_formed(),
            db.revision() == 0,
            db.functions().len() == 0,
            db.variables().len() == 0,
    {
        Db {
            revision: 0,
            claims: Vec::new(),
            functions: Vec::new(),
            syntax: Vec::new(),
            validated: Vec::new(),
            spans: Vec::new(),
            variables: Vec::new(),
        }
    }

    /// The number of the current snapshot of the stored definitions.
    pub fn current_revision(&self) -> (r: u64)
        ensures
            r == self.revision(),
    {
        self.revision
    }

    /// How many functions are stored.
    pub fn function_count(&self) -> (n: usize)
        ensures
            n == self.functions().len(),
    {
        self.functions.len()
    }

    /// Whether `f` names a function of this database.
    pub fn contains_function(&self, f: Function) -> (b: bool)
        ensures
            b == self.has_function(f),
    {
        (f.as_u32() as usize) < self.functions.len()
    }

    /// Whether `v` names a variable of this database.
    pub fn contains_variable(&self, v: Variable) -> (b: bool)
        ensures
            b == self.has_variable(v),
    {
        (v.as_u32() as usize) < self.variables.len()
    }

    /// What is stored for `f`.
    pub fn function_data(&self, f: Function) -> (data: &FunctionData)
        requires
            self.has_function(f),
        ensures
            *data == self.functions()[f.index() as int],
    {
        &self.functions[f.as_u32() as usize]
    }

    /// The name of `v`.
    pub fn variable_name(&self, v: Variable) -> (name: Word)
        requires
            self.has_variable(v),
        ensures
            name == self.variables()[v.index() as int],
    {
        self.variables[v.as_u32() as usize]
    }

    /// The function with identity `name`, if one is stored.
    pub fn find_function(&self, name: SpannedWord) -> (found: Option<Function>)
        requires
            self.well_formed(),
        ensures
            match found {
                Some(f) => self.function_named(name) == Some(f.index() as int),
                None => self.function_named(name) is None,
            },
    {
        let mut i: usize = 0;
        while i < self.functions.len()
            invariant
                i <= self.functions().len(),
                self.well_formed(),
                forall|j: int| 0 <= j < i ==> (#[trigger] self.functions()[j]).name != name,
            decreases self.functions().len() - i,
        {
            if self.functions[i].name == name {
                proof {
                    let chosen = self.function_named(name)->0;
                    assert(self.functions()[i as int].name == name);
                    assert(self.functions()[chosen].name == self.functions()[i as int].name);
                }
                return Some(Function::from_u32(i as u32));
            }
            i += 1;
        }
        None
    }

    /// The variable with identity `name`, if one is stored.
    pub fn find_variable(&self, name: Word) -> (found: Option<Variable>)
        requires
            self.well_formed(),
        ensures
            match found {
                Some(v) => self.variable_named(name) == Some(v.index() as int),
                None => self.variable_named(name) is None,
            },
    {
        let mut i: usize = 0;
        while i < self.variables.len()
            invariant
                i <= self.variables().len(),
                self.well_formed(),
                forall|j: int| 0 <= j < i ==> #[trigger] self.variables()[j] != name,
            decreases self.variables().len() - i,
        {
            if self.variables[i] == name {
                proof {
                    let chosen = self.variable_named(name)->0;
                    assert(self.variables()[i as int] == name);
                    assert(self.variables()[chosen] == self.variables()[i as int]);
                }
                return Some(Variable::from_u32(i as u32));
            }
            i += 1;
        }
        None
    }

    /// Stores `data` in place of what is stored for `f`, whose identity it
    /// shares.
    fn redefine(&mut self, f: Function, data: FunctionData)
        requires
            old(self).well_formed(),
            old(self).has_function(f),
            old(self).functions()[f.index() as int].name == data.name,
            data != old(self).functions()[f.index() as int] ==> old(self).revision() < u64::MAX,
        ensures
            final(self).well_formed(),
            final(self).redefined(old(self), f.index() as int, data),
    {
        let i: usize = f.as_u32() as usize;
        let stored: FunctionData = self.functions[i];
        if stored == data {
            proof {
                assert(self.functions@ =~= self.functions@.update(i as int, data));
            }
            return ;
        }
        self.functions[i] = data;
        if stored.unparsed_code != data.unparsed_code {
            self.syntax[i] = None;
            self.validated[i] = None;
            self.spans[i] = None;
        }
        self.revision = self.revision + 1;
    }

    /// The function that `data` defines. A definition is known by its name
    /// and the place of that name. Where a function of that identity is
    /// stored, it is redefined by `data` and its handle returned. Where none
    /// is, a new function is stored, for which nothing is derived yet; the
    /// revision stays, and so does everything stored before.
    pub fn define_function(&mut self, data: FunctionData) -> (f: Function)
        requires
            old(self).well_formed(),
            match old(self).function_named(data.name) {
                Some(i) => data != old(self).functions()[i] ==> old(self).revision() < u64::MAX,
                None => old(self).functions().len() < MAX_ENTITIES,
            },
        ensures
            final(self).well_formed(),
            match old(self).function_named(data.name) {
                Some(i) => f.index() == i && final(self).redefined(old(self), i, data),
                None => {
                    &&& f.index() == old(self).functions().len()
                    &&& final(self).functions() == old(self).functions().push(data)
                    &&& final(self).syntax_trees() == old(self).syntax_trees().push(None)
                    &&& final(self).validated_trees() == old(self).validated_trees().push(None)
                    &&& final(self).span_tables() == old(self).span_tables().push(None)
                    &&& final(self).in_flight() == old(self).in_flight().push(
                        (InFlight { syntax: None, validated: None }),
                    )
                    &&& final(self).variables() == old(self).variables()
                    &&& final(self).revision() == old(self).revision()
                },
            },
    {
        match self.find_function(data.name) {
            Some(f) => {
                self.redefine(f, data);
                f
            },
            None => {
                let n: usize = self.functions.len();
                self.functions.push(data);
                self.syntax.push(None);
                self.validated.push(None);
                self.spans.push(None);
                self.claims.push(InFlight { syntax: None, validated: None });
                Function::from_u32(n as u32)
            },
        }
    }

    /// The variable called `name`: the one that is stored under that name,
    /// or else a new one. Nothing else changes.
    pub fn define_variable(&mut self, name: Word) -> (v: Variable)
        requires
            old(self).well_formed(),
            old(self).variable_named(name) is None ==> old(self).variables().len() < MAX_ENTITIES,
        ensures
            final(self).well_formed(),
            match old(self).variable_named(name) {
                Some(i) => v.index() == i && final(self).variables() == old(self).variables(),
                None => v.index() == old(self).variables().len() && final(self).variables() == old(
                    self,
                ).variables().push(name),
            },
            final(self).functions() == old(self).functions(),
            final(self).syntax_trees() == old(self).syntax_trees(),
            final(self).validated_trees() == old(self).validated_trees(),
            final(self).span_tables() == old(self).span_tables(),
            final(self).revision() == old(self).revision(),
            final(self).in_flight() == old(self).in_flight(),
    {
        match self.find_variable(name) {
            Some(v) => v,
            None => {
                let n: usize = self.variables.len();
                self.variables.push(name);
                Variable::from_u32(n as u32)
            },
        }
    }

    /// The syntax tree kept for `f`, if one is kept.
    pub fn cached_syntax_tree(&self, f: Function) -> (kept: Option<&Tree>)
        requires
            self.well_formed(),
            self.has_function(f),
        ensures
            match kept {
                Some(tree) => self.syntax_trees()[f.index() as int] == Some(*tree),
                None => self.syntax_trees()[f.index() as int] is None,
            },
    {
        self.syntax[f.as_u32() as usize].as_ref()
    }

    /// The syntax tree of `f`. Where one is kept, it is returned and nothing
    /// is parsed or changed. Where none is, the code of `f` is handed to
    /// `parse`, and what comes back is kept and returned.
    pub fn syntax_tree<P: Fn(UnparsedCode) -> Tree>(&mut self, f: Function, parse: &P) -> (tree:
        &Tree)
        requires
            old(self).well_formed(),
            old(self).has_function(f),
            forall|code: UnparsedCode| parse.requires((code,)),
        ensures
            final(self).well_formed(),
            final(self).syntax_trees() == old(self).syntax_trees().update(
                f.index() as int,
                Some(*tree),
            ),
            final(self).parsed_on_demand(old(self), f.index() as int, parse),
            final(self).functions() == old(self).functions(),
            final(self).validated_trees() == old(self).validated_trees(),
            final(self).span_tables() == old(self).span_tables(),
            final(self).variables() == old(self).variables(),
            final(self).revision() == old(self).revision(),
            final(self).in_flight() == old(self).in_flight(),
    {
        let i: usize = f.as_u32() as usize;
        if self.syntax[i].is_none() {
            let tree = parse(self.functions[i].unparsed_code);
            self.syntax[i] = Some(tree);
        }
        proof {
            assert(self.syntax@ =~= old(self).syntax@.update(i as int, self.syntax@[i as int]));
        }
        self.syntax[i].as_ref().unwrap()
    }

    /// What asking for the syntax tree of the function at `i` makes of the
    /// tree kept for it: a kept tree stays, and where none was kept the one
    /// that `parse` gave for the function's code is.
    pub open spec fn parsed_on_demand<P: Fn(UnparsedCode) -> Tree>(
        &self,
        before: &Db,
        i: int,
        parse: &P,
    ) -> bool {
        &&& self.syntax_trees()[i] is Some
        &&& before.syntax_trees()[i] is Some ==> self.syntax_trees()[i] == before.syntax_trees()[i]
        &&& before.syntax_trees()[i] is None ==> parse.ensures(
            (before.functions()[i].unparsed_code,),
            self.syntax_trees()[i]->0,
        )
    }

    /// What asking for the validated tree of the function at `i` makes of
    /// the trees kept for it. A kept validated tree stays, and the syntax
    /// tree is left as it was. Where none was kept, the syntax tree is there
    /// as if asked for, and the validated tree kept is what `validate` gave
    /// for that syntax tree.
    pub open spec fn validated_on_demand<P: Fn(UnparsedCode) -> Tree, V: Fn(&Tree) -> Validated>(
        &self,
        before: &Db,
        i: int,
        parse: &P,
        validate: &V,
    ) -> bool {
        if before.validated_trees()[i] is Some {
            &&& self.validated_trees()[i] == before.validated_trees()[i]
            &&& self.syntax_trees()[i] == before.syntax_trees()[i]
        } else {
            &&& self.parsed_on_demand(before, i, parse)
            &&& self.validated_trees()[i] is Some
            &&& validate.ensures((&self.syntax_trees()[i]->0,), self.validated_trees()[i]->0)
        }
    }

    /// The validated tree kept for `f`, with its diagnostics, if one is kept.
    pub fn cached_validated_tree(&self, f: Function) -> (kept: Option<&Validated>)
        requires
            self.well_formed(),
            self.has_function(f),
        ensures
            match kept {
                Some(v) => self.validated_trees()[f.index() as int] == Some(*v),
                None => self.validated_trees()[f.index() as int] is None,
            },
    {
        self.validated[f.as_u32() as usize].as_ref()
    }

    /// The validated form of `f`. Where one is kept, it is returned and
    /// nothing is parsed, validated or changed. Where none is, the syntax
    /// tree of `f` is asked for, handed to `validate`, and what comes back is
    /// kept and returned. No other function's trees are touched.
    pub fn validated<P: Fn(UnparsedCode) -> Tree, V: Fn(&Tree) -> Validated>(
        &mut self,
        f: Function,
        parse: &P,
        validate: &V,
    ) -> (result: &Validated)
        requires
            old(self).well_formed(),
            old(self).has_function(f),
            forall|code: UnparsedCode| parse.requires((code,)),
            forall|tree: &Tree| validate.requires((tree,)),
        ensures
            final(self).well_formed(),
            final(self).validated_on_demand(old(self), f.index() as int, parse, validate),
            final(self).validated_trees()[f.index() as int] == Some(*result),
            old(self).faithful_to(parse, validate) ==> final(self).faithful_to(parse, validate),
            final(self).validated_trees() == old(self).validated_trees().update(
                f.index() as int,
                Some(*result),
            ),
            final(self).syntax_trees() == old(self).syntax_trees().update(
                f.index() as int,
                final(self).syntax_trees()[f.index() as int],
            ),
            final(self).functions() == old(self).functions(),
            final(self).span_tables() == old(self).span_tables(),
            final(self).variables() == old(self).variables(),
            final(self).revision() == old(self).revision(),
            final(self).in_flight() == old(self).in_flight(),
    {
        let i: usize = f.as_u32() as usize;
        if self.validated[i].is_none() {
            let tree = self.syntax_tree(f, parse);
            let v = validate(tree);
            self.validated[i] = Some(v);
        }
        proof {
            if old(self).faithful_to(parse, validate) {
                assert forall|j: int|
                    0 <= j < self.functions().len() && (
                    #[trigger] self.syntax_trees()[j]) is Some implies parse.ensures(
                    (self.functions()[j].unparsed_code,),
                    self.syntax_trees()[j]->0,
                ) by {
                    if j != i {
                        assert(old(self).syntax_trees()[j] is Some);
                    }
                }
                assert forall|j: int|
                    0 <= j < self.functions().len() && (
                    #[trigger] self.validated_trees()[j]) is Some implies self.syntax_trees()[j] is Some
                    && validate.ensures(
                    (&self.syntax_trees()[j]->0,),
                    self.validated_trees()[j]->0,
                ) by {
                    if j != i || old(self).validated_trees()[i as int] is Some {
                        assert(old(self).validated_trees()[j] is Some);
                    }
                }
            }
            assert(self.syntax@ =~= old(self).syntax@.update(i as int, self.syntax@[i as int]));
            assert(self.validated@ =~= old(self).validated@.update(
                i as int,
                self.validated@[i as int],
            ));
        }
        self.validated[i].as_ref().unwrap()
    }

    /// Replaces the code of `f`. Where the new code differs from the stored
    /// one, the revision advances by one and everything derived from the old
    /// code of `f` is dropped: its syntax tree, its validated tree and the
    /// positions of its nodes. Where it does not differ, nothing changes. In
    /// either case what is kept for any other function stays as it is.
    pub fn set_unparsed_code(&mut self, f: Function, code: UnparsedCode)
        requires
            old(self).well_formed(),
            old(self).has_function(f),
            code != old(self).functions()[f.index() as int].unparsed_code ==> old(self).revision()
                < u64::MAX,
        ensures
            final(self).well_formed(),
            final(self).redefined(
                old(self),
                f.index() as int,
                (FunctionData { unparsed_code: code, ..old(self).functions()[f.index() as int] }),
            ),
    {
        let stored: FunctionData = self.functions[f.as_u32() as usize];
        self.redefine(f, FunctionData { unparsed_code: code, ..stored });
    }

    /// Replaces the span of `f`, which says where the function stands and
    /// nothing of what it holds. Where the new span differs from the stored
    /// one the revision advances by one. Nothing derived is dropped, for `f`
    /// or for any other function.
    pub fn set_span(&mut self, f: Function, span: FileSpan)
        requires
            old(self).well_formed(),
            old(self).has_function(f),
            span != old(self).functions()[f.index() as int].span ==> old(self).revision()
                < u64::MAX,
        ensures
            final(self).well_formed(),
            final(self).redefined(
                old(self),
                f.index() as int,
                (FunctionData { span: span, ..old(self).functions()[f.index() as int] }),
            ),
            final(self).syntax_trees() == old(self).syntax_trees(),
            final(self).validated_trees() == old(self).validated_trees(),
            final(self).span_tables() == old(self).span_tables(),
    {
        let stored: FunctionData = self.functions[f.as_u32() as usize];
        self.redefine(f, FunctionData { span: span, ..stored });
    }

    /// Offers `tree` as the syntax tree of `f`, parsed from the code of `f`
    /// as it stood at revision `started_at`. It is kept if that is still the
    /// current revision and no tree is kept for `f` yet; otherwise nothing
    /// changes, and the result says which of the two stood in the way.
    pub fn store_syntax_tree(&mut self, f: Function, started_at: u64, tree: Tree) -> (done:
        Commit)
        requires
            old(self).well_formed(),
            old(self).has_function(f),
        ensures
            final(self).well_formed(),
            done == commit_outcome(
                started_at as nat,
                old(self).revision(),
                old(self).syntax_trees()[f.index() as int] is Some,
            ),
            final(self).syntax_trees() == if done == Commit::Stored {
                old(self).syntax_trees().update(f.index() as int, Some(tree))
            } else {
                old(self).syntax_trees()
            },
            final(self).functions() == old(self).functions(),
            final(self).validated_trees() == old(self).validated_trees(),
            final(self).span_tables() == old(self).span_tables(),
            final(self).variables() == old(self).variables(),
            final(self).revision() == old(self).revision(),
            final(self).in_flight() == old(self).in_flight(),
    {
        let i: usize = f.as_u32() as usize;
        if started_at != self.revision {
            Commit::Cancelled
        } else if self.syntax[i].is_some() {
            Commit::AlreadyPresent
        } else {
            self.syntax[i] = Some(tree);
            Commit::Stored
        }
    }

    /// Offers `validated` as the validated form of `f`, made from the syntax
    /// tree of `f` as it stood at revision `started_at`. It is kept if that
    /// is still the current revision and none is kept for `f` yet; otherwise
    /// nothing changes, and the result says which of the two stood in the
    /// way.
    pub fn store_validated_tree(&mut self, f: Function, started_at: u64, validated: Validated) -> (done:
        Commit)
        requires
            old(self).well_formed(),
            old(self).has_function(f),
        ensures
            final(self).well_formed(),
            done == commit_outcome(
                started_at as nat,
                old(self).revision(),
                old(self).validated_trees()[f.index() as int] is Some,
            ),
            final(self).validated_trees() == if done == Commit::Stored {
                old(self).validated_trees().update(f.index() as int, Some(validated))
            } else {
                old(self).validated_trees()
            },
            final(self).functions() == old(self).functions(),
            final(self).syntax_trees() == old(self).syntax_trees(),
            final(self).span_tables() == old(self).span_tables(),
            final(self).variables() == old(self).variables(),
            final(self).revision() == old(self).revision(),
            final(self).in_flight() == old(self).in_flight(),
    {
        let i: usize = f.as_u32() as usize;
        if started_at != self.revision {
            Commit::Cancelled
        } else if self.validated[i].is_some() {
            Commit::AlreadyPresent
        } else {
            self.validated[i] = Some(validated);
            Commit::Stored
        }
    }

    /// The answer owed to a demand for the syntax tree of the function at
    /// `i`: a kept tree is ready; work that another caller took on at this
    /// revision is waited for; otherwise the caller computes.
    pub open spec fn syntax_demand(&self, i: int) -> Demand {
        if self.syntax_trees()[i] is Some {
            Demand::Ready
        } else if self.in_flight()[i].syntax == Some(self.revision() as u64) {
            Demand::Wait
        } else {
            Demand::Compute { at: self.revision() as u64 }
        }
    }

    /// The answer owed to a demand for the validated tree of the function
    /// at `i`: as for the syntax tree, but that the syntax tree comes first
    /// where it is not kept.
    pub open spec fn validated_demand(&self, i: int) -> Demand {
        if self.validated_trees()[i] is Some {
            Demand::Ready
        } else if self.syntax_trees()[i] is None {
            Demand::Upstream
        } else if self.in_flight()[i].validated == Some(self.revision() as u64) {
            Demand::Wait
        } else {
            Demand::Compute { at: self.revision() as u64 }
        }
    }

    /// Asks for the syntax tree of `f` on behalf of a caller that computes
    /// outside. Only the answer `Compute` changes anything: it notes that
    /// the work was taken on at the current revision, so that the next
    /// caller waits instead of parsing the same code again.
    pub fn demand_syntax_tree(&mut self, f: Function) -> (answer: Demand)
        requires
            old(self).well_formed(),
            old(self).has_function(f),
        ensures
            final(self).well_formed(),
            answer == old(self).syntax_demand(f.index() as int),
            final(self).in_flight() == if answer is Compute {
                old(self).in_flight().update(
                    f.index() as int,
                    (InFlight {
                        syntax: Some(old(self).revision() as u64),
                        ..old(self).in_flight()[f.index() as int]
                    }),
                )
            } else {
                old(self).in_flight()
            },
            final(self).same_trees(old(self)),
    {
        let i: usize = f.as_u32() as usize;
        let claim: InFlight = self.claims[i];
        if self.syntax[i].is_some() {
            Demand::Ready
        } else if claim.syntax == Some(self.revision) {
            Demand::Wait
        } else {
            self.claims[i] = InFlight { syntax: Some(self.revision), ..claim };
            Demand::Compute { at: self.revision }
        }
    }

    /// Asks for the validated tree of `f` on behalf of a caller that
    /// computes outside. Only the answer `Compute` changes anything: it
    /// notes that the work was taken on at the current revision.
    pub fn demand_validated_tree(&mut self, f: Function) -> (answer: Demand)
        requires
            old(self).well_formed(),
            old(self).has_function(f),
        ensures
            final(self).well_formed(),
            answer == old(self).validated_demand(f.index() as int),
            final(self).in_flight() == if answer is Compute {
                old(self).in_flight().update(
                    f.index() as int,
                    (InFlight {
                        validated: Some(old(self).revision() as u64),
                        ..old(self).in_flight()[f.index() as int]
                    }),
                )
            } else {
                old(self).in_flight()
            },
            final(self).same_trees(old(self)),
    {
        let i: usize = f.as_u32() as usize;
        let claim: InFlight = self.claims[i];
        if self.validated[i].is_some() {
            Demand::Ready
        } else if self.syntax[i].is_none() {
            Demand::Upstream
        } else if claim.validated == Some(self.revision) {
            Demand::Wait
        } else {
            self.claims[i] = InFlight { validated: Some(self.revision), ..claim };
            Demand::Compute { at: self.revision }
        }
    }

    /// The two databases hold the same definitions at the same revision and
    /// keep the same trees and positions.
    pub open spec fn same_trees(&self, other: &Db) -> bool {
        &&& self.functions() == other.functions()
        &&& self.variables() == other.variables()
        &&& self.revision() == other.revision()
        &&& self.syntax_trees() == other.syntax_trees()
        &&& self.validated_trees() == other.validated_trees()
        &&& self.span_tables() == other.span_tables()
    }

    /// The positions kept for the nodes of the syntax tree of `f`, if any
    /// are kept.
    pub fn cached_spans(&self, f: Function) -> (kept: Option<&Spans>)
        requires
            self.well_formed(),
            self.has_function(f),
        ensures
            match kept {
                Some(spans) => self.span_tables()[f.index() as int] == Some(*spans),
                None => self.span_tables()[f.index() as int] is None,
            },
    {
        self.spans[f.as_u32() as usize].as_ref()
    }

    /// Keeps `spans` as the positions of the nodes of the syntax tree of
    /// `f`, in place of any kept before. No definition, tree or revision
    /// changes.
    pub fn store_spans(&mut self, f: Function, spans: Spans)
        requires
            old(self).well_formed(),
            old(self).has_function(f),
        ensures
            final(self).well_formed(),
            final(self).span_tables() == old(self).span_tables().update(
                f.index() as int,
                Some(spans),
            ),
            final(self).same_content(old(self)),
    {
        self.spans[f.as_u32() as usize] = Some(spans);
    }

    /// Drops the positions kept for `f`. No definition, tree or revision
    /// changes.
    pub fn clear_spans(&mut self, f: Function)
        requires
            old(self).well_formed(),
            old(self).has_function(f),
        ensures
            final(self).well_formed(),
            final(self).span_tables() == old(self).span_tables().update(f.index() as int, None),
            final(self).same_content(old(self)),
    {
        self.spans[f.as_u32() as usize] = None;
    }

    /// Nothing kept is stale: every kept syntax tree is what `parse` gives
    /// for the code that its function has now, and every kept validated tree
    /// is what `validate` gives for the syntax tree kept beside it.
    pub open spec fn faithful_to<P: Fn(UnparsedCode) -> Tree, V: Fn(&Tree) -> Validated>(
        &self,
        parse: &P,
        validate: &V,
    ) -> bool {
        &&& forall|i: int|
            0 <= i < self.functions().len() && (#[trigger] self.syntax_trees()[i]) is Some
                ==> parse.ensures(
                (self.functions()[i].unparsed_code,),
                self.syntax_trees()[i]->0,
            )
        &&& forall|i: int|
            0 <= i < self.functions().len() && (#[trigger] self.validated_trees()[i]) is Some
                ==> self.syntax_trees()[i] is Some && validate.ensures(
                (&self.syntax_trees()[i]->0,),
                self.validated_trees()[i]->0,
            )
    }

    /// Everything derived for the function at `i` has been dropped from
    /// `before`, and nothing else that was derived.
    pub open spec fn invalidated_for(&self, before: &Db, i: int) -> bool {
        &&& self.syntax_trees() == before.syntax_trees().update(i, None)
        &&& self.validated_trees() == before.validated_trees().update(i, None)
        &&& self.span_tables() == before.span_tables().update(i, None)
    }

    /// The two databases hold the same definitions at the same revision, with
    /// the same work under way.
    pub open spec fn same_definitions(&self, other: &Db) -> bool {
        &&& self.functions() == other.functions()
        &&& self.variables() == other.variables()
        &&& self.revision() == other.revision()
        &&& self.in_flight() == other.in_flight()
    }

    /// The two databases differ at most in the trees kept for the function
    /// at `i`.
    pub open spec fn derived_only_for(&self, before: &Db, i: int) -> bool {
        &&& self.same_definitions(before)
        &&& self.span_tables() == before.span_tables()
        &&& self.syntax_trees() == before.syntax_trees().update(i, self.syntax_trees()[i])
        &&& self.validated_trees() == before.validated_trees().update(
            i,
            self.validated_trees()[i],
        )
    }

    /// The two databases agree on everything but recorded positions: on the
    /// definitions, the revision and every kept tree.
    pub open spec fn same_content(&self, other: &Db) -> bool {
        &&& self.same_definitions(other)
        &&& self.syntax_trees() == other.syntax_trees()
        &&& self.validated_trees() == other.validated_trees()
    }
}

/// What becomes of a value offered for keeping: it is refused as out of date
/// when the revision has moved on since the work began, set aside when
/// another was kept first, and kept otherwise.
pub open spec fn commit_outcome(started_at: nat, now: nat, present: bool) -> Commit {
    if started_at != now {
        Commit::Cancelled
    } else if present {
        Commit::AlreadyPresent
    } else {
        Commit::Stored
    }
}

/// A second demand for a syntax tree finds the tree that the first one kept:
/// it keeps that tree, whatever the parser would give.
pub proof fn lemma_syntax_tree_is_reused<P: Fn(UnparsedCode) -> Tree>(
    before: Db,
    first: Db,
    second: Db,
    i: int,
    parse: &P,
)
    requires
        first.parsed_on_demand(&before, i, parse),
        second.parsed_on_demand(&first, i, parse),
    ensures
        second.syntax_trees()[i] == first.syntax_trees()[i],
{
}

/// A second demand for a validated tree finds the one that the first demand
/// kept, and leaves the syntax tree alone.
pub proof fn lemma_validated_tree_is_reused<P: Fn(UnparsedCode) -> Tree, V: Fn(&Tree) -> Validated>(
    before: Db,
    first: Db,
    second: Db,
    i: int,
    parse: &P,
    validate: &V,
)
    requires
        first.validated_on_demand(&before, i, parse, validate),
        second.validated_on_demand(&first, i, parse, validate),
    ensures
        second.validated_trees()[i] == first.validated_trees()[i],
        second.syntax_trees()[i] == first.syntax_trees()[i],
{
}

/// A change to the code of one function drops what was derived for that
/// function and leaves alone what was derived for every other.
pub proof fn lemma_invalidation_is_precise(before: Db, after: Db, changed: Function, other: Function)
    requires
        before.well_formed(),
        before.has_function(changed),
        before.has_function(other),
        changed != other,
        after.invalidated_for(&before, changed.index() as int),
    ensures
        after.syntax_trees()[changed.index() as int] is None,
        after.validated_trees()[changed.index() as int] is None,
        after.syntax_trees()[other.index() as int] == before.syntax_trees()[other.index() as int],
        after.validated_trees()[other.index() as int] == before.validated_trees()[other.index() as int],
        after.span_tables()[other.index() as int] == before.span_tables()[other.index() as int],
{
    broadcast use Function::index_injective;
}

/// What a demand for a tree finds and keeps does not depend on recorded
/// positions: from two databases that differ in nothing else, the same demand
/// has the same outcomes.
pub proof fn lemma_spans_do_not_matter<P: Fn(UnparsedCode) -> Tree, V: Fn(&Tree) -> Validated>(
    with_spans: Db,
    without: Db,
    after: Db,
    i: int,
    parse: &P,
    validate: &V,
)
    requires
        with_spans.same_content(&without),
    ensures
        after.parsed_on_demand(&with_spans, i, parse) == after.parsed_on_demand(
            &without,
            i,
            parse,
        ),
        after.validated_on_demand(&with_spans, i, parse, validate) == after.validated_on_demand(
            &without,
            i,
            parse,
            validate,
        ),
{
}

/// A database in which nothing is kept holds nothing stale.
pub proof fn lemma_nothing_kept_is_faithful<P: Fn(UnparsedCode) -> Tree, V: Fn(&Tree) -> Validated>(
    db: Db,
    parse: &P,
    validate: &V,
)
    requires
        db.well_formed(),
        forall|i: int| 0 <= i < db.functions().len() ==> db.syntax_trees()[i] is None,
        forall|i: int| 0 <= i < db.functions().len() ==> db.validated_trees()[i] is None,
    ensures
        db.faithful_to(parse, validate),
{
}

/// Redefining a function leaves nothing stale behind: what is still kept
/// afterwards belongs to the code that each function has afterwards.
pub proof fn lemma_edit_keeps_faithful<P: Fn(UnparsedCode) -> Tree, V: Fn(&Tree) -> Validated>(
    before: Db,
    after: Db,
    f: Function,
    data: FunctionData,
    parse: &P,
    validate: &V,
)
    requires
        before.well_formed(),
        before.has_function(f),
        before.faithful_to(parse, validate),
        after.redefined(&before, f.index() as int, data),
    ensures
        after.faithful_to(parse, validate),
{
    let i = f.index() as int;
    assert forall|j: int|
        0 <= j < after.functions().len() && (#[trigger] after.syntax_trees()[j]) is Some implies parse.ensures(
        (after.functions()[j].unparsed_code,),
        after.syntax_trees()[j]->0,
    ) by {
        assert(before.syntax_trees()[j] is Some);
    }
    assert forall|j: int|
        0 <= j < after.functions().len() && (#[trigger] after.validated_trees()[j]) is Some implies after.syntax_trees()[j] is Some
        && validate.ensures((&after.syntax_trees()[j]->0,), after.validated_trees()[j]->0) by {
        assert(before.validated_trees()[j] is Some);
    }
}

/// A syntax tree that comes to be kept on demand, or is kept as it was,
/// leaves nothing stale: this holds of a demand for a syntax tree and of
/// storing a tree that the parser gave for the function's present code.
pub proof fn lemma_demand_keeps_faithful<P: Fn(UnparsedCode) -> Tree, V: Fn(&Tree) -> Validated>(
    before: Db,
    after: Db,
    f: Function,
    parse: &P,
    validate: &V,
)
    requires
        before.well_formed(),
        before.has_function(f),
        before.faithful_to(parse, validate),
        after.parsed_on_demand(&before, f.index() as int, parse),
        after.functions() == before.functions(),
        after.syntax_trees() == before.syntax_trees().update(
            f.index() as int,
            after.syntax_trees()[f.index() as int],
        ),
        after.validated_trees() == before.validated_trees(),
    ensures
        after.faithful_to(parse, validate),
{
    assert forall|j: int|
        0 <= j < after.functions().len() && (#[trigger] after.syntax_trees()[j]) is Some implies parse.ensures(
        (after.functions()[j].unparsed_code,),
        after.syntax_trees()[j]->0,
    ) by {
        if j != f.index() {
            assert(before.syntax_trees()[j] is Some);
        }
    }
    assert forall|j: int|
        0 <= j < after.functions().len() && (#[trigger] after.validated_trees()[j]) is Some implies after.syntax_trees()[j] is Some
        && validate.ensures((&after.syntax_trees()[j]->0,), after.validated_trees()[j]->0) by {
        assert(before.validated_trees()[j] is Some);
    }
}

/// A change that touches neither any function's code nor any kept tree
/// leaves nothing stale: a moved span, a recorded or forgotten position.
pub proof fn lemma_other_changes_keep_faithful<P: Fn(UnparsedCode) -> Tree, V: Fn(&Tree) -> Validated>(
    before: Db,
    after: Db,
    parse: &P,
    validate: &V,
)
    requires
        before.well_formed(),
        before.faithful_to(parse, validate),
        after.functions().len() == before.functions().len(),
        forall|i: int|
            0 <= i < before.functions().len() ==> (#[trigger] after.functions()[i]).unparsed_code
                == before.functions()[i].unparsed_code,
        after.syntax_trees() == before.syntax_trees(),
        after.validated_trees() == before.validated_trees(),
    ensures
        after.faithful_to(parse, validate),
{
    assert forall|j: int|
        0 <= j < after.functions().len() && (#[trigger] after.syntax_trees()[j]) is Some implies parse.ensures(
        (after.functions()[j].unparsed_code,),
        after.syntax_trees()[j]->0,
    ) by {
        assert(before.syntax_trees()[j] is Some);
        assert(after.functions()[j].unparsed_code == before.functions()[j].unparsed_code);
    }
    assert forall|j: int|
        0 <= j < after.functions().len() && (#[trigger] after.validated_trees()[j]) is Some implies after.syntax_trees()[j] is Some
        && validate.ensures((&after.syntax_trees()[j]->0,), after.validated_trees()[j]->0) by {
        assert(before.validated_trees()[j] is Some);
    }
}

/// A definition stored for the first time, with nothing derived for it,
/// leaves nothing stale.
pub proof fn lemma_new_definition_keeps_faithful<P: Fn(UnparsedCode) -> Tree, V: Fn(&Tree) -> Validated>(
    before: Db,
    after: Db,
    data: FunctionData,
    parse: &P,
    validate: &V,
)
    requires
        before.well_formed(),
        before.faithful_to(parse, validate),
        after.functions() == before.functions().push(data),
        after.syntax_trees() == before.syntax_trees().push(None),
        after.validated_trees() == before.validated_trees().push(None),
    ensures
        after.faithful_to(parse, validate),
{
    assert forall|j: int|
        0 <= j < after.functions().len() && (#[trigger] after.syntax_trees()[j]) is Some implies parse.ensures(
        (after.functions()[j].unparsed_code,),
        after.syntax_trees()[j]->0,
    ) by {
        assert(before.syntax_trees()[j] is Some);
    }
    assert forall|j: int|
        0 <= j < after.functions().len() && (#[trigger] after.validated_trees()[j]) is Some implies after.syntax_trees()[j] is Some
        && validate.ensures((&after.syntax_trees()[j]->0,), after.validated_trees()[j]->0) by {
        assert(before.validated_trees()[j] is Some);
    }
}

/// One computation for one value: once a caller has been told to compute the
/// syntax tree of a function, whoever asks next at that revision is told to
/// wait, until the tree is kept and everybody is told that it is ready.
pub proof fn lemma_single_flight(before: Db, claimed: Db, f: Function)
    requires
        before.well_formed(),
        before.has_function(f),
        before.syntax_demand(f.index() as int) is Compute,
        claimed.same_trees(&before),
        claimed.in_flight() == before.in_flight().update(
            f.index() as int,
            (InFlight {
                syntax: Some(before.revision() as u64),
                ..before.in_flight()[f.index() as int]
            }),
        ),
    ensures
        claimed.syntax_demand(f.index() as int) == Demand::Wait,
{
}

/// Work taken on at an earlier revision counts for nothing: after the
/// revision has advanced, a demand for a tree that is not kept is answered
/// with the order to compute it at the new revision, and what the earlier
/// work offers is refused.
pub proof fn lemma_advance_cancels(db: Db, f: Function, started_at: u64)
    requires
        db.well_formed(),
        db.has_function(f),
        db.syntax_trees()[f.index() as int] is None,
        db.in_flight()[f.index() as int].syntax == Some(started_at),
        started_at < db.revision(),
        db.revision() <= u64::MAX,
    ensures
        db.syntax_demand(f.index() as int) == (Demand::Compute { at: db.revision() as u64 }),
        commit_outcome(started_at as nat, db.revision(), false) == Commit::Cancelled,
{
}

} // verus!
