//! The syntax tree of one function body: node records held in append-only
//! tables and named by handles, plus the handle of the root expression.

use vstd::prelude::*;
use crate::word::{Op, StorageMode, Word};

verus! {

/// Handle of an expression node. It means something only together with the
/// tables that issued it.
#[derive(Clone, Copy, PartialEq, Eq, PartialOrd, Ord, Hash, Debug, Structural)]
pub struct Expr(u32);

/// Handle of a named-argument node.
#[derive(Clone, Copy, PartialEq, Eq, PartialOrd, Ord, Hash, Debug, Structural)]
pub struct NamedExpr(u32);

/// Handle of a block node.
#[derive(Clone, Copy, PartialEq, Eq, PartialOrd, Ord, Hash, Debug, Structural)]
pub struct Block(u32);

impl Expr {
    /// The position of the node in its table.
    pub closed spec fn index(self) -> nat {
        self.0 as nat
    }

    /// The handle at position `raw`.
    pub fn from_u32(raw: u32) -> (h: Expr)
        ensures
            h.index() == raw,
    {
        Expr(raw)
    }

    /// The position as a number.
    pub fn as_u32(self) -> (raw: u32)
        ensures
            raw == self.index(),
    {
        self.0
    }

    /// Handles are equal exactly when their positions are.
    pub broadcast proof fn index_injective(self, other: Expr)
        ensures
            (#[trigger] self.index() == #[trigger] other.index()) == (self == other),
    {
    }
}

impl NamedExpr {
    /// The position of the node in its table.
    pub closed spec fn index(self) -> nat {
        self.0 as nat
    }

    /// The handle at position `raw`.
    pub fn from_u32(raw: u32) -> (h: NamedExpr)
        ensures
            h.index() == raw,
    {
        NamedExpr(raw)
    }

    /// The position as a number.
    pub fn as_u32(self) -> (raw: u32)
        ensures
            raw == self.index(),
    {
        self.0
    }

    /// Handles are equal exactly when their positions are.
    pub broadcast proof fn index_injective(self, other: NamedExpr)
        ensures
            (#[trigger] self.index() == #[trigger] other.index()) == (self == other),
    {
    }
}

impl Block {
    /// The position of the node in its table.
    pub closed spec fn index(self) -> nat {
        self.0 as nat
    }

    /// The handle at position `raw`.
    pub fn from_u32(raw: u32) -> (h: Block)
        ensures
            h.index() == raw,
    {
        Block(raw)
    }

    /// The position as a number.
    pub fn as_u32(self) -> (raw: u32)
        ensures
            raw == self.index(),
    {
        self.0
    }

    /// Handles are equal exactly when their positions are.
    pub broadcast proof fn index_injective(self, other: Block)
        ensures
            (#[trigger] self.index() == #[trigger] other.index()) == (self == other),
    {
    }
}

/// One expression node. Children are named by handle, never held.
#[derive(PartialEq, Eq, PartialOrd, Ord, Clone, Hash, Debug)]
pub enum ExprData {
    Id(Word),
    /// `true`, `false`
    BooleanLiteral(bool),
    /// `22`, `22_222`
    IntegerLiteral(Word),
    /// `"foo"` without format strings
    StringLiteral(Word),
    /// `expr.ident`
    Dot(Expr, Word),
    /// `expr.await`
    Await(Expr),
    /// `expr(id: expr, ...)`
    Call(Expr, Vec<NamedExpr>),
    /// `expr.share`
    Share(Expr),
    /// `expr.lease`
    Lease(Expr),
    /// `expr.give`
    Give(Expr),
    /// `[shared|var|atomic] x = expr`
    Var(StorageMode, Word, Expr),
    /// `(expr)`
    Parenthesized(Expr),
    /// `if condition { block } [else { block }]`
    If(Expr, Expr, Option<Expr>),
    /// `atomic { block }`
    Atomic(Expr),
    /// `loop { block }`
    Loop(Expr),
    /// `while condition { block }`
    While(Expr, Expr),
    /// `{ ... }`
    Block(Block),
    /// `a + b`
    Op(Expr, Op, Expr),
    /// `a += b`
    OpEq(Expr, Op, Expr),
    /// `a := b`
    Assign(Expr, Expr),
    /// Stands where the source could not be understood.
    Error,
}

/// One argument of a call: `name: expr`.
#[derive(PartialEq, Eq, PartialOrd, Ord, Clone, Hash, Debug)]
pub struct NamedExprData {
    pub name: Word,
    pub expr: Expr,
}

/// The statements of a block, in the order in which they run.
#[derive(PartialEq, Eq, PartialOrd, Ord, Clone, Hash, Debug)]
pub struct BlockData {
    pub exprs: Vec<Expr>,
}

/// The largest number of nodes that one table can name.
pub const MAX_NODES: usize = 0xffff_ffff;

/// The node records of one tree, one table for each kind of node. A table
/// only grows: a record, once added, is never moved, changed or removed.
#[derive(Clone, Debug, PartialEq, Eq)]
pub struct Tables {
    exprs: Vec<ExprData>,
    named_exprs: Vec<NamedExprData>,
    blocks: Vec<BlockData>,
}

impl Tables {
    /// The expression records, in the order in which they were added.
    pub closed spec fn exprs(&self) -> Seq<ExprData> {
        self.exprs@
    }

    /// The named-argument records, in the order in which they were added.
    pub closed spec fn named_exprs(&self) -> Seq<NamedExprData> {
        self.named_exprs@
    }

    /// The block records, in the order in which they were added.
    pub closed spec fn blocks(&self) -> Seq<BlockData> {
        self.blocks@
    }

    /// `h` names a record of these tables.
    pub open spec fn has_expr(&self, h: Expr) -> bool {
        h.index() < self.exprs().len()
    }

    /// `h` names a record of these tables.
    pub open spec fn has_named_expr(&self, h: NamedExpr) -> bool {
        h.index() < self.named_exprs().len()
    }

    /// `h` names a record of these tables.
    pub open spec fn has_block(&self, h: Block) -> bool {
        h.index() < self.blocks().len()
    }

    /// Every table of `earlier` is the start of the table of the same kind
    /// here: what `earlier` holds, these tables hold at the same handles.
    pub open spec fn extends(&self, earlier: &Tables) -> bool {
        &&& earlier.exprs().is_prefix_of(self.exprs())
        &&& earlier.named_exprs().is_prefix_of(self.named_exprs())
        &&& earlier.blocks().is_prefix_of(self.blocks())
    }

    /// Every handle inside `data` names a record of these tables.
    pub open spec fn expr_data_in_range(&self, data: ExprData) -> bool {
        match data {
            ExprData::Id(_) => true,
            ExprData::BooleanLiteral(_) => true,
            ExprData::IntegerLiteral(_) => true,
            ExprData::StringLiteral(_) => true,
            ExprData::Dot(e, _) => self.has_expr(e),
            ExprData::Await(e) => self.has_expr(e),
            ExprData::Call(callee, args) => self.has_expr(callee) && forall|i: int|
                0 <= i < args@.len() ==> self.has_named_expr(#[trigger] args@[i]),
            ExprData::Share(e) => self.has_expr(e),
            ExprData::Lease(e) => self.has_expr(e),
            ExprData::Give(e) => self.has_expr(e),
            ExprData::Var(_, _, e) => self.has_expr(e),
            ExprData::Parenthesized(e) => self.has_expr(e),
            ExprData::If(c, t, e) => self.has_expr(c) && self.has_expr(t) && (e is Some
                ==> self.has_expr(e->0)),
            ExprData::Atomic(e) => self.has_expr(e),
            ExprData::Loop(e) => self.has_expr(e),
            ExprData::While(c, b) => self.has_expr(c) && self.has_expr(b),
            ExprData::Block(b) => self.has_block(b),
            ExprData::Op(l, _, r) => self.has_expr(l) && self.has_expr(r),
            ExprData::OpEq(l, _, r) => self.has_expr(l) && self.has_expr(r),
            ExprData::Assign(l, r) => self.has_expr(l) && self.has_expr(r),
            ExprData::Error => true,
        }
    }

    /// Every statement of `data` names a record of these tables.
    pub open spec fn block_data_in_range(&self, data: BlockData) -> bool {
        forall|i: int| 0 <= i < data.exprs@.len() ==> self.has_expr(#[trigger] data.exprs@[i])
    }

    /// No record of these tables holds a handle that names nothing here.
    pub open spec fn closed_under_handles(&self) -> bool {
        &&& forall|i: int|
            0 <= i < self.exprs().len() ==> self.expr_data_in_range(#[trigger] self.exprs()[i])
        &&& forall|i: int|
            0 <= i < self.named_exprs().len() ==> self.has_expr(
                (#[trigger] self.named_exprs()[i]).expr,
            )
        &&& forall|i: int|
            0 <= i < self.blocks().len() ==> self.block_data_in_range(#[trigger] self.blocks()[i])
    }

    /// Tables without any record.
    pub fn new() -> (t: Tables)
        ensures
            t.exprs().len() == 0,
            t.named_exprs().len() == 0,
            t.blocks().len() == 0,
            t.closed_under_handles(),
    {
        Tables { exprs: Vec::new(), named_exprs: Vec::new(), blocks: Vec::new() }
    }

    /// How many expression records are held.
    pub fn expr_count(&self) -> (n: usize)
        ensures
            n == self.exprs().len(),
    {
        self.exprs.len()
    }

    /// How many named-argument records are held.
    pub fn named_expr_count(&self) -> (n: usize)
        ensures
            n == self.named_exprs().len(),
    {
        self.named_exprs.len()
    }

    /// How many block records are held.
    pub fn block_count(&self) -> (n: usize)
        ensures
            n == self.blocks().len(),
    {
        self.blocks.len()
    }

    /// Appends an expression record and returns its handle, which is the
    /// number of expression records held before.
    pub fn add_expr(&mut self, data: ExprData) -> (h: Expr)
        requires
            old(self).exprs().len() < MAX_NODES,
        ensures
            h.index() == old(self).exprs().len(),
            final(self).exprs() == old(self).exprs().push(data),
            final(self).named_exprs() == old(self).named_exprs(),
            final(self).blocks() == old(self).blocks(),
            final(self).extends(old(self)),
            old(self).closed_under_handles() && old(self).expr_data_in_range(data) ==> final(self).closed_under_handles(),
    {
        let n: usize = self.exprs.len();
        self.exprs.push(data);
        Expr(n as u32)
    }

    /// Appends a named-argument record and returns its handle, which is the
    /// number of named-argument records held before.
    pub fn add_named_expr(&mut self, data: NamedExprData) -> (h: NamedExpr)
        requires
            old(self).named_exprs().len() < MAX_NODES,
        ensures
            h.index() == old(self).named_exprs().len(),
            final(self).named_exprs() == old(self).named_exprs().push(data),
            final(self).exprs() == old(self).exprs(),
            final(self).blocks() == old(self).blocks(),
            final(self).extends(old(self)),
            old(self).closed_under_handles() && old(self).has_expr(data.expr) ==> final(self).closed_under_handles(),
    {
        let n: usize = self.named_exprs.len();
        self.named_exprs.push(data);
        NamedExpr(n as u32)
    }

    /// Appends a block record and returns its handle, which is the number of
    /// block records held before.
    pub fn add_block(&mut self, data: BlockData) -> (h: Block)
        requires
            old(self).blocks().len() < MAX_NODES,
        ensures
            h.index() == old(self).blocks().len(),
            final(self).blocks() == old(self).blocks().push(data),
            final(self).exprs() == old(self).exprs(),
            final(self).named_exprs() == old(self).named_exprs(),
            final(self).extends(old(self)),
            old(self).closed_under_handles() && old(self).block_data_in_range(data) ==> final(self).closed_under_handles(),
    {
        let n: usize = self.blocks.len();
        self.blocks.push(data);
        Block(n as u32)
    }

    /// Whether `h` names a record of these tables.
    pub fn contains_expr(&self, h: Expr) -> (b: bool)
        ensures
            b == self.has_expr(h),
    {
        (h.0 as usize) < self.exprs.len()
    }

    /// Whether `h` names a record of these tables.
    pub fn contains_named_expr(&self, h: NamedExpr) -> (b: bool)
        ensures
            b == self.has_named_expr(h),
    {
        (h.0 as usize) < self.named_exprs.len()
    }

    /// Whether `h` names a record of these tables.
    pub fn contains_block(&self, h: Block) -> (b: bool)
        ensures
            b == self.has_block(h),
    {
        (h.0 as usize) < self.blocks.len()
    }

    /// The record that `h` names.
    pub fn expr(&self, h: Expr) -> (data: &ExprData)
        requires
            self.has_expr(h),
        ensures
            *data == self.exprs()[h.index() as int],
    {
        &self.exprs[h.0 as usize]
    }

    /// The record that `h` names.
    pub fn named_expr(&self, h: NamedExpr) -> (data: &NamedExprData)
        requires
            self.has_named_expr(h),
        ensures
            *data == self.named_exprs()[h.index() as int],
    {
        &self.named_exprs[h.0 as usize]
    }

    /// The record that `h` names.
    pub fn block(&self, h: Block) -> (data: &BlockData)
        requires
            self.has_block(h),
        ensures
            *data == self.blocks()[h.index() as int],
    {
        &self.blocks[h.0 as usize]
    }

    /// Whether every handle inside `data` names a record of these tables.
    pub fn expr_data_fits(&self, data: &ExprData) -> (b: bool)
        ensures
            b == self.expr_data_in_range(*data),
    {
        match data {
            ExprData::Id(_)
            | ExprData::BooleanLiteral(_)
            | ExprData::IntegerLiteral(_)
            | ExprData::StringLiteral(_)
            | ExprData::Error => true,
            ExprData::Dot(e, _)
            | ExprData::Await(e)
            | ExprData::Share(e)
            | ExprData::Lease(e)
            | ExprData::Give(e)
            | ExprData::Var(_, _, e)
            | ExprData::Parenthesized(e)
            | ExprData::Atomic(e)
            | ExprData::Loop(e) => self.contains_expr(*e),
            ExprData::While(l, r)
            | ExprData::Op(l, _, r)
            | ExprData::OpEq(l, _, r)
            | ExprData::Assign(l, r) => self.contains_expr(*l) && self.contains_expr(*r),
            ExprData::If(c, t, e) => {
                let tail: bool = match e {
                    Some(e) => self.contains_expr(*e),
                    None => true,
                };
                self.contains_expr(*c) && self.contains_expr(*t) && tail
            },
            ExprData::Block(b) => self.contains_block(*b),
            ExprData::Call(callee, args) => {
                if !self.contains_expr(*callee) {
                    return false;
                }
                let mut i: usize = 0;
                while i < args.len()
                    invariant
                        i <= args@.len(),
                        *data == ExprData::Call(*callee, *args),
                        self.has_expr(*callee),
                        forall|j: int| 0 <= j < i ==> self.has_named_expr(#[trigger] args@[j]),
                    decreases args@.len() - i,
                {
                    if !self.contains_named_expr(args[i]) {
                        assert(!self.has_named_expr(args@[i as int]));
                        assert(data matches ExprData::Call(c, a) && a == *args);
                        return false;
                    }
                    i += 1;
                }
                true
            },
        }
    }

    /// Whether every statement of `data` names a record of these tables.
    pub fn block_data_fits(&self, data: &BlockData) -> (b: bool)
        ensures
            b == self.block_data_in_range(*data),
    {
        let mut i: usize = 0;
        while i < data.exprs.len()
            invariant
                i <= data.exprs@.len(),
                forall|j: int| 0 <= j < i ==> self.has_expr(#[trigger] data.exprs@[j]),
            decreases data.exprs@.len() - i,
        {
            if !self.contains_expr(data.exprs[i]) {
                assert(!self.has_expr(data.exprs@[i as int]));
                return false;
            }
            i += 1;
        }
        true
    }

    /// Whether no record of these tables holds a handle that names nothing
    /// here.
    pub fn is_closed_under_handles(&self) -> (b: bool)
        ensures
            b == self.closed_under_handles(),
    {
        let mut i: usize = 0;
        while i < self.exprs.len()
            invariant
                i <= self.exprs().len(),
                forall|j: int| 0 <= j < i ==> self.expr_data_in_range(#[trigger] self.exprs()[j]),
            decreases self.exprs().len() - i,
        {
            if !self.expr_data_fits(&self.exprs[i]) {
                assert(!self.expr_data_in_range(self.exprs()[i as int]));
                return false;
            }
            i += 1;
        }
        let mut k: usize = 0;
        while k < self.named_exprs.len()
            invariant
                k <= self.named_exprs().len(),
                forall|j: int|
                    0 <= j < k ==> self.has_expr((#[trigger] self.named_exprs()[j]).expr),
            decreases self.named_exprs().len() - k,
        {
            if !self.contains_expr(self.named_exprs[k].expr) {
                assert(!self.has_expr(self.named_exprs()[k as int].expr));
                return false;
            }
            k += 1;
        }
        let mut m: usize = 0;
        while m < self.blocks.len()
            invariant
                m <= self.blocks().len(),
                forall|j: int|
                    0 <= j < self.exprs().len() ==> self.expr_data_in_range(
                        #[trigger] self.exprs()[j],
                    ),
                forall|j: int|
                    0 <= j < self.named_exprs().len() ==> self.has_expr(
                        (#[trigger] self.named_exprs()[j]).expr,
                    ),
                forall|j: int|
                    0 <= j < m ==> self.block_data_in_range(#[trigger] self.blocks()[j]),
            decreases self.blocks().len() - m,
        {
            if !self.block_data_fits(&self.blocks[m]) {
                assert(!self.block_data_in_range(self.blocks()[m as int]));
                return false;
            }
            m += 1;
        }
        true
    }

    /// The number of records that stand where the source could not be
    /// understood.
    pub fn error_count(&self) -> (n: usize)
        ensures
            n == error_nodes(self.exprs()),
    {
        let mut n: usize = 0;
        let mut i: usize = 0;
        while i < self.exprs.len()
            invariant
                i <= self.exprs().len(),
                n == error_nodes(self.exprs().take(i as int)),
                n <= i,
            decreases self.exprs().len() - i,
        {
            proof {
                assert(self.exprs().take(i + 1).drop_last() =~= self.exprs().take(i as int));
            }
            if let ExprData::Error = &self.exprs[i] {
                n += 1;
            }
            i += 1;
        }
        proof {
            assert(self.exprs().take(i as int) =~= self.exprs());
        }
        n
    }
}

/// How many of `nodes` are the error node.
pub open spec fn error_nodes(nodes: Seq<ExprData>) -> nat
    decreases nodes.len(),
{
    if nodes.len() == 0 {
        0
    } else {
        error_nodes(nodes.drop_last()) + if nodes.last() is Error {
            1nat
        } else {
            0nat
        }
    }
}

/// Tables that hold no more than `later` does, at the same handles, answer as
/// `later` does: whatever is added afterwards, the record that a handle names
/// stays the record that it named when it was issued.
pub proof fn lemma_records_are_stable(earlier: Tables, later: Tables)
    requires
        later.extends(&earlier),
    ensures
        forall|h: Expr| #[trigger]
            earlier.has_expr(h) ==> later.has_expr(h) && later.exprs()[h.index() as int]
                == earlier.exprs()[h.index() as int],
        forall|h: NamedExpr| #[trigger]
            earlier.has_named_expr(h) ==> later.has_named_expr(h) && later.named_exprs()[h.index() as int]
                == earlier.named_exprs()[h.index() as int],
        forall|h: Block| #[trigger]
            earlier.has_block(h) ==> later.has_block(h) && later.blocks()[h.index() as int]
                == earlier.blocks()[h.index() as int],
{
}

/// The error node holds no handle, so it can stand in any tables, in place
/// of whatever could not be understood, and leave them closed.
pub proof fn lemma_error_node_fits_anywhere(tables: Tables)
    ensures
        tables.expr_data_in_range(ExprData::Error),
        tables.closed_under_handles() ==> forall|later: Tables|
            later.exprs() == tables.exprs().push(ExprData::Error) && later.named_exprs()
                == tables.named_exprs() && later.blocks() == tables.blocks()
                ==> #[trigger] later.closed_under_handles(),
{
}

/// Growth composes: tables that extend an extension of `a` extend `a`.
pub proof fn lemma_extends_is_transitive(a: Tables, b: Tables, c: Tables)
    requires
        b.extends(&a),
        c.extends(&b),
    ensures
        c.extends(&a),
{
}

/// The syntax tree of one function body: the tables that hold its nodes and
/// the handle of its root expression.
#[derive(Clone, Debug, PartialEq, Eq)]
pub struct Tree {
    pub tables: Tables,
    pub root_expr: Expr,
}

impl Tree {
    /// The root names a node of the tree, and no node names one outside it.
    pub open spec fn well_formed(&self) -> bool {
        &&& self.tables.has_expr(self.root_expr)
        &&& self.tables.closed_under_handles()
    }

    /// Whether the root names a node of the tree, and no node names one
    /// outside it.
    pub fn is_well_formed(&self) -> (b: bool)
        ensures
            b == self.well_formed(),
    {
        self.tables.contains_expr(self.root_expr) && self.tables.is_closed_under_handles()
    }

    /// The record of the root expression.
    pub fn root(&self) -> (data: &ExprData)
        requires
            self.tables.has_expr(self.root_expr),
        ensures
            *data == self.tables.exprs()[self.root_expr.index() as int],
    {
        self.tables.expr(self.root_expr)
    }
}

} // verus!
