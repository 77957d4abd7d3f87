//! Source positions of the nodes of a tree, held apart from the tree itself:
//! a tree says what was written, this table says where. Nothing that reads
//! only a tree can depend on it.

use vstd::prelude::*;
use crate::span::Span;
use crate::syntax::{Block, Expr, NamedExpr};

verus! {

/// The two positions recorded for a named argument.
#[derive(Clone, Copy, PartialEq, Eq, Hash, Debug, Structural)]
pub struct NamedExprSpan {
    /// The whole argument, `name: expr`.
    pub span: Span,
    /// The name alone.
    pub name_span: Span,
}

/// What a row of slots records: the filled slots, by position.
pub open spec fn recorded<T>(slots: Seq<Option<T>>) -> Map<nat, T> {
    Map::new(
        |i: nat| i < slots.len() && slots[i as int] is Some,
        |i: nat| slots[i as int]->0,
    )
}

/// Fills slot `at` with `value`, adding empty slots before it as needed.
fn record<T: Copy>(slots: &mut Vec<Option<T>>, at: u32, value: T)
    ensures
        recorded(final(slots)@) == recorded(old(slots)@).insert(at as nat, value),
{
    let at: usize = at as usize;
    while slots.len() <= at
        invariant
            recorded(slots@) == recorded(old(slots)@),
        decreases at + 1 - slots@.len(),
    {
        let ghost before = slots@;
        slots.push(None);
        proof {
            assert(recorded(slots@) =~= recorded(before));
        }
    }
    let ghost before = slots@;
    slots[at] = Some(value);
    proof {
        assert(recorded(slots@) =~= recorded(before).insert(at as nat, value));
    }
}

/// Reads slot `at`, which is empty where the row is too short to have it.
fn lookup<T: Copy>(slots: &Vec<Option<T>>, at: u32) -> (found: Option<T>)
    ensures
        found == recorded(slots@).get(at as nat),
{
    let at: usize = at as usize;
    if at < slots.len() {
        slots[at]
    } else {
        None
    }
}

/// Side table of the source positions of a tree's nodes. It starts empty, an
/// entry may be missing for any node, and asking for a missing one is no
/// error.
#[derive(Clone, Debug, PartialEq, Eq, Hash)]
pub struct Spans {
    expr_spans: Vec<Option<Span>>,
    named_expr_spans: Vec<Option<NamedExprSpan>>,
    block_spans: Vec<Option<Span>>,
}

impl Spans {
    /// The positions recorded for expressions, by the handle's position.
    pub closed spec fn expr_spans(&self) -> Map<nat, Span> {
        recorded(self.expr_spans@)
    }

    /// The positions recorded for named arguments, by the handle's position.
    pub closed spec fn named_expr_spans(&self) -> Map<nat, NamedExprSpan> {
        recorded(self.named_expr_spans@)
    }

    /// The positions recorded for blocks, by the handle's position.
    pub closed spec fn block_spans(&self) -> Map<nat, Span> {
        recorded(self.block_spans@)
    }

    /// Nothing is recorded.
    pub open spec fn is_empty(&self) -> bool {
        &&& self.expr_spans() == Map::<nat, Span>::empty()
        &&& self.named_expr_spans() == Map::<nat, NamedExprSpan>::empty()
        &&& self.block_spans() == Map::<nat, Span>::empty()
    }

    /// A table in which nothing is recorded.
    pub fn new() -> (s: Spans)
        ensures
            s.is_empty(),
    {
        let s = Spans {
            expr_spans: Vec::new(),
            named_expr_spans: Vec::new(),
            block_spans: Vec::new(),
        };
        proof {
            assert(s.expr_spans() =~= Map::<nat, Span>::empty());
            assert(s.named_expr_spans() =~= Map::<nat, NamedExprSpan>::empty());
            assert(s.block_spans() =~= Map::<nat, Span>::empty());
        }
        s
    }

    /// Forgets every recorded position.
    pub fn clear(&mut self)
        ensures
            final(self).is_empty(),
    {
        *self = Spans::new();
    }

    /// Records where expression `h` was written, in place of any earlier
    /// entry for it.
    pub fn set_expr_span(&mut self, h: Expr, span: Span)
        ensures
            final(self).expr_spans() == old(self).expr_spans().insert(h.index(), span),
            final(self).named_expr_spans() == old(self).named_expr_spans(),
            final(self).block_spans() == old(self).block_spans(),
    {
        record(&mut self.expr_spans, h.as_u32(), span);
    }

    /// Records where named argument `h` and its name were written, in place
    /// of any earlier entry for it.
    pub fn set_named_expr_span(&mut self, h: NamedExpr, span: Span, name_span: Span)
        ensures
            final(self).named_expr_spans() == old(self).named_expr_spans().insert(
                h.index(),
                (NamedExprSpan { span, name_span }),
            ),
            final(self).expr_spans() == old(self).expr_spans(),
            final(self).block_spans() == old(self).block_spans(),
    {
        record(&mut self.named_expr_spans, h.as_u32(), NamedExprSpan { span, name_span });
    }

    /// Records where block `h` was written, in place of any earlier entry
    /// for it.
    pub fn set_block_span(&mut self, h: Block, span: Span)
        ensures
            final(self).block_spans() == old(self).block_spans().insert(h.index(), span),
            final(self).expr_spans() == old(self).expr_spans(),
            final(self).named_expr_spans() == old(self).named_expr_spans(),
    {
        record(&mut self.block_spans, h.as_u32(), span);
    }

    /// Where expression `h` was written, if that was recorded.
    pub fn expr_span(&self, h: Expr) -> (found: Option<Span>)
        ensures
            found == self.expr_spans().get(h.index()),
    {
        lookup(&self.expr_spans, h.as_u32())
    }

    /// Where named argument `h` and its name were written, if that was
    /// recorded.
    pub fn named_expr_span(&self, h: NamedExpr) -> (found: Option<NamedExprSpan>)
        ensures
            found == self.named_expr_spans().get(h.index()),
    {
        lookup(&self.named_expr_spans, h.as_u32())
    }

    /// Where block `h` was written, if that was recorded.
    pub fn block_span(&self, h: Block) -> (found: Option<Span>)
        ensures
            found == self.block_spans().get(h.index()),
    {
        lookup(&self.block_spans, h.as_u32())
    }
}

impl Default for Spans {
    fn default() -> (s: Spans)
        ensures
            s.is_empty(),
    {
        Spans::new()
    }
}

} // verus!
