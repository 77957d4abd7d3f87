use dada_ir::spans::{NamedExprSpan, Spans};
use dada_ir::span::Span;
use dada_ir::syntax::{
    Block, BlockData, Expr, ExprData, NamedExpr, NamedExprData, Tables, Tree,
};
use dada_ir::word::{Op, StorageMode, Word};

fn span(start: u32, end: u32) -> Span {
    Span { start, end }
}

#[test]
fn new_tables_are_empty_and_closed() {
    let t = Tables::new();
    assert_eq!(t.expr_count(), 0);
    assert_eq!(t.named_expr_count(), 0);
    assert_eq!(t.block_count(), 0);
    assert!(t.is_closed_under_handles());
    assert_eq!(t.error_count(), 0);
}

#[test]
fn handles_are_dense_and_increasing() {
    let mut t = Tables::new();
    let a = t.add_expr(ExprData::BooleanLiteral(true));
    let b = t.add_expr(ExprData::Id(Word(7)));
    let c = t.add_expr(ExprData::Await(a));
    assert_eq!(a.as_u32(), 0);
    assert_eq!(b.as_u32(), 1);
    assert_eq!(c.as_u32(), 2);
    assert!(a < b && b < c);
    assert_eq!(t.expr_count(), 3);
    let n = t.add_named_expr(NamedExprData { name: Word(1), expr: a });
    assert_eq!(n.as_u32(), 0);
    let k = t.add_block(BlockData { exprs: vec![a, b] });
    assert_eq!(k.as_u32(), 0);
    assert_eq!(t.expr_count(), 3);
    assert_eq!(t.named_expr_count(), 1);
    assert_eq!(t.block_count(), 1);
}

#[test]
fn records_stay_after_later_allocations() {
    let mut t = Tables::new();
    let a = t.add_expr(ExprData::IntegerLiteral(Word(1)));
    let n = t.add_named_expr(NamedExprData { name: Word(9), expr: a });
    let k = t.add_block(BlockData { exprs: vec![a] });
    let first = t.expr(a).clone();
    let first_named = t.named_expr(n).clone();
    let first_block = t.block(k).clone();
    for i in 0..50u32 {
        t.add_expr(ExprData::Id(Word(i)));
        t.add_named_expr(NamedExprData { name: Word(i), expr: a });
        t.add_block(BlockData { exprs: vec![] });
    }
    assert_eq!(*t.expr(a), first);
    assert_eq!(*t.expr(a), ExprData::IntegerLiteral(Word(1)));
    assert_eq!(*t.named_expr(n), first_named);
    assert_eq!(*t.block(k), first_block);
    assert_eq!(t.expr_count(), 51);
}

#[test]
fn block_keeps_statement_order() {
    let mut t = Tables::new();
    let a = t.add_expr(ExprData::Id(Word(1)));
    let b = t.add_expr(ExprData::Id(Word(2)));
    let c = t.add_expr(ExprData::Id(Word(3)));
    let k = t.add_block(BlockData { exprs: vec![c, a, b] });
    assert_eq!(t.block(k).exprs, vec![c, a, b]);
}

#[test]
fn contains_tells_issued_handles_from_others() {
    let mut t = Tables::new();
    assert!(!t.contains_expr(Expr::from_u32(0)));
    let a = t.add_expr(ExprData::Error);
    assert!(t.contains_expr(a));
    assert!(!t.contains_expr(Expr::from_u32(1)));
    assert!(!t.contains_named_expr(NamedExpr::from_u32(0)));
    assert!(!t.contains_block(Block::from_u32(0)));
    let n = t.add_named_expr(NamedExprData { name: Word(0), expr: a });
    let k = t.add_block(BlockData { exprs: vec![] });
    assert!(t.contains_named_expr(n));
    assert!(t.contains_block(k));
}

#[test]
fn expr_data_fits_checks_every_handle() {
    let mut t = Tables::new();
    let a = t.add_expr(ExprData::Id(Word(1)));
    let b = t.add_expr(ExprData::Id(Word(2)));
    let n = t.add_named_expr(NamedExprData { name: Word(3), expr: b });
    let k = t.add_block(BlockData { exprs: vec![a] });
    let out = Expr::from_u32(2);
    let out_named = NamedExpr::from_u32(1);
    let out_block = Block::from_u32(1);
    assert!(t.expr_data_fits(&ExprData::Id(Word(0))));
    assert!(t.expr_data_fits(&ExprData::BooleanLiteral(false)));
    assert!(t.expr_data_fits(&ExprData::StringLiteral(Word(0))));
    assert!(t.expr_data_fits(&ExprData::Error));
    assert!(t.expr_data_fits(&ExprData::Dot(a, Word(0))));
    assert!(!t.expr_data_fits(&ExprData::Dot(out, Word(0))));
    assert!(t.expr_data_fits(&ExprData::Share(b)));
    assert!(!t.expr_data_fits(&ExprData::Lease(out)));
    assert!(!t.expr_data_fits(&ExprData::Give(out)));
    assert!(t.expr_data_fits(&ExprData::Var(StorageMode::Var, Word(0), a)));
    assert!(!t.expr_data_fits(&ExprData::Parenthesized(out)));
    assert!(t.expr_data_fits(&ExprData::If(a, b, None)));
    assert!(t.expr_data_fits(&ExprData::If(a, b, Some(a))));
    assert!(!t.expr_data_fits(&ExprData::If(a, b, Some(out))));
    assert!(!t.expr_data_fits(&ExprData::If(a, out, None)));
    assert!(!t.expr_data_fits(&ExprData::If(out, b, None)));
    assert!(t.expr_data_fits(&ExprData::While(a, b)));
    assert!(!t.expr_data_fits(&ExprData::While(a, out)));
    assert!(t.expr_data_fits(&ExprData::Op(a, Op::Plus, b)));
    assert!(!t.expr_data_fits(&ExprData::Op(out, Op::Plus, b)));
    assert!(!t.expr_data_fits(&ExprData::OpEq(a, Op::Minus, out)));
    assert!(t.expr_data_fits(&ExprData::Assign(a, b)));
    assert!(t.expr_data_fits(&ExprData::Block(k)));
    assert!(!t.expr_data_fits(&ExprData::Block(out_block)));
    assert!(t.expr_data_fits(&ExprData::Call(a, vec![])));
    assert!(t.expr_data_fits(&ExprData::Call(a, vec![n, n])));
    assert!(!t.expr_data_fits(&ExprData::Call(a, vec![n, out_named])));
    assert!(!t.expr_data_fits(&ExprData::Call(out, vec![n])));
    assert!(t.block_data_fits(&BlockData { exprs: vec![a, b] }));
    assert!(!t.block_data_fits(&BlockData { exprs: vec![a, out] }));
}

#[test]
fn bottom_up_construction_stays_closed() {
    let mut t = Tables::new();
    let callee = t.add_expr(ExprData::Id(Word(1)));
    let arg = t.add_expr(ExprData::IntegerLiteral(Word(2)));
    let named = t.add_named_expr(NamedExprData { name: Word(3), expr: arg });
    let call = t.add_expr(ExprData::Call(callee, vec![named]));
    let block = t.add_block(BlockData { exprs: vec![call] });
    let root = t.add_expr(ExprData::Block(block));
    assert!(t.is_closed_under_handles());
    let tree = Tree { tables: t, root_expr: root };
    assert!(tree.is_well_formed());
    assert_eq!(*tree.root(), ExprData::Block(block));
}

#[test]
fn dangling_handles_are_found() {
    let mut t = Tables::new();
    t.add_expr(ExprData::Await(Expr::from_u32(5)));
    assert!(!t.is_closed_under_handles());

    let mut t = Tables::new();
    t.add_named_expr(NamedExprData { name: Word(0), expr: Expr::from_u32(0) });
    assert!(!t.is_closed_under_handles());

    let mut t = Tables::new();
    let a = t.add_expr(ExprData::Error);
    t.add_block(BlockData { exprs: vec![a, Expr::from_u32(1)] });
    assert!(!t.is_closed_under_handles());

    let mut t = Tables::new();
    t.add_expr(ExprData::Error);
    let tree = Tree { tables: t, root_expr: Expr::from_u32(1) };
    assert!(!tree.is_well_formed());
}

#[test]
fn malformed_part_is_one_error_node() {
    // `x := <garbage>` inside an otherwise sound body
    let mut t = Tables::new();
    let x = t.add_expr(ExprData::Id(Word(1)));
    let bad = t.add_expr(ExprData::Error);
    let assign = t.add_expr(ExprData::Assign(x, bad));
    let y = t.add_expr(ExprData::Id(Word(2)));
    let block = t.add_block(BlockData { exprs: vec![assign, y] });
    let root = t.add_expr(ExprData::Block(block));
    let tree = Tree { tables: t, root_expr: root };
    assert!(tree.is_well_formed());
    assert_eq!(tree.tables.error_count(), 1);
    assert_eq!(*tree.tables.expr(bad), ExprData::Error);
    assert_eq!(*tree.root(), ExprData::Block(block));
}

#[test]
fn error_count_counts_only_error_nodes() {
    let mut t = Tables::new();
    t.add_expr(ExprData::Error);
    t.add_expr(ExprData::Id(Word(0)));
    t.add_expr(ExprData::Error);
    t.add_expr(ExprData::Error);
    t.add_expr(ExprData::BooleanLiteral(true));
    assert_eq!(t.error_count(), 3);
}

#[test]
fn equal_construction_gives_equal_trees() {
    let build = || {
        let mut t = Tables::new();
        let a = t.add_expr(ExprData::IntegerLiteral(Word(4)));
        let root = t.add_expr(ExprData::Parenthesized(a));
        Tree { tables: t, root_expr: root }
    };
    assert_eq!(build(), build());
}

#[test]
fn spans_start_empty_and_absence_is_no_error() {
    let s = Spans::new();
    assert_eq!(s.expr_span(Expr::from_u32(0)), None);
    assert_eq!(s.expr_span(Expr::from_u32(4_000_000_000)), None);
    assert_eq!(s.named_expr_span(NamedExpr::from_u32(3)), None);
    assert_eq!(s.block_span(Block::from_u32(3)), None);
    assert_eq!(Spans::default(), Spans::new());
}

#[test]
fn spans_set_then_get() {
    let mut s = Spans::new();
    let e = Expr::from_u32(3);
    s.set_expr_span(e, span(10, 20));
    assert_eq!(s.expr_span(e), Some(span(10, 20)));
    assert_eq!(s.expr_span(Expr::from_u32(2)), None);
    assert_eq!(s.expr_span(Expr::from_u32(4)), None);
    assert_eq!(s.block_span(Block::from_u32(3)), None);
    s.set_expr_span(e, span(11, 21));
    assert_eq!(s.expr_span(e), Some(span(11, 21)));
    s.set_expr_span(Expr::from_u32(0), span(1, 2));
    assert_eq!(s.expr_span(Expr::from_u32(0)), Some(span(1, 2)));
    assert_eq!(s.expr_span(e), Some(span(11, 21)));

    let b = Block::from_u32(1);
    s.set_block_span(b, span(5, 6));
    assert_eq!(s.block_span(b), Some(span(5, 6)));
    assert_eq!(s.expr_span(Expr::from_u32(1)), None);
}

#[test]
fn named_argument_has_two_spans() {
    let mut s = Spans::new();
    let n = NamedExpr::from_u32(2);
    s.set_named_expr_span(n, span(4, 12), span(4, 7));
    assert_eq!(
        s.named_expr_span(n),
        Some(NamedExprSpan { span: span(4, 12), name_span: span(4, 7) })
    );
    assert_eq!(s.named_expr_span(NamedExpr::from_u32(1)), None);
    assert_eq!(s.expr_span(Expr::from_u32(2)), None);
}

#[test]
fn clear_forgets_every_span() {
    let mut s = Spans::new();
    s.set_expr_span(Expr::from_u32(1), span(1, 2));
    s.set_named_expr_span(NamedExpr::from_u32(0), span(1, 9), span(1, 3));
    s.set_block_span(Block::from_u32(0), span(0, 9));
    s.clear();
    assert_eq!(s.expr_span(Expr::from_u32(1)), None);
    assert_eq!(s.named_expr_span(NamedExpr::from_u32(0)), None);
    assert_eq!(s.block_span(Block::from_u32(0)), None);
}
