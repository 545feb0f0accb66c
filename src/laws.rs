//! Properties of the lowering pass, stated over the spec functions that the
//! translators' contracts use, and proved.
use vstd::prelude::*;
use crate::ast::{Constant, Expr, ExprKind, Stmt, StmtKind};
use crate::constant::{bool_text, constant_node, constant_nodes_upto, lemma_constant_nodes_upto, quoted};
use crate::expr::{bool_node, cmp_node, lower_bool_chain, lower_comparisons, lower_expr};
use crate::ir::Node;
use crate::stmt::{lower_block, lower_stmt};

verus! {

/// The value that a constant denotes, with text and bytes as sequences.
pub enum ConstValue {
    Null,
    Bool(bool),
    Str(Seq<char>),
    Bytes(Seq<u8>),
    Int(Seq<char>),
    Tuple(Seq<ConstValue>),
    Float(Seq<char>),
    Complex(Seq<char>, Seq<char>),
    Ellipsis,
}

/// The value that a constant denotes.
pub open spec fn constant_value(c: Constant) -> ConstValue
    decreases c,
{
    match c {
        Constant::Null => ConstValue::Null,
        Constant::Bool(b) => ConstValue::Bool(b),
        Constant::Str(s) => ConstValue::Str(s@),
        Constant::Bytes(b) => ConstValue::Bytes(b@),
        Constant::Int(t) => ConstValue::Int(t@),
        Constant::Tuple(cs) => ConstValue::Tuple(constant_values_upto(cs@, cs@.len())),
        Constant::Float(t) => ConstValue::Float(t@),
        Constant::Complex { real: re, imag: im } => ConstValue::Complex(re@, im@),
        Constant::Ellipsis => ConstValue::Ellipsis,
    }
}

/// The values of the first `n` constants of `s`.
pub open spec fn constant_values_upto(s: Seq<Constant>, n: nat) -> Seq<ConstValue>
    decreases s, n,
{
    if n == 0 || n > s.len() {
        Seq::empty()
    } else {
        constant_values_upto(s, (n - 1) as nat).push(constant_value(s[n - 1]))
    }
}

proof fn lemma_constant_values_upto(s: Seq<Constant>, n: nat)
    requires
        n <= s.len(),
    ensures
        constant_values_upto(s, n).len() == n,
        forall|j: int| 0 <= j < n ==> #[trigger] constant_values_upto(s, n)[j] == constant_value(s[j]),
    decreases n,
{
    if n > 0 {
        lemma_constant_values_upto(s, (n - 1) as nat);
    }
}

/// Lowering a constant loses nothing: two constants with the same literal
/// node denote the same value (a string keeps its text between the quotes,
/// a tuple each element).
pub proof fn lemma_constant_lowering_injective(c1: Constant, c2: Constant)
    requires
        constant_node(c1) == constant_node(c2),
    ensures
        constant_value(c1) == constant_value(c2),
    decreases c1,
{
    match (c1, c2) {
        (Constant::Bool(a), Constant::Bool(b)) => {
            reveal_strlit("true");
            reveal_strlit("false");
            assert(bool_text(a).len() != bool_text(b).len() || a == b);
        },
        (Constant::Str(a), Constant::Str(b)) => {
            assert(a@ =~= quoted(a@).subrange(1, quoted(a@).len() - 1));
            assert(b@ =~= quoted(b@).subrange(1, quoted(b@).len() - 1));
        },
        (Constant::Tuple(a), Constant::Tuple(b)) => {
            lemma_constant_nodes_upto(a@, a@.len());
            lemma_constant_nodes_upto(b@, b@.len());
            lemma_constant_values_upto(a@, a@.len());
            lemma_constant_values_upto(b@, b@.len());
            assert forall|j: int| 0 <= j < a@.len() implies constant_values_upto(a@, a@.len())[j]
                == constant_values_upto(b@, b@.len())[j] by {
                assert(constant_nodes_upto(a@, a@.len())[j] == constant_nodes_upto(b@, b@.len())[j]);
                assert(decreases_to!(c1 => a));
                assert(decreases_to!(a => a@));
                assert(decreases_to!(a@ => a@[j]));
                lemma_constant_lowering_injective(a@[j], b@[j]);
            }
            assert(constant_values_upto(a@, a@.len()) =~= constant_values_upto(b@, b@.len()));
        },
        _ => {},
    }
}

/// A chain of two comparisons `a op b op' c` lowers to the conjunction of
/// the two pairwise comparisons, `b` translated in each.
pub proof fn lemma_comparison_chain_pairs(e: Expr)
    requires
        e is Compare,
        e->Compare_comparisons@.len() == 2,
    ensures
        ({
            let s = e->Compare_comparisons@;
            let a = lower_expr(*e->Compare_left).0;
            let b = lower_expr(s[0].right).0;
            let c = lower_expr(s[1].right).0;
            lower_expr(e).0 == Node::And(
                Box::new(cmp_node(s[0].op, a, b)),
                Box::new(cmp_node(s[1].op, b, c)),
            )
        }),
{
    let s = e->Compare_comparisons@;
    let l = lower_expr(*e->Compare_left);
    assert(lower_comparisons(l, s, 1).0 == cmp_node(s[0].op, l.0, lower_expr(s[0].right).0));
    assert(lower_expr(e) == lower_comparisons(l, s, 2));
}

/// A boolean-operator chain folds from the left: `a` alone is the
/// translation of `a`, `a op b` is `op(a, b)`, `a op b op c` is
/// `op(op(a, b), c)`.
pub proof fn lemma_bool_chain_folds_left(e: Expr)
    requires
        e is BoolOp,
    ensures
        ({
            let op = e->BoolOp_op;
            let s = e->BoolOp_rest@;
            let a = lower_expr(*e->BoolOp_first).0;
            &&& s.len() == 0 ==> lower_expr(e).0 == a
            &&& s.len() == 1 ==> lower_expr(e).0 == bool_node(op, a, lower_expr(s[0]).0)
            &&& s.len() == 2 ==> lower_expr(e).0 == bool_node(
                op,
                bool_node(op, a, lower_expr(s[0]).0),
                lower_expr(s[1]).0,
            )
        }),
{
    let op = e->BoolOp_op;
    let s = e->BoolOp_rest@;
    let a = lower_expr(*e->BoolOp_first);
    assert(lower_expr(e) == lower_bool_chain(op, a, s, s.len()));
    assert(lower_bool_chain(op, a, s, 0) == a);
    if s.len() >= 1 {
        assert(lower_bool_chain(op, a, s, 1).0 == bool_node(op, a.0, lower_expr(s[0]).0));
    }
}

/// A statement list lowers to Unit when empty, to its statement's own
/// translation when it has one, and to a left-built sequencing chain when it
/// has three.
pub proof fn lemma_statement_list_shape(s: Seq<Stmt>)
    ensures
        s.len() == 0 ==> lower_block(s, s.len()).0 == Node::Unit,
        s.len() == 1 ==> lower_block(s, s.len()).0 == lower_stmt(s[0]).0,
        s.len() == 3 ==> lower_block(s, s.len()).0 == Node::Stmts(
            Box::new(Node::Stmts(Box::new(lower_stmt(s[0]).0), Box::new(lower_stmt(s[1]).0))),
            Box::new(lower_stmt(s[2]).0),
        ),
{
    reveal_with_fuel(lower_block, 3);
}

/// A `for` loop without an else clause lowers to the loop node with the
/// target as init, the iterable as condition, the body, and Unit as post.
pub proof fn lemma_for_loop_shape(st: Stmt)
    requires
        st is For,
        st->For_orelse@.len() == 0,
    ensures
        lower_stmt(st).0 == Node::While(
            Box::new(lower_expr(st->For_target).0),
            Box::new(lower_expr(st->For_iter).0),
            Box::new(lower_block(st->For_body@, st->For_body@.len()).0),
            Box::new(Node::Unit),
        ),
{
}

/// An unsupported expression gives a diagnostic and a placeholder that
/// differs from the translation of `pass`.
pub proof fn lemma_unsupported_expression_reported(kind: ExprKind, offset: u32)
    ensures
        lower_expr(Expr::Unsupported { kind, offset }).0 != lower_stmt(Stmt::Pass).0,
        lower_expr(Expr::Unsupported { kind, offset }).1.len() > 0,
{
}

/// An unsupported statement gives a diagnostic and a placeholder that
/// differs from the translation of `pass`.
pub proof fn lemma_unsupported_statement_reported(kind: StmtKind, offset: u32)
    ensures
        lower_stmt(Stmt::Unsupported { kind, offset }).0 != lower_stmt(Stmt::Pass).0,
        lower_stmt(Stmt::Unsupported { kind, offset }).1.len() > 0,
{
}

/// `assert x` and `assert x, m` share the translation of `x` and differ only
/// in the message: Unit for the first, the translation of `m` for the second.
pub proof fn lemma_assert_message_slot(x: Expr, m: Expr)
    ensures
        lower_stmt(Stmt::Assert { test: x, msg: None }).0 == Node::Assert(
            Box::new(lower_expr(x).0),
            Box::new(Node::Unit),
        ),
        lower_stmt(Stmt::Assert { test: x, msg: Some(m) }).0 == Node::Assert(
            Box::new(lower_expr(x).0),
            Box::new(lower_expr(m).0),
        ),
{
}

} // verus!
