//! Lowering of expressions and parameter lists.
use vstd::prelude::*;
use vstd::string::StringExecFns;
use crate::ast::{Arguments, BoolOp, CmpOp, Comparison, Expr, Operator, Parameter, UnaryOp};
use crate::constant::{constant_node, extract_constant};
use crate::ir::{
    Construct, Diagnostic, Node, Param, ParamKind, ParamNode, Tree, lemma_nodes_upto,
    lemma_params_upto, nodes_upto, params_upto,
};

verus! {

/// The node that a boolean operator builds from its two operands.
pub open spec fn bool_node(op: BoolOp, a: Node, b: Node) -> Node {
    match op {
        BoolOp::And => Node::And(Box::new(a), Box::new(b)),
        BoolOp::Or => Node::Or(Box::new(a), Box::new(b)),
    }
}

/// The node for `a op b`, for the four arithmetic operators that the IR has.
pub open spec fn arith_node(op: Operator, a: Node, b: Node) -> Option<Node> {
    match op {
        Operator::Add => Some(Node::Add(Box::new(a), Box::new(b))),
        Operator::Sub => Some(Node::Sub(Box::new(a), Box::new(b))),
        Operator::Mult => Some(Node::Mul(Box::new(a), Box::new(b))),
        Operator::Div => Some(Node::Div(Box::new(a), Box::new(b))),
        _ => None,
    }
}

/// The node for the single comparison `a op b`, written with Eq, LE, In,
/// Not, And and Or alone.
pub open spec fn cmp_node(op: CmpOp, a: Node, b: Node) -> Node {
    let eq = Node::Eq(Box::new(a), Box::new(b));
    let le = Node::LE(Box::new(a), Box::new(b));
    let is_in = Node::In(Box::new(a), Box::new(b));
    match op {
        CmpOp::Eq => eq,
        CmpOp::NotEq => Node::Not(Box::new(eq)),
        CmpOp::Lt => Node::And(Box::new(le), Box::new(Node::Not(Box::new(eq)))),
        CmpOp::LtE => le,
        CmpOp::Gt => Node::Not(Box::new(le)),
        CmpOp::GtE => Node::Or(Box::new(le), Box::new(eq)),
        CmpOp::Is => eq,
        CmpOp::IsNot => Node::Not(Box::new(eq)),
        CmpOp::In => is_in,
        CmpOp::NotIn => Node::Not(Box::new(is_in)),
    }
}

/// Whether the comparison's node holds each operand twice.
pub open spec fn uses_operands_twice(op: CmpOp) -> bool {
    op is Lt || op is GtE
}

/// The translation of an expression, and the diagnostics it gives, in order.
pub open spec fn lower_expr(e: Expr) -> (Node, Seq<Diagnostic>)
    decreases e,
{
    match e {
        Expr::BoolOp { op, first, rest } => lower_bool_chain(op, lower_expr(*first), rest@, rest@.len()),
        Expr::BinOp { left, op, right, offset } => {
            let l = lower_expr(*left);
            let r = lower_expr(*right);
            match arith_node(op, l.0, r.0) {
                Some(n) => (n, l.1 + r.1),
                None => (
                    Node::Unsupported,
                    seq![Diagnostic::Unsupported { construct: Construct::BinaryOperator(op), offset }],
                ),
            }
        },
        Expr::UnaryOp { op, operand, offset } => {
            let x = lower_expr(*operand);
            match op {
                UnaryOp::Not => (Node::Not(Box::new(x.0)), x.1),
                UnaryOp::USub => (Node::Neg(Box::new(x.0)), x.1),
                _ => (
                    Node::Unsupported,
                    seq![Diagnostic::Unsupported { construct: Construct::UnaryOperator(op), offset }],
                ),
            }
        },
        Expr::Lambda { args, body } => {
            let a = lower_arguments(*args);
            let b = lower_expr(*body);
            (Node::LetRec("lambda"@, a.0, Box::new(b.0)), a.1 + b.1)
        },
        Expr::IfExp { test, body, orelse } => {
            let t = lower_expr(*test);
            let b = lower_expr(*body);
            let o = lower_expr(*orelse);
            (Node::If(Box::new(t.0), Box::new(b.0), Box::new(o.0)), t.1 + b.1 + o.1)
        },
        Expr::Compare { left, comparisons } => lower_comparisons(
            lower_expr(*left),
            comparisons@,
            comparisons@.len(),
        ),
        Expr::Call { func, args, keywords, offset } => {
            let callee = match *func {
                Expr::Name(id) => (Node::Ident(id@), Seq::<Diagnostic>::empty()),
                _ => (Node::Unsupported, seq![Diagnostic::Unsupported { construct: Construct::Callee, offset }]),
            };
            let a = lower_exprs(args@, args@.len());
            let dropped = if keywords.len() == 0 {
                Seq::<Diagnostic>::empty()
            } else {
                seq![Diagnostic::KeywordArgumentsDropped { count: keywords.len(), offset }]
            };
            (Node::App(Box::new(callee.0), a.0), callee.1 + a.1 + dropped)
        },
        Expr::Constant(c) => (constant_node(c), Seq::empty()),
        Expr::Name(id) => (Node::Ident(id@), Seq::empty()),
        Expr::Unsupported { kind, offset } => (
            Node::Unsupported,
            seq![Diagnostic::Unsupported { construct: Construct::Expression(kind), offset }],
        ),
    }
}

/// `acc op s[0] op ... op s[n - 1]`, folded from the left.
pub open spec fn lower_bool_chain(
    op: BoolOp,
    acc: (Node, Seq<Diagnostic>),
    s: Seq<Expr>,
    n: nat,
) -> (Node, Seq<Diagnostic>)
    decreases s, n,
{
    if n == 0 || n > s.len() {
        acc
    } else {
        let prev = lower_bool_chain(op, acc, s, (n - 1) as nat);
        let x = lower_expr(s[n - 1]);
        (bool_node(op, prev.0, x.0), prev.1 + x.1)
    }
}

/// The conjunction of the first `n` pairwise comparisons of the chain that
/// starts with the operand `left` (already translated) and goes on with `s`.
pub open spec fn lower_comparisons(
    left: (Node, Seq<Diagnostic>),
    s: Seq<Comparison>,
    n: nat,
) -> (Node, Seq<Diagnostic>)
    decreases s, n,
{
    if n == 0 || n > s.len() {
        left
    } else {
        let prev = lower_comparisons(left, s, (n - 1) as nat);
        let right = lower_expr(s[n - 1].right);
        if n == 1 {
            (cmp_node(s[0].op, left.0, right.0), prev.1 + right.1)
        } else {
            let pair = cmp_node(s[n - 1].op, lower_expr(s[n - 2].right).0, right.0);
            (Node::And(Box::new(prev.0), Box::new(pair)), prev.1 + right.1)
        }
    }
}

/// The translations of the first `n` expressions of `s`, each on its own.
pub open spec fn lower_exprs(s: Seq<Expr>, n: nat) -> (Seq<Node>, Seq<Diagnostic>)
    decreases s, n,
{
    if n == 0 || n > s.len() {
        (Seq::empty(), Seq::empty())
    } else {
        let prev = lower_exprs(s, (n - 1) as nat);
        let x = lower_expr(s[n - 1]);
        (prev.0.push(x.0), prev.1 + x.1)
    }
}

/// The descriptor of a named parameter of the given kind.
pub open spec fn param_node(p: Parameter, kind: ParamKind) -> ParamNode
    decreases p,
{
    ParamNode {
        name: p.name@,
        kind,
        default: match p.default {
            Some(d) => Some(lower_expr(*d).0),
            None => None,
        },
    }
}

/// The diagnostics of a parameter's default value.
pub open spec fn param_diags(p: Parameter) -> Seq<Diagnostic>
    decreases p,
{
    match p.default {
        Some(d) => lower_expr(*d).1,
        None => Seq::empty(),
    }
}

/// The descriptors of the first `n` parameters of a group, all of one kind.
pub open spec fn lower_params(s: Seq<Parameter>, kind: ParamKind, n: nat) -> (
    Seq<ParamNode>,
    Seq<Diagnostic>,
)
    decreases s, n,
{
    if n == 0 || n > s.len() {
        (Seq::empty(), Seq::empty())
    } else {
        let prev = lower_params(s, kind, (n - 1) as nat);
        (prev.0.push(param_node(s[n - 1], kind)), prev.1 + param_diags(s[n - 1]))
    }
}

/// The descriptor of a collector parameter (`*args`, `**kwargs`), if present.
pub open spec fn collector_node(name: Option<String>, kind: ParamKind) -> Seq<ParamNode> {
    match name {
        Some(n) => seq![ParamNode { name: n@, kind, default: None }],
        None => Seq::empty(),
    }
}

/// The parameter descriptors of a parameter list, in call-binding order:
/// positional-only, positional, `*args`, keyword-only, `**kwargs`.
pub open spec fn lower_arguments(a: Arguments) -> (Seq<ParamNode>, Seq<Diagnostic>)
    decreases a,
{
    let p = lower_params(a.posonlyargs@, ParamKind::PositionalOnly, a.posonlyargs@.len());
    let q = lower_params(a.args@, ParamKind::Positional, a.args@.len());
    let k = lower_params(a.kwonlyargs@, ParamKind::KeywordOnly, a.kwonlyargs@.len());
    (
        p.0 + q.0 + collector_node(a.vararg, ParamKind::VarPositional) + k.0 + collector_node(
            a.kwarg,
            ParamKind::VarKeyword,
        ),
        p.1 + q.1 + k.1,
    )
}

/// `lower_exprs` lists the translations of a prefix, one by one.
pub proof fn lemma_lower_exprs(s: Seq<Expr>, n: nat)
    requires
        n <= s.len(),
    ensures
        lower_exprs(s, n).0.len() == n,
        forall|j: int| 0 <= j < n ==> #[trigger] lower_exprs(s, n).0[j] == lower_expr(s[j]).0,
    decreases n,
{
    if n > 0 {
        lemma_lower_exprs(s, (n - 1) as nat);
    }
}

/// `lower_params` lists the descriptors of a prefix, one by one.
pub proof fn lemma_lower_params(s: Seq<Parameter>, kind: ParamKind, n: nat)
    requires
        n <= s.len(),
    ensures
        lower_params(s, kind, n).0.len() == n,
        forall|j: int| 0 <= j < n ==> #[trigger] lower_params(s, kind, n).0[j] == param_node(s[j], kind),
    decreases n,
{
    if n > 0 {
        lemma_lower_params(s, kind, (n - 1) as nat);
    }
}

/// The name of a callee, when it is a plain name.
pub fn extract_name(expr: &Expr) -> (r: Option<String>)
    ensures
        match *expr {
            Expr::Name(id) => r == Some(id),
            _ => r is None,
        },
{
    match expr {
        Expr::Name(id) => Some(id.clone()),
        _ => None,
    }
}

fn eq_tree(a: Tree, b: Tree) -> (r: Tree)
    ensures
        r.node() == Node::Eq(Box::new(a.node()), Box::new(b.node())),
{
    Tree::Eq { left: Box::new(a), right: Box::new(b) }
}

fn le_tree(a: Tree, b: Tree) -> (r: Tree)
    ensures
        r.node() == Node::LE(Box::new(a.node()), Box::new(b.node())),
{
    Tree::LE { left: Box::new(a), right: Box::new(b) }
}

fn in_tree(a: Tree, b: Tree) -> (r: Tree)
    ensures
        r.node() == Node::In(Box::new(a.node()), Box::new(b.node())),
{
    Tree::In { left: Box::new(a), right: Box::new(b) }
}

fn not_tree(a: Tree) -> (r: Tree)
    ensures
        r.node() == Node::Not(Box::new(a.node())),
{
    Tree::Not { expr: Box::new(a) }
}

/// Builds the node of one comparison from its translated operands; where the
/// node holds an operand twice, the second copy comes in `a2` or `b2`.
fn compare_pair(op: CmpOp, a: Tree, a2: Option<Tree>, b: Tree, b2: Option<Tree>) -> (r: Tree)
    requires
        uses_operands_twice(op) ==> a2 is Some && b2 is Some,
        a2 matches Some(t) ==> t.node() == a.node(),
        b2 matches Some(t) ==> t.node() == b.node(),
    ensures
        r.node() == cmp_node(op, a.node(), b.node()),
{
    match op {
        CmpOp::Eq => eq_tree(a, b),
        CmpOp::Is => eq_tree(a, b),
        CmpOp::NotEq => not_tree(eq_tree(a, b)),
        CmpOp::IsNot => not_tree(eq_tree(a, b)),
        CmpOp::Lt => {
            let le = le_tree(a, b);
            let ne = not_tree(eq_tree(a2.unwrap(), b2.unwrap()));
            Tree::And { left: Box::new(le), right: Box::new(ne) }
        },
        CmpOp::LtE => le_tree(a, b),
        CmpOp::Gt => not_tree(le_tree(a, b)),
        CmpOp::GtE => {
            let le = le_tree(a, b);
            let eq = eq_tree(a2.unwrap(), b2.unwrap());
            Tree::Or { left: Box::new(le), right: Box::new(eq) }
        },
        CmpOp::In => in_tree(a, b),
        CmpOp::NotIn => not_tree(in_tree(a, b)),
    }
}

fn uses_twice(op: CmpOp) -> (r: bool)
    ensures
        r == uses_operands_twice(op),
{
    match op {
        CmpOp::Lt | CmpOp::GtE => true,
        _ => false,
    }
}

/// Folds a boolean-operator chain from the left.
fn translate_bool_chain(expr: &Expr, diags: &mut Vec<Diagnostic>) -> (r: Tree)
    requires
        *expr is BoolOp,
    ensures
        r.node() == lower_expr(*expr).0,
        final(diags)@ == old(diags)@ + lower_expr(*expr).1,
    decreases expr, 0nat,
{
    let ghost d0 = old(diags)@;
    match expr {
        Expr::BoolOp { op, first, rest } => {
            let ghost start = lower_expr(**first);
            let mut res = translate_expr(first, diags);
            let mut i: usize = 0;
            while i < rest.len()
                invariant
                    *expr is BoolOp,
                    expr->BoolOp_rest == *rest,
                    i <= rest.len(),
                    res.node() == lower_bool_chain(*op, start, rest@, i as nat).0,
                    diags@ == d0 + lower_bool_chain(*op, start, rest@, i as nat).1,
                decreases rest.len() - i,
            {
                proof {
                    assert(decreases_to!(*expr => expr->BoolOp_rest));
                    assert(decreases_to!(*rest => rest@));
                    assert(decreases_to!(rest@ => rest@[i as int]));
                }
                let x = translate_expr(&rest[i], diags);
                res = match op {
                    BoolOp::And => Tree::And { left: Box::new(res), right: Box::new(x) },
                    BoolOp::Or => Tree::Or { left: Box::new(res), right: Box::new(x) },
                };
                i = i + 1;
                proof {
                    assert(diags@ =~= d0 + lower_bool_chain(*op, start, rest@, i as nat).1);
                }
            }
            res
        },
        _ => Tree::Unit,
    }
}

/// Lowers a comparison chain to the conjunction of its pairwise comparisons.
fn translate_compare(expr: &Expr, diags: &mut Vec<Diagnostic>) -> (r: Tree)
    requires
        *expr is Compare,
    ensures
        r.node() == lower_expr(*expr).0,
        final(diags)@ == old(diags)@ + lower_expr(*expr).1,
    decreases expr, 0nat,
{
    let ghost d0 = old(diags)@;
    match expr {
        Expr::Compare { left, comparisons } => {
            let ghost start = lower_expr(**left);
            let first = translate_expr(left, diags);
            let n = comparisons.len();
            if n == 0 {
                assert(lower_expr(*expr) == lower_comparisons(lower_expr(**left), comparisons@, comparisons@.len()));
                return first;
            }
            let mut scratch: Vec<Diagnostic> = Vec::new();
            let mut prev = first;
            let mut res = Tree::Unit;
            let mut i: usize = 0;
            while i < n
                invariant
                    *expr is Compare,
                    expr->Compare_comparisons == *comparisons,
                    expr->Compare_left == *left,
                    start == lower_expr(**left),
                    n == comparisons.len(),
                    i <= n,
                    i > 0 ==> res.node() == lower_comparisons(start, comparisons@, i as nat).0,
                    diags@ == d0 + lower_comparisons(start, comparisons@, i as nat).1,
                    i < n ==> prev.node() == (if i == 0 {
                        start.0
                    } else {
                        lower_expr(comparisons@[i - 1].right).0
                    }),
                decreases n - i,
            {
                proof {
                    assert(decreases_to!(*expr => expr->Compare_comparisons));
                    assert(decreases_to!(*comparisons => comparisons@));
                    assert(decreases_to!(comparisons@ => comparisons@[i as int]));
                    if i > 0 {
                        assert(decreases_to!(comparisons@ => comparisons@[i - 1]));
                    }
                }
                let c = &comparisons[i];
                let twice = uses_twice(c.op);
                let a2 = if !twice {
                    None
                } else if i == 0 {
                    Some(translate_expr(left, &mut scratch))
                } else {
                    Some(translate_expr(&comparisons[i - 1].right, &mut scratch))
                };
                let b = translate_expr(&c.right, diags);
                let b2 = if twice {
                    Some(translate_expr(&c.right, &mut scratch))
                } else {
                    None
                };
                let next = if i + 1 < n {
                    translate_expr(&c.right, &mut scratch)
                } else {
                    Tree::Unit
                };
                let pair = compare_pair(c.op, prev, a2, b, b2);
                res = if i == 0 {
                    pair
                } else {
                    Tree::And { left: Box::new(res), right: Box::new(pair) }
                };
                prev = next;
                i = i + 1;
                proof {
                    assert(diags@ =~= d0 + lower_comparisons(start, comparisons@, i as nat).1);
                }
            }
            res
        },
        _ => Tree::Unit,
    }
}

/// Lowers a call of a named function; keyword arguments are dropped, with a
/// diagnostic.
fn translate_call(expr: &Expr, diags: &mut Vec<Diagnostic>) -> (r: Tree)
    requires
        *expr is Call,
    ensures
        r.node() == lower_expr(*expr).0,
        final(diags)@ == old(diags)@ + lower_expr(*expr).1,
    decreases expr, 0nat,
{
    let ghost d0 = old(diags)@;
    match expr {
        Expr::Call { func, args, keywords, offset } => {
            let fun = match extract_name(func) {
                Some(name) => Tree::Ident { value: name },
                None => {
                    diags.push(Diagnostic::Unsupported { construct: Construct::Callee, offset: *offset });
                    Tree::Unsupported
                },
            };
            assert(fun.node() == (match **func {
                Expr::Name(id) => Node::Ident(id@),
                _ => Node::Unsupported,
            }));
            let elems = translate_exprs(args, diags);
            if keywords.len() > 0 {
                diags.push(Diagnostic::KeywordArgumentsDropped { count: keywords.len(), offset: *offset });
            }
            proof {
                assert(diags@ =~= d0 + lower_expr(*expr).1);
            }
            Tree::App { fun: Box::new(fun), args: elems }
        },
        _ => Tree::Unit,
    }
}

/// Translates expressions one by one, in order.
fn translate_exprs(es: &Vec<Expr>, diags: &mut Vec<Diagnostic>) -> (r: Vec<Tree>)
    ensures
        nodes_upto(r@, r@.len()) == lower_exprs(es@, es@.len()).0,
        final(diags)@ == old(diags)@ + lower_exprs(es@, es@.len()).1,
    decreases es,
{
    let ghost d0 = old(diags)@;
    let mut elems: Vec<Tree> = Vec::new();
    let mut i: usize = 0;
    while i < es.len()
        invariant
            i <= es.len(),
            elems@.len() == i,
            forall|j: int| 0 <= j < i ==> #[trigger] elems@[j].node() == lower_expr(es@[j]).0,
            diags@ == d0 + lower_exprs(es@, i as nat).1,
        decreases es.len() - i,
    {
        proof {
            assert(decreases_to!(*es => es@));
            assert(decreases_to!(es@ => es@[i as int]));
        }
        let x = translate_expr(&es[i], diags);
        elems.push(x);
        i = i + 1;
        proof {
            assert(diags@ =~= d0 + lower_exprs(es@, i as nat).1);
        }
    }
    proof {
        lemma_nodes_upto(elems@, elems@.len());
        lemma_lower_exprs(es@, es@.len());
        assert(nodes_upto(elems@, elems@.len()) =~= lower_exprs(es@, es@.len()).0);
    }
    elems
}

/// Translates an expression, appending its diagnostics to `diags`: an
/// unsupported construct becomes `Tree::Unsupported` with a diagnostic.
pub fn translate_expr(expr: &Expr, diags: &mut Vec<Diagnostic>) -> (r: Tree)
    ensures
        r.node() == lower_expr(*expr).0,
        final(diags)@ == old(diags)@ + lower_expr(*expr).1,
    decreases expr, 1nat,
{
    let ghost d0 = old(diags)@;
    match expr {
        Expr::BoolOp { .. } => translate_bool_chain(expr, diags),
        Expr::BinOp { left, op, right, offset } => {
            let supported = match op {
                Operator::Add | Operator::Sub | Operator::Mult | Operator::Div => true,
                _ => false,
            };
            if !supported {
                diags.push(Diagnostic::Unsupported { construct: Construct::BinaryOperator(*op), offset: *offset });
                return Tree::Unsupported;
            }
            let l = translate_expr(left, diags);
            let r = translate_expr(right, diags);
            proof {
                assert(diags@ =~= d0 + lower_expr(*expr).1);
            }
            match op {
                Operator::Add => Tree::Add { left: Box::new(l), right: Box::new(r) },
                Operator::Sub => Tree::Sub { left: Box::new(l), right: Box::new(r) },
                Operator::Mult => Tree::Mul { left: Box::new(l), right: Box::new(r) },
                _ => Tree::Div { left: Box::new(l), right: Box::new(r) },
            }
        },
        Expr::UnaryOp { op, operand, offset } => match op {
            UnaryOp::Not => Tree::Not { expr: Box::new(translate_expr(operand, diags)) },
            UnaryOp::USub => Tree::Neg { expr: Box::new(translate_expr(operand, diags)) },
            _ => {
                diags.push(Diagnostic::Unsupported { construct: Construct::UnaryOperator(*op), offset: *offset });
                Tree::Unsupported
            },
        },
        Expr::Lambda { args, body } => {
            let params = translate_arguments_vec(args, diags);
            let b = translate_expr(body, diags);
            proof {
                assert(diags@ =~= d0 + lower_expr(*expr).1);
            }
            Tree::LetRec { name: String::from_str("lambda"), params, body: Box::new(b) }
        },
        Expr::IfExp { test, body, orelse } => {
            let t = translate_expr(test, diags);
            let b = translate_expr(body, diags);
            let o = translate_expr(orelse, diags);
            proof {
                assert(diags@ =~= d0 + lower_expr(*expr).1);
            }
            Tree::If { condition: Box::new(t), then: Box::new(b), els: Box::new(o) }
        },
        Expr::Compare { .. } => translate_compare(expr, diags),
        Expr::Call { .. } => translate_call(expr, diags),
        Expr::Constant(c) => {
            assert(diags@ =~= d0 + lower_expr(*expr).1);
            extract_constant(c)
        },
        Expr::Name(id) => {
            assert(diags@ =~= d0 + lower_expr(*expr).1);
            Tree::Ident { value: id.clone() }
        },
        Expr::Unsupported { kind, offset } => {
            diags.push(Diagnostic::Unsupported { construct: Construct::Expression(*kind), offset: *offset });
            Tree::Unsupported
        },
    }
}

/// Translates one group of named parameters, all of one kind.
fn translate_params(group: &Vec<Parameter>, kind: ParamKind, diags: &mut Vec<Diagnostic>) -> (r: Vec<Param>)
    ensures
        r@.len() == group@.len(),
        forall|j: int| 0 <= j < r@.len() ==> #[trigger] r@[j].node() == param_node(group@[j], kind),
        final(diags)@ == old(diags)@ + lower_params(group@, kind, group@.len()).1,
    decreases group,
{
    let ghost d0 = old(diags)@;
    let mut r: Vec<Param> = Vec::new();
    let mut i: usize = 0;
    while i < group.len()
        invariant
            i <= group.len(),
            r@.len() == i,
            forall|j: int| 0 <= j < i ==> #[trigger] r@[j].node() == param_node(group@[j], kind),
            diags@ == d0 + lower_params(group@, kind, i as nat).1,
        decreases group.len() - i,
    {
        let p = &group[i];
        let ghost before = diags@;
        let default = match &p.default {
            Some(d) => {
                proof {
                    assert(decreases_to!(*group => group@));
                    assert(decreases_to!(group@ => group@[i as int]));
                    assert(decreases_to!(group@[i as int] => group@[i as int].default));
                }
                Some(Box::new(translate_expr(d, diags)))
            },
            None => None,
        };
        assert(diags@ =~= before + param_diags(group@[i as int]));
        r.push(Param { name: p.name.clone(), kind, default });
        i = i + 1;
        proof {
            assert(diags@ =~= d0 + lower_params(group@, kind, i as nat).1);
        }
    }
    r
}

/// The descriptor of a collector parameter, if present.
fn collector(name: &Option<String>, kind: ParamKind) -> (r: Vec<Param>)
    ensures
        params_upto(r@, r@.len()) == collector_node(*name, kind),
{
    let mut r: Vec<Param> = Vec::new();
    if let Some(n) = name {
        r.push(Param { name: n.clone(), kind, default: None });
    }
    proof {
        lemma_params_upto(r@, r@.len());
        assert(params_upto(r@, r@.len()) =~= collector_node(*name, kind));
    }
    r
}

/// Translates a parameter list into its descriptors, in call-binding order:
/// positional-only, positional, `*args`, keyword-only, `**kwargs`, each with
/// its translated default value.
pub fn translate_arguments_vec(args: &Arguments, diags: &mut Vec<Diagnostic>) -> (r: Vec<Param>)
    ensures
        params_upto(r@, r@.len()) == lower_arguments(*args).0,
        final(diags)@ == old(diags)@ + lower_arguments(*args).1,
    decreases args,
{
    let ghost d0 = old(diags)@;
    let mut r = translate_params(&args.posonlyargs, ParamKind::PositionalOnly, diags);
    let mut q = translate_params(&args.args, ParamKind::Positional, diags);
    let mut v = collector(&args.vararg, ParamKind::VarPositional);
    let mut k = translate_params(&args.kwonlyargs, ParamKind::KeywordOnly, diags);
    let mut w = collector(&args.kwarg, ParamKind::VarKeyword);
    let ghost r0 = r@;
    let ghost q0 = q@;
    let ghost v0 = v@;
    let ghost k0 = k@;
    let ghost w0 = w@;
    r.append(&mut q);
    r.append(&mut v);
    r.append(&mut k);
    r.append(&mut w);
    proof {
        let a = *args;
        lemma_params_upto(r@, r@.len());
        lemma_params_upto(v0, v0.len());
        lemma_params_upto(w0, w0.len());
        lemma_lower_params(a.posonlyargs@, ParamKind::PositionalOnly, a.posonlyargs@.len());
        lemma_lower_params(a.args@, ParamKind::Positional, a.args@.len());
        lemma_lower_params(a.kwonlyargs@, ParamKind::KeywordOnly, a.kwonlyargs@.len());
        assert(r@ == r0 + q0 + v0 + k0 + w0);
        assert(params_upto(r@, r@.len()) =~= lower_arguments(a).0);
        assert(diags@ =~= d0 + lower_arguments(a).1);
    }
    r
}

} // verus!
