//! Lowering of statements, statement lists and whole programs.
use vstd::prelude::*;
use vstd::string::StringExecFns;
use crate::ast::{Expr, Stmt};
use crate::expr::{lower_arguments, lower_expr, translate_arguments_vec, translate_expr};
use crate::ir::{Construct, Diagnostic, Node, ParamNode, Tree, nodes_upto, texts};

verus! {

/// The binding node of a named definition.
pub open spec fn def_node(
    name: Seq<char>,
    params: (Seq<ParamNode>, Seq<Diagnostic>),
    body: (Node, Seq<Diagnostic>),
) -> (Node, Seq<Diagnostic>) {
    (Node::LetRec(name, params.0, Box::new(body.0)), params.1 + body.1)
}

/// The loop node shared by `for` and `while`.
pub open spec fn loop_node(
    init: (Node, Seq<Diagnostic>),
    condition: (Node, Seq<Diagnostic>),
    body: (Node, Seq<Diagnostic>),
    post: (Node, Seq<Diagnostic>),
) -> (Node, Seq<Diagnostic>) {
    (
        Node::While(Box::new(init.0), Box::new(condition.0), Box::new(body.0), Box::new(post.0)),
        init.1 + condition.1 + body.1 + post.1,
    )
}

/// The translation of an optional expression: Unit when it is absent.
pub open spec fn lower_opt_expr(e: Option<Expr>) -> (Node, Seq<Diagnostic>) {
    match e {
        Some(x) => lower_expr(x),
        None => (Node::Unit, Seq::empty()),
    }
}

/// The translation of a statement, and the diagnostics it gives, in order.
pub open spec fn lower_stmt(s: Stmt) -> (Node, Seq<Diagnostic>)
    decreases s,
{
    match s {
        Stmt::FunctionDef { name, args, body } => def_node(
            name@,
            lower_arguments(*args),
            lower_block(body@, body@.len()),
        ),
        Stmt::AsyncFunctionDef { name, args, body } => def_node(
            name@,
            lower_arguments(*args),
            lower_block(body@, body@.len()),
        ),
        Stmt::ClassDef { name, body } => {
            let b = lower_block(body@, body@.len());
            (Node::Class(name@, Seq::empty(), None, Seq::empty(), Box::new(b.0)), b.1)
        },
        Stmt::Return { value } => match value {
            Some(e) => (Node::Return(Box::new(lower_expr(e).0)), lower_expr(e).1),
            None => (Node::Unit, Seq::empty()),
        },
        Stmt::For { target, iter, body, orelse } => loop_node(
            lower_expr(target),
            lower_expr(iter),
            lower_block(body@, body@.len()),
            lower_block(orelse@, orelse@.len()),
        ),
        Stmt::AsyncFor { target, iter, body, orelse } => loop_node(
            lower_expr(target),
            lower_expr(iter),
            lower_block(body@, body@.len()),
            lower_block(orelse@, orelse@.len()),
        ),
        Stmt::While { test, body, orelse } => loop_node(
            (Node::Unit, Seq::empty()),
            lower_expr(test),
            lower_block(body@, body@.len()),
            lower_block(orelse@, orelse@.len()),
        ),
        Stmt::If { test, body, orelse } => {
            let t = lower_expr(test);
            let b = lower_block(body@, body@.len());
            let o = lower_block(orelse@, orelse@.len());
            (Node::If(Box::new(t.0), Box::new(b.0), Box::new(o.0)), t.1 + b.1 + o.1)
        },
        Stmt::Assert { test, msg } => {
            let t = lower_expr(test);
            let m = lower_opt_expr(msg);
            (Node::Assert(Box::new(t.0), Box::new(m.0)), t.1 + m.1)
        },
        Stmt::Import { names } => (Node::Import(texts(names@)), Seq::empty()),
        Stmt::Expr { value } => lower_expr(value),
        Stmt::Pass => (Node::Unit, Seq::empty()),
        Stmt::Break => (Node::Break, Seq::empty()),
        Stmt::Continue => (Node::Continue, Seq::empty()),
        Stmt::Unsupported { kind, offset } => (
            Node::Unsupported,
            seq![Diagnostic::Unsupported { construct: Construct::Statement(kind), offset }],
        ),
    }
}

/// The translation of the first `n` statements of `s`: Unit for none, the
/// statement's own translation for one, and for more a sequencing chain
/// built from the left.
pub open spec fn lower_block(s: Seq<Stmt>, n: nat) -> (Node, Seq<Diagnostic>)
    decreases s, n,
{
    if n == 0 || n > s.len() {
        (Node::Unit, Seq::empty())
    } else if n == 1 {
        lower_stmt(s[0])
    } else {
        let prev = lower_block(s, (n - 1) as nat);
        let x = lower_stmt(s[n - 1]);
        (Node::Stmts(Box::new(prev.0), Box::new(x.0)), prev.1 + x.1)
    }
}

/// The translation of a whole program.
pub open spec fn lower_program(s: Seq<Stmt>) -> (Node, Seq<Diagnostic>) {
    lower_block(s, s.len())
}

/// The result of lowering a program: the IR root and every compromise made.
#[derive(Debug)]
pub struct Lowering {
    pub root: Tree,
    pub diagnostics: Vec<Diagnostic>,
}

/// A copy of a list of names, element by element.
fn copy_names(names: &Vec<String>) -> (r: Vec<String>)
    ensures
        r@ == names@,
{
    let mut r: Vec<String> = Vec::new();
    let mut i: usize = 0;
    while i < names.len()
        invariant
            i <= names.len(),
            r@ == names@.subrange(0, i as int),
        decreases names.len() - i,
    {
        r.push(names[i].clone());
        i = i + 1;
    }
    assert(r@ =~= names@);
    r
}

/// Translates an optional expression: Unit when it is absent.
fn translate_opt_expr(e: &Option<Expr>, diags: &mut Vec<Diagnostic>) -> (r: Tree)
    ensures
        r.node() == lower_opt_expr(*e).0,
        final(diags)@ == old(diags)@ + lower_opt_expr(*e).1,
{
    match e {
        Some(x) => translate_expr(x, diags),
        None => {
            assert(diags@ =~= old(diags)@ + lower_opt_expr(*e).1);
            Tree::Unit
        },
    }
}

/// Lowers a named definition to a binding node.
fn translate_def(stmt: &Stmt, diags: &mut Vec<Diagnostic>) -> (r: Tree)
    requires
        *stmt is FunctionDef || *stmt is AsyncFunctionDef,
    ensures
        r.node() == lower_stmt(*stmt).0,
        final(diags)@ == old(diags)@ + lower_stmt(*stmt).1,
    decreases stmt, 0nat,
{
    let ghost d0 = old(diags)@;
    match stmt {
        Stmt::FunctionDef { name, args, body } | Stmt::AsyncFunctionDef { name, args, body } => {
            let params = translate_arguments_vec(args, diags);
            let b = translate_stmt_list(body, diags);
            proof {
                assert(diags@ =~= d0 + lower_stmt(*stmt).1);
            }
            Tree::LetRec { name: name.clone(), params, body: Box::new(b) }
        },
        _ => Tree::Unit,
    }
}

/// Lowers a class definition; its attribute list, superclass and interfaces stay empty.
fn translate_class(stmt: &Stmt, diags: &mut Vec<Diagnostic>) -> (r: Tree)
    requires
        *stmt is ClassDef,
    ensures
        r.node() == lower_stmt(*stmt).0,
        final(diags)@ == old(diags)@ + lower_stmt(*stmt).1,
    decreases stmt, 0nat,
{
    let ghost d0 = old(diags)@;
    match stmt {
        Stmt::ClassDef { name, body } => {
            let b = translate_stmt_list(body, diags);
            let attributes: Vec<String> = Vec::new();
            let implements: Vec<Tree> = Vec::new();
            proof {
                assert(texts(attributes@) =~= Seq::empty());
                assert(nodes_upto(implements@, 0) =~= Seq::empty());
            }
            Tree::Class { name: name.clone(), attributes, extends: None, implements, body: Box::new(b) }
        },
        _ => Tree::Unit,
    }
}

/// Lowers a `for` loop to the shared loop node: init is the target,
/// condition the iterable.
fn translate_for(stmt: &Stmt, diags: &mut Vec<Diagnostic>) -> (r: Tree)
    requires
        *stmt is For || *stmt is AsyncFor,
    ensures
        r.node() == lower_stmt(*stmt).0,
        final(diags)@ == old(diags)@ + lower_stmt(*stmt).1,
    decreases stmt, 0nat,
{
    let ghost d0 = old(diags)@;
    let (target, iter, body, orelse) = match stmt {
        Stmt::For { target, iter, body, orelse } => (target, iter, body, orelse),
        Stmt::AsyncFor { target, iter, body, orelse } => (target, iter, body, orelse),
        _ => {
            return Tree::Unit;
        },
    };
    let ghost l = loop_node(
        lower_expr(*target),
        lower_expr(*iter),
        lower_block(body@, body@.len()),
        lower_block(orelse@, orelse@.len()),
    );
    assert(lower_stmt(*stmt) == l);
    let init = translate_expr(target, diags);
    let condition = translate_expr(iter, diags);
    let b = translate_stmt_list(body, diags);
    let post = translate_stmt_list(orelse, diags);
    proof {
        assert(diags@ =~= d0 + l.1);
    }
    Tree::While {
        init: Box::new(init),
        condition: Box::new(condition),
        body: Box::new(b),
        post: Box::new(post),
    }
}

/// Lowers an `if` statement to the conditional node.
fn translate_if(stmt: &Stmt, diags: &mut Vec<Diagnostic>) -> (r: Tree)
    requires
        *stmt is If,
    ensures
        r.node() == lower_stmt(*stmt).0,
        final(diags)@ == old(diags)@ + lower_stmt(*stmt).1,
    decreases stmt, 0nat,
{
    let ghost d0 = old(diags)@;
    match stmt {
        Stmt::If { test, body, orelse } => {
            let t = translate_expr(test, diags);
            let b = translate_stmt_list(body, diags);
            let o = translate_stmt_list(orelse, diags);
            proof {
                assert(diags@ =~= d0 + lower_stmt(*stmt).1);
            }
            Tree::If { condition: Box::new(t), then: Box::new(b), els: Box::new(o) }
        },
        _ => Tree::Unit,
    }
}

/// Translates a statement, appending its diagnostics to `diags`: an
/// unsupported statement becomes `Tree::Unsupported` with a diagnostic.
pub fn translate_stmt(stmt: &Stmt, diags: &mut Vec<Diagnostic>) -> (r: Tree)
    ensures
        r.node() == lower_stmt(*stmt).0,
        final(diags)@ == old(diags)@ + lower_stmt(*stmt).1,
    decreases stmt, 1nat,
{
    let ghost d0 = old(diags)@;
    match stmt {
        Stmt::FunctionDef { .. } | Stmt::AsyncFunctionDef { .. } => translate_def(stmt, diags),
        Stmt::ClassDef { .. } => translate_class(stmt, diags),
        Stmt::For { .. } | Stmt::AsyncFor { .. } => translate_for(stmt, diags),
        Stmt::While { test, body, orelse } => {
            let condition = translate_expr(test, diags);
            let b = translate_stmt_list(body, diags);
            let post = translate_stmt_list(orelse, diags);
            let init = Tree::Unit;
            proof {
                assert(init.node() == Node::Unit);
                assert(diags@ =~= d0 + lower_stmt(*stmt).1);
            }
            Tree::While {
                init: Box::new(init),
                condition: Box::new(condition),
                body: Box::new(b),
                post: Box::new(post),
            }
        },
        Stmt::If { .. } => translate_if(stmt, diags),
        Stmt::Return { value } => match value {
            Some(e) => Tree::Return { value: Box::new(translate_expr(e, diags)) },
            None => {
                assert(diags@ =~= d0 + lower_stmt(*stmt).1);
                Tree::Unit
            },
        },
        Stmt::Assert { test, msg } => {
            let t = translate_expr(test, diags);
            let m = translate_opt_expr(msg, diags);
            proof {
                assert(diags@ =~= d0 + lower_stmt(*stmt).1);
            }
            Tree::Assert { condition: Box::new(t), message: Box::new(m) }
        },
        Stmt::Import { names } => {
            assert(diags@ =~= d0 + lower_stmt(*stmt).1);
            Tree::Import { items: copy_names(names) }
        },
        Stmt::Expr { value } => translate_expr(value, diags),
        Stmt::Pass => {
            assert(diags@ =~= d0 + lower_stmt(*stmt).1);
            Tree::Unit
        },
        Stmt::Break => {
            assert(diags@ =~= d0 + lower_stmt(*stmt).1);
            Tree::Break
        },
        Stmt::Continue => {
            assert(diags@ =~= d0 + lower_stmt(*stmt).1);
            Tree::Continue
        },
        Stmt::Unsupported { kind, offset } => {
            diags.push(Diagnostic::Unsupported { construct: Construct::Statement(*kind), offset: *offset });
            Tree::Unsupported
        },
    }
}

/// Translates a statement list into one tree: Unit for an empty list, the
/// statement's own tree for one, a left-built sequencing chain for more.
pub fn translate_stmt_list(stmts: &Vec<Stmt>, diags: &mut Vec<Diagnostic>) -> (r: Tree)
    ensures
        r.node() == lower_block(stmts@, stmts@.len()).0,
        final(diags)@ == old(diags)@ + lower_block(stmts@, stmts@.len()).1,
    decreases stmts,
{
    let ghost d0 = old(diags)@;
    let n = stmts.len();
    if n == 0 {
        assert(diags@ =~= d0 + lower_block(stmts@, 0).1);
        return Tree::Unit;
    }
    proof {
        assert(decreases_to!(*stmts => stmts@));
        assert(decreases_to!(stmts@ => stmts@[0]));
    }
    let mut res = translate_stmt(&stmts[0], diags);
    let mut i: usize = 1;
    while i < n
        invariant
            n == stmts.len(),
            1 <= i <= n,
            res.node() == lower_block(stmts@, i as nat).0,
            diags@ == d0 + lower_block(stmts@, i as nat).1,
        decreases n - i,
    {
        proof {
            assert(decreases_to!(*stmts => stmts@));
            assert(decreases_to!(stmts@ => stmts@[i as int]));
        }
        let x = translate_stmt(&stmts[i], diags);
        res = Tree::Stmts { first: Box::new(res), second: Box::new(x) };
        i = i + 1;
        proof {
            assert(diags@ =~= d0 + lower_block(stmts@, i as nat).1);
        }
    }
    res
}

/// Lowers a whole program, collecting every diagnostic in the order met.
pub fn lower_module(stmts: &Vec<Stmt>) -> (r: Lowering)
    ensures
        r.root.node() == lower_program(stmts@).0,
        r.diagnostics@ == lower_program(stmts@).1,
{
    let mut diagnostics: Vec<Diagnostic> = Vec::new();
    let root = translate_stmt_list(stmts, &mut diagnostics);
    assert(diagnostics@ =~= lower_program(stmts@).1);
    Lowering { root, diagnostics }
}

} // verus!
