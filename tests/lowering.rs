use pylower::ast::{
    Arguments, BoolOp, CmpOp, Comparison, Constant, Expr, ExprKind, Keyword, Operator, Parameter,
    Stmt, StmtKind, UnaryOp,
};
use pylower::constant::extract_constant;
use pylower::expr::{extract_name, translate_arguments_vec, translate_expr};
use pylower::ir::{Construct, Diagnostic, Param, ParamKind, Tree};
use pylower::stmt::{lower_module, translate_stmt, translate_stmt_list};

fn name(s: &str) -> Expr {
    Expr::Name(s.to_string())
}

fn num(s: &str) -> Expr {
    Expr::Constant(Constant::Int(s.to_string()))
}

fn unsupported(kind: ExprKind, offset: u32) -> Expr {
    Expr::Unsupported { kind, offset }
}

fn reported(construct: Construct, offset: u32) -> Diagnostic {
    Diagnostic::Unsupported { construct, offset }
}

fn ident(s: &str) -> Tree {
    Tree::Ident { value: s.to_string() }
}

fn num_t(s: &str) -> Tree {
    Tree::Int { value: s.to_string() }
}

fn bx(t: Tree) -> Box<Tree> {
    Box::new(t)
}

fn lower(e: &Expr) -> (Tree, Vec<Diagnostic>) {
    let mut d = Vec::new();
    let t = translate_expr(e, &mut d);
    (t, d)
}

fn lower_s(s: &Stmt) -> (Tree, Vec<Diagnostic>) {
    let mut d = Vec::new();
    let t = translate_stmt(s, &mut d);
    (t, d)
}

fn no_args() -> Arguments {
    Arguments { posonlyargs: vec![], args: vec![], vararg: None, kwonlyargs: vec![], kwarg: None }
}

fn expr_stmt(e: Expr) -> Stmt {
    Stmt::Expr { value: e }
}

fn compare(left: Expr, links: Vec<(CmpOp, Expr)>) -> Expr {
    Expr::Compare {
        left: Box::new(left),
        comparisons: links.into_iter().map(|(op, right)| Comparison { op, right }).collect(),
    }
}

fn and_t(a: Tree, b: Tree) -> Tree {
    Tree::And { left: bx(a), right: bx(b) }
}

fn or_t(a: Tree, b: Tree) -> Tree {
    Tree::Or { left: bx(a), right: bx(b) }
}

fn eq_t(a: Tree, b: Tree) -> Tree {
    Tree::Eq { left: bx(a), right: bx(b) }
}

fn le_t(a: Tree, b: Tree) -> Tree {
    Tree::LE { left: bx(a), right: bx(b) }
}

fn not_t(a: Tree) -> Tree {
    Tree::Not { expr: bx(a) }
}

fn in_t(a: Tree, b: Tree) -> Tree {
    Tree::In { left: bx(a), right: bx(b) }
}

#[test]
fn string_constant_is_quoted() {
    let t = extract_constant(&Constant::Str("abc".to_string()));
    assert_eq!(t, Tree::Str { value: "\"abc\"".to_string() });
    if let Tree::Str { value } = t {
        assert_eq!(value.chars().count(), 5);
    }
}

#[test]
fn scalar_constants() {
    assert_eq!(extract_constant(&Constant::Null), Tree::Unit);
    assert_eq!(extract_constant(&Constant::Bool(true)), Tree::Bool { value: "true".to_string() });
    assert_eq!(extract_constant(&Constant::Bool(false)), Tree::Bool { value: "false".to_string() });
    assert_eq!(extract_constant(&Constant::Int("42".to_string())), num_t("42"));
    assert_eq!(
        extract_constant(&Constant::Float("2.5".to_string())),
        Tree::Float { value: "2.5".to_string() }
    );
    assert_eq!(
        extract_constant(&Constant::Complex { real: "0".to_string(), imag: "1".to_string() }),
        Tree::Complex { real: "0".to_string(), imag: "1".to_string() }
    );
    assert_eq!(extract_constant(&Constant::Ellipsis), Tree::Ellipsis);
    assert_ne!(extract_constant(&Constant::Ellipsis), Tree::Unit);
}

#[test]
fn bytes_and_tuple_constants() {
    assert_eq!(
        extract_constant(&Constant::Bytes(vec![0, 7, 255])),
        Tree::Bytes { elems: vec![0, 7, 255] }
    );
    let t = extract_constant(&Constant::Tuple(vec![
        Constant::Int("1".to_string()),
        Constant::Str("x".to_string()),
        Constant::Tuple(vec![]),
    ]));
    assert_eq!(
        t,
        Tree::Tuple {
            elems: vec![
                num_t("1"),
                Tree::Str { value: "\"x\"".to_string() },
                Tree::Tuple { elems: vec![] },
            ]
        }
    );
}

#[test]
fn different_strings_stay_different() {
    assert_ne!(
        extract_constant(&Constant::Str("a".to_string())),
        extract_constant(&Constant::Str("b".to_string()))
    );
    assert_ne!(
        extract_constant(&Constant::Int("1".to_string())),
        extract_constant(&Constant::Float("1".to_string()))
    );
}

#[test]
fn chained_comparison_is_a_conjunction_of_pairs() {
    let e = compare(num("1"), vec![(CmpOp::Lt, num("2")), (CmpOp::Lt, num("3"))]);
    let (t, d) = lower(&e);
    let lt = |a: &str, b: &str| and_t(le_t(num_t(a), num_t(b)), not_t(eq_t(num_t(a), num_t(b))));
    assert_eq!(t, and_t(lt("1", "2"), lt("2", "3")));
    assert!(d.is_empty());
}

#[test]
fn three_link_comparison_chain() {
    let e = compare(
        name("a"),
        vec![(CmpOp::Eq, name("b")), (CmpOp::LtE, name("c")), (CmpOp::In, name("d"))],
    );
    let (t, _) = lower(&e);
    assert_eq!(
        t,
        and_t(
            and_t(eq_t(ident("a"), ident("b")), le_t(ident("b"), ident("c"))),
            in_t(ident("c"), ident("d"))
        )
    );
}

#[test]
fn comparator_table() {
    let a = || ident("a");
    let b = || ident("b");
    let cases = vec![
        (CmpOp::Eq, eq_t(a(), b())),
        (CmpOp::NotEq, not_t(eq_t(a(), b()))),
        (CmpOp::Lt, and_t(le_t(a(), b()), not_t(eq_t(a(), b())))),
        (CmpOp::LtE, le_t(a(), b())),
        (CmpOp::Gt, not_t(le_t(a(), b()))),
        (CmpOp::GtE, or_t(le_t(a(), b()), eq_t(a(), b()))),
        (CmpOp::Is, eq_t(a(), b())),
        (CmpOp::IsNot, not_t(eq_t(a(), b()))),
        (CmpOp::In, in_t(a(), b())),
        (CmpOp::NotIn, not_t(in_t(a(), b()))),
    ];
    for (op, expected) in cases {
        let (t, d) = lower(&compare(name("a"), vec![(op, name("b"))]));
        assert_eq!(t, expected);
        assert!(d.is_empty());
    }
}

#[test]
fn comparison_operand_diagnostic_reported_once() {
    let e = compare(
        name("a"),
        vec![(CmpOp::Lt, unsupported(ExprKind::Dict, 4)), (CmpOp::Lt, name("c"))],
    );
    let (_, d) = lower(&e);
    assert_eq!(d, vec![reported(Construct::Expression(ExprKind::Dict), 4)]);
}

#[test]
fn bool_chains_fold_left() {
    let chain = |rest: Vec<Expr>| Expr::BoolOp {
        op: BoolOp::And,
        first: Box::new(name("a")),
        rest,
    };
    assert_eq!(lower(&chain(vec![])).0, ident("a"));
    assert_eq!(lower(&chain(vec![name("b")])).0, and_t(ident("a"), ident("b")));
    assert_eq!(
        lower(&chain(vec![name("b"), name("c")])).0,
        and_t(and_t(ident("a"), ident("b")), ident("c"))
    );
}

#[test]
fn and_inside_or_keeps_precedence() {
    let e = Expr::BoolOp {
        op: BoolOp::Or,
        first: Box::new(Expr::BoolOp {
            op: BoolOp::And,
            first: Box::new(name("a")),
            rest: vec![name("b")],
        }),
        rest: vec![name("c")],
    };
    assert_eq!(lower(&e).0, or_t(and_t(ident("a"), ident("b")), ident("c")));
}

#[test]
fn statement_lists() {
    let mut d = Vec::new();
    assert_eq!(translate_stmt_list(&vec![], &mut d), Tree::Unit);
    assert_eq!(translate_stmt_list(&vec![expr_stmt(name("x"))], &mut d), ident("x"));
    let three = vec![expr_stmt(name("x")), Stmt::Break, expr_stmt(num("1"))];
    assert_eq!(
        translate_stmt_list(&three, &mut d),
        Tree::Stmts {
            first: bx(Tree::Stmts { first: bx(ident("x")), second: bx(Tree::Break) }),
            second: bx(num_t("1")),
        }
    );
    assert!(d.is_empty());
}

#[test]
fn pass_first_is_still_sequenced() {
    let mut d = Vec::new();
    let t = translate_stmt_list(&vec![Stmt::Pass, expr_stmt(name("x"))], &mut d);
    assert_eq!(t, Tree::Stmts { first: bx(Tree::Unit), second: bx(ident("x")) });
}

#[test]
fn for_loop_lowers_to_loop_node() {
    let range3 = Expr::Call {
        func: Box::new(name("range")),
        args: vec![num("3")],
        keywords: vec![],
        offset: 9,
    };
    let s = Stmt::For {
        target: name("x"),
        iter: range3,
        body: vec![expr_stmt(name("body"))],
        orelse: vec![],
    };
    let (t, d) = lower_s(&s);
    assert_eq!(
        t,
        Tree::While {
            init: bx(ident("x")),
            condition: bx(Tree::App { fun: bx(ident("range")), args: vec![num_t("3")] }),
            body: bx(ident("body")),
            post: bx(Tree::Unit),
        }
    );
    assert!(d.is_empty());
}

#[test]
fn while_loop_has_unit_init_and_else_as_post() {
    let s = Stmt::While {
        test: name("c"),
        body: vec![Stmt::Continue],
        orelse: vec![expr_stmt(name("e"))],
    };
    let (t, _) = lower_s(&s);
    assert_eq!(
        t,
        Tree::While {
            init: bx(Tree::Unit),
            condition: bx(ident("c")),
            body: bx(Tree::Continue),
            post: bx(ident("e")),
        }
    );
}

#[test]
fn async_forms_lower_like_sync_ones() {
    let f = |is_async: bool| {
        let body = vec![Stmt::Pass];
        if is_async {
            Stmt::AsyncFunctionDef { name: "g".to_string(), args: Box::new(no_args()), body }
        } else {
            Stmt::FunctionDef { name: "g".to_string(), args: Box::new(no_args()), body }
        }
    };
    assert_eq!(lower_s(&f(true)).0, lower_s(&f(false)).0);
}

#[test]
fn dict_literal_is_reported() {
    let (t, d) = lower(&unsupported(ExprKind::Dict, 0));
    assert_eq!(t, Tree::Unsupported);
    assert_ne!(t, lower_s(&Stmt::Pass).0);
    assert_eq!(d, vec![reported(Construct::Expression(ExprKind::Dict), 0)]);
}

#[test]
fn unsupported_statement_is_reported() {
    let (t, d) = lower_s(&Stmt::Unsupported { kind: StmtKind::Try, offset: 12 });
    assert_eq!(t, Tree::Unsupported);
    assert_eq!(d, vec![reported(Construct::Statement(StmtKind::Try), 12)]);
}

#[test]
fn unsupported_operators_are_reported() {
    let e = Expr::BinOp {
        left: Box::new(num("7")),
        op: Operator::Mod,
        right: Box::new(num("2")),
        offset: 3,
    };
    let (t, d) = lower(&e);
    assert_eq!(t, Tree::Unsupported);
    assert_eq!(d, vec![reported(Construct::BinaryOperator(Operator::Mod), 3)]);
    let u = Expr::UnaryOp { op: UnaryOp::Invert, operand: Box::new(num("1")), offset: 8 };
    let (t, d) = lower(&u);
    assert_eq!(t, Tree::Unsupported);
    assert_eq!(d, vec![reported(Construct::UnaryOperator(UnaryOp::Invert), 8)]);
}

#[test]
fn unary_operators() {
    let n = Expr::UnaryOp { op: UnaryOp::Not, operand: Box::new(name("a")), offset: 0 };
    assert_eq!(lower(&n).0, not_t(ident("a")));
    let m = Expr::UnaryOp { op: UnaryOp::USub, operand: Box::new(num("5")), offset: 0 };
    assert_eq!(lower(&m).0, Tree::Neg { expr: bx(num_t("5")) });
}

#[test]
fn arithmetic_operators() {
    let bin = |op| Expr::BinOp {
        left: Box::new(name("a")),
        op,
        right: Box::new(name("b")),
        offset: 0,
    };
    let l = || bx(ident("a"));
    let r = || bx(ident("b"));
    assert_eq!(lower(&bin(Operator::Sub)).0, Tree::Sub { left: l(), right: r() });
    assert_eq!(lower(&bin(Operator::Mult)).0, Tree::Mul { left: l(), right: r() });
    assert_eq!(lower(&bin(Operator::Div)).0, Tree::Div { left: l(), right: r() });
}

#[test]
fn assert_message_slot() {
    let plain = Stmt::Assert { test: name("x"), msg: None };
    let with_msg = Stmt::Assert {
        test: name("x"),
        msg: Some(Expr::Constant(Constant::Str("msg".to_string()))),
    };
    assert_eq!(
        lower_s(&plain).0,
        Tree::Assert { condition: bx(ident("x")), message: bx(Tree::Unit) }
    );
    assert_eq!(
        lower_s(&with_msg).0,
        Tree::Assert {
            condition: bx(ident("x")),
            message: bx(Tree::Str { value: "\"msg\"".to_string() }),
        }
    );
}

#[test]
fn addition_end_to_end() {
    let e = Expr::BinOp {
        left: Box::new(num("1")),
        op: Operator::Add,
        right: Box::new(num("2")),
        offset: 0,
    };
    let r = lower_module(&vec![expr_stmt(e)]);
    assert_eq!(r.root, Tree::Add { left: bx(num_t("1")), right: bx(num_t("2")) });
    assert!(r.diagnostics.is_empty());
}

#[test]
fn function_definition_end_to_end() {
    let def = Stmt::FunctionDef {
        name: "f".to_string(),
        args: Box::new(no_args()),
        body: vec![Stmt::Return { value: Some(num("1")) }],
    };
    let r = lower_module(&vec![def]);
    assert_eq!(
        r.root,
        Tree::LetRec {
            name: "f".to_string(),
            params: vec![],
            body: bx(Tree::Return { value: bx(num_t("1")) }),
        }
    );
}

#[test]
fn if_statement_end_to_end() {
    let s = Stmt::If {
        test: name("x"),
        body: vec![expr_stmt(name("y"))],
        orelse: vec![expr_stmt(name("z"))],
    };
    let r = lower_module(&vec![s]);
    assert_eq!(
        r.root,
        Tree::If { condition: bx(ident("x")), then: bx(ident("y")), els: bx(ident("z")) }
    );
}

#[test]
fn conditional_expression() {
    let e = Expr::IfExp {
        test: Box::new(name("c")),
        body: Box::new(num("1")),
        orelse: Box::new(num("2")),
    };
    assert_eq!(
        lower(&e).0,
        Tree::If { condition: bx(ident("c")), then: bx(num_t("1")), els: bx(num_t("2")) }
    );
}

#[test]
fn bare_return_is_unit() {
    assert_eq!(lower_s(&Stmt::Return { value: None }).0, Tree::Unit);
}

#[test]
fn import_keeps_names_in_order() {
    let s = Stmt::Import { names: vec!["os.path".to_string(), "sys".to_string()] };
    assert_eq!(
        lower_s(&s).0,
        Tree::Import { items: vec!["os.path".to_string(), "sys".to_string()] }
    );
}

#[test]
fn class_definition() {
    let s = Stmt::ClassDef { name: "C".to_string(), body: vec![Stmt::Pass] };
    assert_eq!(
        lower_s(&s).0,
        Tree::Class {
            name: "C".to_string(),
            attributes: vec![],
            extends: None,
            implements: vec![],
            body: bx(Tree::Unit),
        }
    );
}

#[test]
fn call_with_keywords_is_lossy() {
    let e = Expr::Call {
        func: Box::new(name("f")),
        args: vec![num("1"), name("y")],
        keywords: vec![
            Keyword { arg: Some("k".to_string()), value: num("2") },
            Keyword { arg: None, value: name("kw") },
        ],
        offset: 6,
    };
    let (t, d) = lower(&e);
    assert_eq!(t, Tree::App { fun: bx(ident("f")), args: vec![num_t("1"), ident("y")] });
    assert_eq!(d, vec![Diagnostic::KeywordArgumentsDropped { count: 2, offset: 6 }]);
}

#[test]
fn call_of_attribute_is_reported() {
    let e = Expr::Call {
        func: Box::new(unsupported(ExprKind::Attribute, 0)),
        args: vec![unsupported(ExprKind::List, 7)],
        keywords: vec![],
        offset: 0,
    };
    let (t, d) = lower(&e);
    assert_eq!(t, Tree::App { fun: bx(Tree::Unsupported), args: vec![Tree::Unsupported] });
    assert_eq!(
        d,
        vec![
            reported(Construct::Callee, 0),
            reported(Construct::Expression(ExprKind::List), 7),
        ]
    );
}

#[test]
fn callee_name_extraction() {
    assert_eq!(extract_name(&name("print")), Some("print".to_string()));
    assert_eq!(extract_name(&num("1")), None);
}

#[test]
fn parameters_in_binding_order() {
    let p = |n: &str, default: Option<Expr>| Parameter {
        name: n.to_string(),
        default: default.map(Box::new),
    };
    let args = Arguments {
        posonlyargs: vec![p("a", None)],
        args: vec![p("b", Some(num("1")))],
        vararg: Some("rest".to_string()),
        kwonlyargs: vec![p("k", Some(unsupported(ExprKind::Dict, 20)))],
        kwarg: Some("opts".to_string()),
    };
    let mut d = Vec::new();
    let params = translate_arguments_vec(&args, &mut d);
    let q = |n: &str, kind, default: Option<Tree>| Param {
        name: n.to_string(),
        kind,
        default: default.map(Box::new),
    };
    assert_eq!(
        params,
        vec![
            q("a", ParamKind::PositionalOnly, None),
            q("b", ParamKind::Positional, Some(num_t("1"))),
            q("rest", ParamKind::VarPositional, None),
            q("k", ParamKind::KeywordOnly, Some(Tree::Unsupported)),
            q("opts", ParamKind::VarKeyword, None),
        ]
    );
    assert_eq!(d, vec![reported(Construct::Expression(ExprKind::Dict), 20)]);
}

#[test]
fn lambda_is_a_binding_node() {
    let args = Arguments {
        posonlyargs: vec![],
        args: vec![Parameter { name: "x".to_string(), default: None }],
        vararg: None,
        kwonlyargs: vec![],
        kwarg: None,
    };
    let e = Expr::Lambda { args: Box::new(args), body: Box::new(name("x")) };
    assert_eq!(
        lower(&e).0,
        Tree::LetRec {
            name: "lambda".to_string(),
            params: vec![Param { name: "x".to_string(), kind: ParamKind::Positional, default: None }],
            body: bx(ident("x")),
        }
    );
}

#[test]
fn diagnostics_come_in_source_order() {
    let program = vec![
        Stmt::Unsupported { kind: StmtKind::Assign, offset: 0 },
        expr_stmt(unsupported(ExprKind::ListComp, 6)),
        Stmt::Unsupported { kind: StmtKind::Raise, offset: 17 },
    ];
    let r = lower_module(&program);
    assert_eq!(
        r.diagnostics,
        vec![
            reported(Construct::Statement(StmtKind::Assign), 0),
            reported(Construct::Expression(ExprKind::ListComp), 6),
            reported(Construct::Statement(StmtKind::Raise), 17),
        ]
    );
}

#[test]
fn diagnostics_are_appended_after_existing_ones() {
    let mut d = vec![Diagnostic::KeywordArgumentsDropped { count: 1, offset: 0 }];
    translate_expr(&unsupported(ExprKind::Await, 5), &mut d);
    assert_eq!(
        d,
        vec![
            Diagnostic::KeywordArgumentsDropped { count: 1, offset: 0 },
            reported(Construct::Expression(ExprKind::Await), 5),
        ]
    );
}
