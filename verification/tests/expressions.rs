use sap_ast::ParseFailure;
use sap_ast::diagnostics::Diagnostic;
use sap_ast::equality::{expr_eq, prefix_eq};
use sap_ast::expr::{Expr, ExprInner, Primary};
use sap_ast::id::{Id, MacroId, NormalId};
use sap_ast::infix::Infix;
use sap_ast::literal::{CompoundLiteral, Literal};
use sap_ast::number::{DecInt, Int, SapNumber};
use sap_ast::parse_expr;
use sap_ast::postfix::{Access, Index, Postfix, Trinary};
use sap_ast::prefix::Prefix;

fn ident(name: &str) -> Expr {
    Expr {
        inner: ExprInner::Primary(Primary::Id(Id::NormalId(NormalId { value: name.to_string() }))),
        diag: Diagnostic::test(),
    }
}

fn int_lit(v: i64) -> Expr {
    Expr {
        inner: ExprInner::Primary(Primary::CompoundLiteral(CompoundLiteral::Literal(
            Literal::Number(SapNumber::Int(Int::DecInt(DecInt { value: v }))),
        ))),
        diag: Diagnostic::test(),
    }
}

fn ml(callee: Expr, args: Vec<Expr>) -> Expr {
    Expr { inner: ExprInner::MLApply(Box::new(callee), args), diag: Diagnostic::test() }
}

fn capp(callee: Expr, args: Vec<Expr>) -> Expr {
    Expr { inner: ExprInner::CApply(Box::new(callee), args), diag: Diagnostic::test() }
}

fn inf(op: Infix, lhs: Expr, rhs: Expr) -> Expr {
    Expr { inner: ExprInner::Infix(op, Box::new(lhs), Box::new(rhs)), diag: Diagnostic::test() }
}

fn tri(cond: Expr, t: Expr, f: Expr) -> Expr {
    Expr {
        inner: ExprInner::Postfix(
            Postfix::Trinary(Trinary { true_expr: Box::new(t), false_expr: Box::new(f) }),
            Box::new(cond),
        ),
        diag: Diagnostic::test(),
    }
}

fn pre(op: Prefix, operand: Expr) -> Expr {
    Expr { inner: ExprInner::Prefix(op, Box::new(operand)), diag: Diagnostic::test() }
}

/// Walks the whole tree; no node may be the ephemeral call-parameter or
/// juxtaposition-argument postfix.
fn check_no_ephemeral(e: &Expr) {
    match &e.inner {
        ExprInner::Prefix(op, operand) => {
            if let Prefix::AnnotativeMacroCall(_, Some(arg)) = op {
                check_no_ephemeral(arg);
            }
            check_no_ephemeral(operand);
        }
        ExprInner::Primary(p) => {
            if let Primary::ParenExpr(pe) = p {
                check_no_ephemeral(&pe.expr);
            }
            if let Primary::CompoundLiteral(CompoundLiteral::ArrayLiteral(a)) = p {
                for el in &a.elems {
                    check_no_ephemeral(el);
                }
            }
        }
        ExprInner::Postfix(op, operand) => {
            match op {
                Postfix::CAppParams(_) => panic!("ephemeral CAppParams in finished tree"),
                Postfix::MlAppParam(_) => panic!("ephemeral MlAppParam in finished tree"),
                Postfix::Trinary(t) => {
                    check_no_ephemeral(&t.true_expr);
                    check_no_ephemeral(&t.false_expr);
                }
                Postfix::Index(ix) => check_no_ephemeral(&ix.postfix_index),
                Postfix::Slice(s) => {
                    if let Some(x) = &s.start {
                        check_no_ephemeral(x);
                    }
                    if let Some(x) = &s.end {
                        check_no_ephemeral(x);
                    }
                    if let Some(x) = &s.step {
                        check_no_ephemeral(x);
                    }
                }
                Postfix::Access(_) => {}
            }
            check_no_ephemeral(operand);
        }
        ExprInner::Infix(_, l, r) => {
            check_no_ephemeral(l);
            check_no_ephemeral(r);
        }
        ExprInner::CApply(c, args) | ExprInner::MLApply(c, args) => {
            check_no_ephemeral(c);
            for a in args {
                check_no_ephemeral(a);
            }
        }
    }
}

fn parse_ok(input: &str) -> Expr {
    let e = parse_expr(input).unwrap();
    check_no_ephemeral(&e);
    e
}

#[test]
fn test_expr() {
    let e = parse_ok("1 + 2 * 3");
    assert!(expr_eq(&e, &inf(Infix::Add, int_lit(1), inf(Infix::Mul, int_lit(2), int_lit(3)))));
    assert_eq!(e.diag.start_offset, 0);
    assert_eq!(e.diag.end_offset, 9);
}

#[test]
fn test_expr_capp() {
    let e = parse_ok("a(b,c)");
    assert!(expr_eq(&e, &capp(ident("a"), vec![ident("b"), ident("c")])));
    assert_eq!(e.diag.start_offset, 0);
    assert_eq!(e.diag.end_offset, 6);
}

#[test]
fn test_expr_capp_empty() {
    let e = parse_ok("a()");
    assert!(expr_eq(&e, &capp(ident("a"), vec![])));
    assert_eq!(e.diag.end_offset, 3);
}

#[test]
fn test_expr_mlapp() {
    let e = parse_ok("a b");
    assert!(expr_eq(&e, &ml(ident("a"), vec![ident("b")])));
    assert_eq!(e.diag.start_offset, 0);
    assert_eq!(e.diag.end_offset, 3);
}

#[test]
fn test_expr_mlapp_flat() {
    // Flat, not nested: the normalization pass merges the chain.
    let e = parse_ok("a b c");
    assert!(expr_eq(&e, &ml(ident("a"), vec![ident("b"), ident("c")])));
}

#[test]
fn test_expr_mlapp_infix() {
    // Left-associative `+` with application binding tighter than `+`.
    let e = parse_ok("a b + a c + b c");
    let expected = inf(
        Infix::Add,
        inf(
            Infix::Add,
            ml(ident("a"), vec![ident("b")]),
            ml(ident("a"), vec![ident("c")]),
        ),
        ml(ident("b"), vec![ident("c")]),
    );
    assert!(expr_eq(&e, &expected));
    assert_eq!(e.diag.start_offset, 0);
    assert_eq!(e.diag.end_offset, 15);
}

#[test]
fn test_expr_mlapp_trinary() {
    let e = parse_ok("a b c ? 1 : 2");
    let expected = tri(ml(ident("a"), vec![ident("b"), ident("c")]), int_lit(1), int_lit(2));
    assert!(expr_eq(&e, &expected));
    assert_eq!(e.diag.end_offset, 13);
}

#[test]
fn test_expr_mlapp_infix_and_trinary() {
    // The design decision for this combination: `+` binds tighter than the
    // ternary postfix, application tighter than `+`, so the ternary wraps
    // the whole sum.
    let e = parse_ok("a b + c ? 1 : 2");
    let expected = tri(
        inf(Infix::Add, ml(ident("a"), vec![ident("b")]), ident("c")),
        int_lit(1),
        int_lit(2),
    );
    assert!(expr_eq(&e, &expected));
}

#[test]
fn test_infix_add() {
    let infix = Infix::from_kind(&sap_ast::lexer::TokenKind::OpAdd).unwrap();
    assert_eq!(infix, Infix::Add);
}

#[test]
fn test_infix_function() {
    let toks = sap_ast::lexer::lex(&"~id~".chars().collect()).unwrap();
    assert_eq!(toks.len(), 1);
    let infix = Infix::from_kind(&toks[0].kind).unwrap();
    assert_eq!(
        infix,
        Infix::Function(Id::NormalId(NormalId { value: "id".to_string() }))
    );
}

#[test]
fn test_prefix_not() {
    let prefix = Prefix::from_kind(&sap_ast::lexer::TokenKind::OpNot).unwrap();
    assert!(prefix_eq(&prefix, &Prefix::Not));
}

#[test]
fn test_prefix_bit_not() {
    let toks = sap_ast::lexer::lex(&"~".chars().collect()).unwrap();
    let prefix = Prefix::from_kind(&toks[0].kind).unwrap();
    assert!(prefix_eq(&prefix, &Prefix::BitNot));
}

#[test]
fn test_prefix_neg() {
    let toks = sap_ast::lexer::lex(&"-".chars().collect()).unwrap();
    let prefix = Prefix::from_kind(&toks[0].kind).unwrap();
    assert!(prefix_eq(&prefix, &Prefix::Neg));
}

#[test]
fn test_prefix_yield() {
    let toks = sap_ast::lexer::lex(&"<-".chars().collect()).unwrap();
    let prefix = Prefix::from_kind(&toks[0].kind).unwrap();
    assert!(prefix_eq(&prefix, &Prefix::Yield));
}

#[test]
fn test_prefix_ann_macro_call() {
    let e = parse_ok("@@macro (1) x");
    match &e.inner {
        ExprInner::Prefix(op, operand) => {
            let expected = Prefix::AnnotativeMacroCall(
                MacroId { value: "@macro".to_string() },
                Some(Box::new(int_lit(1))),
            );
            assert!(prefix_eq(op, &expected));
            assert!(expr_eq(operand, &ident("x")));
        }
        other => panic!("expected a prefix node, got {:?}", other),
    }
}

#[test]
fn test_postfix_index() {
    let e = parse_ok("f[1]");
    let expected = Expr {
        inner: ExprInner::Postfix(
            Postfix::Index(Index { postfix_index: Box::new(int_lit(1)) }),
            Box::new(ident("f")),
        ),
        diag: Diagnostic::test(),
    };
    assert!(expr_eq(&e, &expected));
    assert_eq!(e.diag.end_offset, 4);
}

#[test]
fn test_postfix_access() {
    let e = parse_ok("f.a");
    match &e.inner {
        ExprInner::Postfix(Postfix::Access(Access { id }), operand) => {
            assert_eq!(id.value(), "a");
            assert!(expr_eq(operand, &ident("f")));
        }
        other => panic!("expected an access node, got {:?}", other),
    }
}

#[test]
fn test_postfix_slice() {
    let e = parse_ok("f[1:2:3]");
    match &e.inner {
        ExprInner::Postfix(Postfix::Slice(s), _) => {
            assert!(expr_eq(s.start.as_ref().unwrap(), &int_lit(1)));
            assert!(expr_eq(s.end.as_ref().unwrap(), &int_lit(2)));
            assert!(expr_eq(s.step.as_ref().unwrap(), &int_lit(3)));
        }
        other => panic!("expected a slice node, got {:?}", other),
    }
}

#[test]
fn test_c_params_body() {
    let e = parse_ok("f(1,2)");
    match &e.inner {
        ExprInner::CApply(_, args) => {
            assert_eq!(args.len(), 2);
            assert!(expr_eq(&args[0], &int_lit(1)));
        }
        other => panic!("expected a call node, got {:?}", other),
    }
}

#[test]
fn test_no_match_on_empty() {
    assert!(matches!(parse_expr(""), Err(ParseFailure::NoMatch)));
    assert!(matches!(parse_expr("   "), Err(ParseFailure::NoMatch)));
}

#[test]
fn test_no_match_on_dangling_operator() {
    assert!(matches!(parse_expr("a +"), Err(ParseFailure::NoMatch)));
    assert!(matches!(parse_expr("+"), Err(ParseFailure::NoMatch)));
    assert!(matches!(parse_expr("(a"), Err(ParseFailure::NoMatch)));
    assert!(matches!(parse_expr("a ? 1"), Err(ParseFailure::NoMatch)));
}

#[test]
fn test_internal_desync_is_distinguished() {
    // A non-infix rule kind has no infix mapping: the classifier reports the
    // desynchronization loudly instead of guessing.
    let r = Infix::from_kind(&sap_ast::lexer::TokenKind::Comma);
    assert_eq!(r, Err(ParseFailure::InternalDesync));
    let r = Prefix::from_kind(&sap_ast::lexer::TokenKind::Comma);
    assert!(matches!(r, Err(ParseFailure::InternalDesync)));
}

#[test]
fn test_root_span_covers_input() {
    for (input, len) in [
        ("a", 1),
        ("a b", 3),
        ("a(b,c)", 6),
        ("(a)", 3),
        ("a b c ? 1 : 2", 13),
        ("- f x", 5),
    ] {
        let e = parse_ok(input);
        assert_eq!(e.diag.start_offset, 0, "{}", input);
        assert_eq!(e.diag.end_offset, len, "{}", input);
    }
}

#[test]
fn test_precedence_assign_vs_ternary() {
    let e = parse_ok("x = a ? b : c");
    let expected = inf(Infix::Assign, ident("x"), tri(ident("a"), ident("b"), ident("c")));
    assert!(expr_eq(&e, &expected));
}

#[test]
fn test_precedence_ternary_vs_pipe() {
    let e = parse_ok("a |> b ? c : d");
    let expected = tri(inf(Infix::Pipe, ident("a"), ident("b")), ident("c"), ident("d"));
    assert!(expr_eq(&e, &expected));
}

#[test]
fn test_precedence_pipe_vs_infix_function() {
    let e = parse_ok("a ~f~ b |> c");
    let f = Infix::Function(Id::NormalId(NormalId { value: "f".to_string() }));
    let expected = inf(Infix::Pipe, inf(f, ident("a"), ident("b")), ident("c"));
    assert!(expr_eq(&e, &expected));
}

#[test]
fn test_precedence_infix_function_vs_yield() {
    let e = parse_ok("<- a ~f~ b");
    let f = Infix::Function(Id::NormalId(NormalId { value: "f".to_string() }));
    let expected = inf(f, pre(Prefix::Yield, ident("a")), ident("b"));
    assert!(expr_eq(&e, &expected));
}

#[test]
fn test_precedence_yield_vs_extends() {
    let e = parse_ok("<- a <: b");
    let expected = pre(Prefix::Yield, inf(Infix::Extends, ident("a"), ident("b")));
    assert!(expr_eq(&e, &expected));
}

#[test]
fn test_precedence_extends_vs_or() {
    let e = parse_ok("a <: b || c");
    let expected = inf(Infix::Extends, ident("a"), inf(Infix::Or, ident("b"), ident("c")));
    assert!(expr_eq(&e, &expected));
}

#[test]
fn test_precedence_or_vs_and() {
    let e = parse_ok("a || b && c");
    let expected = inf(Infix::Or, ident("a"), inf(Infix::And, ident("b"), ident("c")));
    assert!(expr_eq(&e, &expected));
}

#[test]
fn test_precedence_and_vs_bit_or() {
    let e = parse_ok("a && b | c");
    let expected = inf(Infix::And, ident("a"), inf(Infix::BitOr, ident("b"), ident("c")));
    assert!(expr_eq(&e, &expected));
}

#[test]
fn test_precedence_bit_or_vs_bit_xor() {
    let e = parse_ok("a | b ^ c");
    let expected = inf(Infix::BitOr, ident("a"), inf(Infix::BitXor, ident("b"), ident("c")));
    assert!(expr_eq(&e, &expected));
}

#[test]
fn test_precedence_bit_xor_vs_bit_and() {
    let e = parse_ok("a ^ b & c");
    let expected = inf(Infix::BitXor, ident("a"), inf(Infix::BitAnd, ident("b"), ident("c")));
    assert!(expr_eq(&e, &expected));
}

#[test]
fn test_precedence_bit_and_vs_eq() {
    let e = parse_ok("a & b == c");
    let expected = inf(Infix::BitAnd, ident("a"), inf(Infix::Eq, ident("b"), ident("c")));
    assert!(expr_eq(&e, &expected));
}

#[test]
fn test_precedence_eq_vs_relational() {
    let e = parse_ok("a == b < c");
    let expected = inf(Infix::Eq, ident("a"), inf(Infix::Lt, ident("b"), ident("c")));
    assert!(expr_eq(&e, &expected));
}

#[test]
fn test_precedence_relational_vs_shift() {
    let e = parse_ok("a < b << c");
    let expected = inf(Infix::Lt, ident("a"), inf(Infix::BitShiftL, ident("b"), ident("c")));
    assert!(expr_eq(&e, &expected));
}

#[test]
fn test_precedence_shift_vs_additive() {
    let e = parse_ok("a << b + c");
    let expected = inf(Infix::BitShiftL, ident("a"), inf(Infix::Add, ident("b"), ident("c")));
    assert!(expr_eq(&e, &expected));
}

#[test]
fn test_precedence_mul_vs_unary_prefix() {
    let e = parse_ok("- a * b");
    let expected = inf(Infix::Mul, pre(Prefix::Neg, ident("a")), ident("b"));
    assert!(expr_eq(&e, &expected));
}

#[test]
fn test_precedence_unary_prefix_vs_application() {
    let e = parse_ok("- f x");
    let expected = pre(Prefix::Neg, ml(ident("f"), vec![ident("x")]));
    assert!(expr_eq(&e, &expected));
}

#[test]
fn test_precedence_application_vs_tight_postfix() {
    // Equal-tightest, resolved left to right: the index binds to the
    // argument it follows.
    let e = parse_ok("f x[1]");
    let indexed = Expr {
        inner: ExprInner::Postfix(
            Postfix::Index(Index { postfix_index: Box::new(int_lit(1)) }),
            Box::new(ident("x")),
        ),
        diag: Diagnostic::test(),
    };
    let expected = ml(ident("f"), vec![indexed]);
    assert!(expr_eq(&e, &expected));
}

#[test]
fn test_precedence_macro_call_weakest() {
    let e = parse_ok("@@m x = y");
    match &e.inner {
        ExprInner::Prefix(op, operand) => {
            assert!(prefix_eq(
                op,
                &Prefix::AnnotativeMacroCall(MacroId { value: "@m".to_string() }, None)
            ));
            assert!(expr_eq(operand, &inf(Infix::Assign, ident("x"), ident("y"))));
        }
        other => panic!("expected a prefix node, got {:?}", other),
    }
}

#[test]
fn test_assignment_class_right_assoc() {
    let e = parse_ok("a = b = c");
    let expected = inf(Infix::Assign, ident("a"), inf(Infix::Assign, ident("b"), ident("c")));
    assert!(expr_eq(&e, &expected));
}

#[test]
fn test_assignment_class_kinds() {
    let e = parse_ok("a =<- b");
    assert!(expr_eq(&e, &inf(Infix::AssignYield, ident("a"), ident("b"))));
    let e = parse_ok("a := b");
    assert!(expr_eq(&e, &inf(Infix::AssignSlot, ident("a"), ident("b"))));
    let e = parse_ok("a ?= b");
    assert!(expr_eq(&e, &inf(Infix::MatchEquals, ident("a"), ident("b"))));
}

#[test]
fn test_find_and_call_with_this() {
    let e = parse_ok("a $ b");
    assert!(expr_eq(&e, &inf(Infix::FindAndCallWithThis, ident("a"), ident("b"))));
}

#[test]
fn test_paren_groups_application() {
    // A detached `(` starts a juxtaposed operand, an attached one a call.
    let e = parse_ok("f (x)");
    let paren = Expr {
        inner: ExprInner::Primary(Primary::ParenExpr(sap_ast::quotations::ParenExpr {
            expr: Box::new(ident("x")),
        })),
        diag: Diagnostic::test(),
    };
    assert!(expr_eq(&e, &ml(ident("f"), vec![paren])));
}
