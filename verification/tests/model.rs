use sap_ast::diagnostics::Diagnostic;
use sap_ast::equality::{array_pattern_elem_eq, expr_eq};
use sap_ast::expr::{Expr, ExprInner, Primary};
use sap_ast::id::{Id, NormalId};
use sap_ast::literal::{CompoundLiteral, Literal, Void};
use sap_ast::object::{ObjectBody, ObjectElemKv, ObjectKey};
use sap_ast::parse_expr;
use sap_ast::pattern::{
    ArrayPattern, ArrayPatternBody, ArrayPatternElem, EclipsePattern, ObjectPattern,
    ObjectPatternBody, ObjectPatternElem, ObjectPatternKv, Pattern,
};
use sap_ast::church_encoded::{handle_expr_church_encoded, handle_mlapply};
use sap_ast::postfix::MlAppParam;

fn normal_id(name: &str) -> Id {
    Id::NormalId(NormalId { value: name.to_string() })
}

fn ident(name: &str) -> Expr {
    Expr {
        inner: ExprInner::Primary(Primary::Id(Id::NormalId(NormalId { value: name.to_string() }))),
        diag: Diagnostic::test(),
    }
}

#[test]
fn test_void() {
    let e = parse_expr("()").unwrap();
    match &e.inner {
        ExprInner::Primary(Primary::CompoundLiteral(CompoundLiteral::Literal(Literal::Void(
            Void,
        )))) => {}
        other => panic!("expected the void literal, got {:?}", other),
    }
    assert_eq!(e.diag.start_offset, 0);
    assert_eq!(e.diag.end_offset, 2);
}

#[test]
fn test_array_body() {
    let e = parse_expr("[1, 2, 3]").unwrap();
    match &e.inner {
        ExprInner::Primary(Primary::CompoundLiteral(CompoundLiteral::ArrayLiteral(body))) => {
            assert_eq!(body.elems.len(), 3);
        }
        other => panic!("expected an array literal, got {:?}", other),
    }
}

#[test]
fn test_op_id() {
    let e = parse_expr("a").unwrap();
    match &e.inner {
        ExprInner::Primary(Primary::Id(id)) => {
            assert_eq!(id.value(), "a");
        }
        other => panic!("expected an identifier leaf, got {:?}", other),
    }
}

#[test]
fn test_op_compound_literal() {
    let e = parse_expr("1").unwrap();
    match &e.inner {
        ExprInner::Primary(Primary::CompoundLiteral(CompoundLiteral::Literal(Literal::Number(
            n,
        )))) => match n {
            sap_ast::number::SapNumber::Int(i) => assert_eq!(i.value(), 1),
            other => panic!("expected an integer, got {:?}", other),
        },
        other => panic!("expected a literal leaf, got {:?}", other),
    }
}

#[test]
fn test_object_key() {
    let object_key = ObjectKey::Id(normal_id("a"));
    assert_eq!(object_key.value(), "a");
}

#[test]
fn test_object_elem_kv() {
    let object_elem_kv = ObjectElemKv {
        key: ObjectKey::Id(normal_id("a")),
        value: Some(parse_expr("1").unwrap()),
    };
    assert_eq!(object_elem_kv.key.value(), "a");
}

#[test]
fn test_object_elem_kv_only_k() {
    let object_elem_kv = ObjectElemKv { key: ObjectKey::Id(normal_id("a")), value: None };
    assert_eq!(object_elem_kv.key.value(), "a");
    assert!(object_elem_kv.value.is_none());
}

#[test]
fn test_object_body() {
    let object_body = ObjectBody {
        body: vec![
            ObjectElemKv {
                key: ObjectKey::Id(normal_id("a")),
                value: Some(parse_expr("1").unwrap()),
            },
            ObjectElemKv { key: ObjectKey::Id(normal_id("b")), value: None },
        ],
    };
    assert_eq!(object_body.body.len(), 2);
}

#[test]
fn test_eclipse_pattern() {
    let eclipse_pattern = EclipsePattern { diag: Diagnostic::test(), value: normal_id("a") };
    assert_eq!(eclipse_pattern.value.value(), "a");
}

#[test]
fn test_array_pattern_elem() {
    let array_pattern_elem = ArrayPatternElem::EclipsePattern(EclipsePattern {
        diag: Diagnostic::test(),
        value: normal_id("a"),
    });
    assert!(array_pattern_elem_eq(
        &array_pattern_elem,
        &ArrayPatternElem::EclipsePattern(EclipsePattern {
            value: normal_id("a"),
            diag: Diagnostic::test(),
        })
    ));
}

#[test]
fn test_array_pattern_body() {
    let array_pattern_body = ArrayPatternBody {
        elems: vec![
            ArrayPatternElem::EclipsePattern(EclipsePattern {
                diag: Diagnostic::test(),
                value: normal_id("a"),
            }),
            ArrayPatternElem::EclipsePattern(EclipsePattern {
                diag: Diagnostic::test(),
                value: normal_id("b"),
            }),
        ],
    };
    assert_eq!(array_pattern_body.elems.len(), 2);
    assert!(array_pattern_elem_eq(
        &array_pattern_body.elems[0],
        &ArrayPatternElem::EclipsePattern(EclipsePattern {
            value: normal_id("a"),
            diag: Diagnostic::test(),
        })
    ));
    assert!(array_pattern_elem_eq(
        &array_pattern_body.elems[1],
        &ArrayPatternElem::EclipsePattern(EclipsePattern {
            value: normal_id("b"),
            diag: Diagnostic::test(),
        })
    ));
}

#[test]
fn test_array_pattern() {
    let array_pattern = ArrayPattern {
        diag: Diagnostic::test(),
        body: ArrayPatternBody {
            elems: vec![
                ArrayPatternElem::EclipsePattern(EclipsePattern {
                    diag: Diagnostic::test(),
                    value: normal_id("a"),
                }),
                ArrayPatternElem::EclipsePattern(EclipsePattern {
                    diag: Diagnostic::test(),
                    value: normal_id("b"),
                }),
            ],
        },
    };
    assert_eq!(array_pattern.body.elems.len(), 2);
    assert!(array_pattern_elem_eq(
        &array_pattern.body.elems[0],
        &ArrayPatternElem::EclipsePattern(EclipsePattern {
            value: normal_id("a"),
            diag: Diagnostic::test(),
        })
    ));
    assert!(array_pattern_elem_eq(
        &array_pattern.body.elems[1],
        &ArrayPatternElem::EclipsePattern(EclipsePattern {
            value: normal_id("b"),
            diag: Diagnostic::test(),
        })
    ));
}

#[test]
fn test_pattern() {
    // The pattern written `^{c: ^[a, ...b]}` in source.
    let inner_array = Pattern::ArrayPattern(ArrayPattern {
        diag: Diagnostic::test(),
        body: ArrayPatternBody {
            elems: vec![
                ArrayPatternElem::Pattern(Pattern::Id(normal_id("a"))),
                ArrayPatternElem::EclipsePattern(EclipsePattern {
                    diag: Diagnostic::test(),
                    value: normal_id("b"),
                }),
            ],
        },
    });
    let pattern = Pattern::ObjectPattern(ObjectPattern {
        body: ObjectPatternBody {
            body: vec![ObjectPatternElem::ObjectPatternKv(ObjectPatternKv {
                key: ObjectKey::Id(normal_id("c")),
                value: Some(Box::new(inner_array)),
            })],
        },
    });
    match pattern {
        Pattern::ObjectPattern(p) => assert_eq!(p.body.body.len(), 1),
        other => panic!("expected an object pattern, got {:?}", other),
    }
}

#[test]
fn test_object_pattern_kv() {
    let object_pattern_kv = ObjectPatternKv {
        key: ObjectKey::Id(normal_id("a")),
        value: Some(Box::new(Pattern::Literal(Literal::Boolean(sap_ast::literal::Boolean {
            value: true,
        })))),
    };
    assert_eq!(object_pattern_kv.key.value(), "a");
}

#[test]
fn test_object_pattern_elem() {
    let object_pattern_elem = ObjectPatternElem::EclipsePattern(EclipsePattern {
        diag: Diagnostic::test(),
        value: normal_id("b"),
    });
    if let ObjectPatternElem::EclipsePattern(eclipse_pattern) = object_pattern_elem {
        assert_eq!(eclipse_pattern.value.value(), "b");
    }
}

#[test]
fn test_object_pattern_body() {
    let object_pattern_body = ObjectPatternBody {
        body: vec![
            ObjectPatternElem::ObjectPatternKv(ObjectPatternKv {
                key: ObjectKey::Id(normal_id("a")),
                value: None,
            }),
            ObjectPatternElem::EclipsePattern(EclipsePattern {
                diag: Diagnostic::test(),
                value: normal_id("b"),
            }),
        ],
    };
    assert_eq!(object_pattern_body.body.len(), 2);
}

#[test]
fn test_diagnostic_boundaries() {
    let a = Diagnostic {
        start_line: 1,
        start_col: 1,
        start_offset: 0,
        end_line: 1,
        end_col: 4,
        end_offset: 3,
    };
    let b = Diagnostic {
        start_line: 2,
        start_col: 5,
        start_offset: 10,
        end_line: 2,
        end_col: 8,
        end_offset: 13,
    };
    let widened = a.set_end_as(&b);
    assert_eq!(widened.start_offset, 0);
    assert_eq!(widened.end_offset, 13);
    let pulled = b.set_start_as(&a);
    assert_eq!(pulled.start_offset, 0);
    assert_eq!(pulled.end_offset, 13);
    // The reserved test diagnostic compares equal to anything.
    assert!(Diagnostic::test() == a);
    assert!(a == Diagnostic::test());
    assert!(a == a);
    assert!(!(a == b));
}

#[test]
fn test_expr_equality_ignores_spans() {
    let a = parse_expr("a  +  b").unwrap();
    let b = parse_expr("a + b").unwrap();
    assert!(expr_eq(&a, &b));
    let c = parse_expr("a - b").unwrap();
    assert!(!expr_eq(&a, &c));
}

#[test]
fn test_normalization_rules() {
    // A pending plain operand becomes the one argument.
    let r = handle_mlapply(ident("f"), ident("x"));
    match &r.inner {
        ExprInner::MLApply(c, args) => {
            assert!(expr_eq(c, &ident("f")));
            assert_eq!(args.len(), 1);
        }
        other => panic!("expected an application, got {:?}", other),
    }
    // A pending application chain is flattened, not nested.
    let chain = Expr {
        inner: ExprInner::MLApply(Box::new(ident("x")), vec![ident("y"), ident("z")]),
        diag: Diagnostic::test(),
    };
    let r = handle_expr_church_encoded(ident("f"), MlAppParam(Box::new(chain)));
    match &r.inner {
        ExprInner::MLApply(c, args) => {
            assert!(expr_eq(c, &ident("f")));
            assert_eq!(args.len(), 3);
            assert!(expr_eq(&args[0], &ident("x")));
            assert!(expr_eq(&args[2], &ident("z")));
        }
        other => panic!("expected a flattened application, got {:?}", other),
    }
    // A pending infix: the argument attaches to the left operand only.
    let pending = Expr {
        inner: ExprInner::Infix(
            sap_ast::infix::Infix::Add,
            Box::new(ident("x")),
            Box::new(ident("y")),
        ),
        diag: Diagnostic::test(),
    };
    let r = handle_expr_church_encoded(ident("f"), MlAppParam(Box::new(pending)));
    match &r.inner {
        ExprInner::Infix(sap_ast::infix::Infix::Add, l, rr) => {
            match &l.inner {
                ExprInner::MLApply(c, args) => {
                    assert!(expr_eq(c, &ident("f")));
                    assert_eq!(args.len(), 1);
                    assert!(expr_eq(&args[0], &ident("x")));
                }
                other => panic!("expected an application on the left, got {:?}", other),
            }
            assert!(expr_eq(rr, &ident("y")));
        }
        other => panic!("expected an infix node, got {:?}", other),
    }
    // A pending ternary: the argument attaches to the condition.
    let pending = Expr {
        inner: ExprInner::Postfix(
            sap_ast::postfix::Postfix::Trinary(sap_ast::postfix::Trinary {
                true_expr: Box::new(ident("t")),
                false_expr: Box::new(ident("e")),
            }),
            Box::new(ident("c")),
        ),
        diag: Diagnostic::test(),
    };
    let r = handle_expr_church_encoded(ident("f"), MlAppParam(Box::new(pending)));
    match &r.inner {
        ExprInner::Postfix(sap_ast::postfix::Postfix::Trinary(_), cond) => match &cond.inner {
            ExprInner::MLApply(c, args) => {
                assert!(expr_eq(c, &ident("f")));
                assert_eq!(args.len(), 1);
                assert!(expr_eq(&args[0], &ident("c")));
            }
            other => panic!("expected an application condition, got {:?}", other),
        },
        other => panic!("expected a ternary node, got {:?}", other),
    }
}
