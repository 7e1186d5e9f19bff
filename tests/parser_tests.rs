use calc_core::ast::{BinaryOp, Expr, UnaryOp};
use calc_core::diag::DiagnosticKind;
use calc_core::ir::lower_expr;
use calc_core::parser::parse_cell;

#[test]
fn parse_assignment() {
    let p = parse_cell("x = 10");
    match p.expr {
        Expr::Assign { name, .. } => assert_eq!(name, "x"),
        _ => panic!("expected assignment"),
    }
}

#[test]
fn parse_implicit_multiplication_number_ident() {
    let p = parse_cell("10x");
    match p.expr {
        Expr::Binary { op, .. } => assert_eq!(op, BinaryOp::Mul),
        _ => panic!("expected binary mul"),
    }
}

#[test]
fn parse_implicit_multiplication_paren() {
    let p = parse_cell("2(3+4)");
    match p.expr {
        Expr::Binary { op, .. } => assert_eq!(op, BinaryOp::Mul),
        _ => panic!("expected binary mul"),
    }
}

#[test]
fn parse_function_definition_requires_equals() {
    // Should parse as call, not function def
    let p = parse_cell("pi()");
    match p.expr {
        Expr::Call { .. } => {}
        _ => panic!("expected call, not function def"),
    }
}

#[test]
fn parse_conversion_operator() {
    let p = parse_cell("10 m to in");
    match p.expr {
        Expr::Binary { op, .. } => assert_eq!(op, BinaryOp::Convert),
        _ => panic!("expected convert"),
    }
}

#[test]
fn parse_function_definition_with_params() {
    let p = parse_cell("Zc(f, C) = -1 * i() / (2*pi() * f * C)");
    match p.expr {
        Expr::Function { name, params, body } => {
            assert_eq!(name, "Zc");
            assert_eq!(params, vec!["f".to_string(), "C".to_string()]);
            assert!(matches!(*body, Expr::Binary { op: BinaryOp::Div, .. }));
        }
        _ => panic!("expected function definition"),
    }
}

#[test]
fn parse_precedence_and_associativity() {
    // 1 + 2 * 3 ^ 2 ^ 1  ==>  1 + (2 * (3 ^ (2 ^ 1)))
    let p = parse_cell("1 + 2 * 3 ^ 2 ^ 1");
    match p.expr {
        Expr::Binary { op: BinaryOp::Add, right, .. } => match *right {
            Expr::Binary { op: BinaryOp::Mul, right, .. } => match *right {
                Expr::Binary { op: BinaryOp::Pow, right, .. } => {
                    assert!(matches!(*right, Expr::Binary { op: BinaryOp::Pow, .. }))
                }
                _ => panic!("expected pow"),
            },
            _ => panic!("expected mul"),
        },
        _ => panic!("expected add"),
    }
    // a - b - c  ==>  (a - b) - c
    let p = parse_cell("a - b - c");
    match p.expr {
        Expr::Binary { op: BinaryOp::Sub, left, .. } => {
            assert!(matches!(*left, Expr::Binary { op: BinaryOp::Sub, .. }))
        }
        _ => panic!("expected sub"),
    }
    // unary minus binds tighter than `*`: -a * b ==> (-a) * b
    let p = parse_cell("-a * b");
    match p.expr {
        Expr::Binary { op: BinaryOp::Mul, left, .. } => {
            assert!(matches!(*left, Expr::Unary { op: UnaryOp::Minus, .. }))
        }
        _ => panic!("expected mul"),
    }
    // `//` binds looser than `*` and tighter than `+`
    let p = parse_cell("a + b // c * d");
    match p.expr {
        Expr::Binary { op: BinaryOp::Add, right, .. } => match *right {
            Expr::Binary { op: BinaryOp::Parallel, right, .. } => {
                assert!(matches!(*right, Expr::Binary { op: BinaryOp::Mul, .. }))
            }
            _ => panic!("expected parallel"),
        },
        _ => panic!("expected add"),
    }
}

#[test]
fn parse_quantity_literals() {
    let p = parse_cell("10kΩ");
    match p.expr {
        Expr::Quantity { value, scale, unit } => {
            assert_eq!(value, "10");
            assert_eq!(unit, "Ω");
            assert_eq!((scale.num, scale.den, scale.pow10, scale.pi_pow), (1, 1, 3, 0));
        }
        _ => panic!("expected quantity"),
    }
    // a space between number and unit makes no difference
    let p = parse_cell("90 °");
    assert!(matches!(p.expr, Expr::Quantity { ref unit, .. } if unit == "°"));
    // a bare unit is a quantity of one
    let p = parse_cell("in");
    assert!(matches!(p.expr, Expr::Quantity { ref value, ref unit, .. } if value == "1" && unit == "in"));
    // a unit wins over a bound name of the same spelling
    let p = parse_cell("2 m");
    assert!(matches!(p.expr, Expr::Quantity { .. }));
}

#[test]
fn parse_number_separators() {
    let p = parse_cell("1_000.5");
    assert!(matches!(p.expr, Expr::Number(ref t) if t == "1000.5"));
    let p = parse_cell("1.2.3");
    assert!(matches!(p.expr, Expr::Number(ref t) if t == "0"));
}

#[test]
fn parse_error_token_gives_diagnostic() {
    let p = parse_cell("* 3");
    assert!(matches!(p.expr, Expr::Error));
    assert_eq!(p.diagnostics.len(), 1);
    assert!(matches!(p.diagnostics[0].kind, DiagnosticKind::Parse));
    assert_eq!(p.diagnostics[0].span, Some((0, 1)));
    let p = parse_cell("x = 1");
    assert!(p.diagnostics.is_empty());
}

#[test]
fn parse_unclosed_call_is_tolerated() {
    let p = parse_cell("sin(1, 2");
    match p.expr {
        Expr::Call { args, .. } => assert_eq!(args.len(), 2),
        _ => panic!("expected call"),
    }
}

#[test]
fn implicit_multiplication_matches_explicit() {
    for b in ["0", "2", "3.5", "1000000"] {
        let implicit = lower_expr(&parse_cell(&format!("{}x", b)).expr);
        let explicit = lower_expr(&parse_cell(&format!("{} * x", b)).expr);
        assert_eq!(implicit, explicit);
    }
}

#[test]
fn parse_whole_trees() {
    let p = parse_cell("x = 10");
    match p.expr {
        Expr::Assign { expr, .. } => assert!(matches!(*expr, Expr::Number(ref t) if t == "10")),
        _ => panic!("expected assignment"),
    }
    let p = parse_cell("f(x, y) = x + y");
    match p.expr {
        Expr::Function { body, .. } => match *body {
            Expr::Binary { op: BinaryOp::Add, left, right } => {
                assert!(matches!(*left, Expr::Ident(ref s) if s == "x"));
                assert!(matches!(*right, Expr::Ident(ref s) if s == "y"));
            }
            _ => panic!("expected sum"),
        },
        _ => panic!("expected function definition"),
    }
    let p = parse_cell("10 m to in");
    match p.expr {
        Expr::Binary { op: BinaryOp::Convert, left, right } => {
            assert!(matches!(*left, Expr::Quantity { ref value, ref unit, .. } if value == "10" && unit == "m"));
            assert!(matches!(*right, Expr::Quantity { ref value, ref unit, .. } if value == "1" && unit == "in"));
        }
        _ => panic!("expected convert"),
    }
    let p = parse_cell("-a ^ b");
    match p.expr {
        Expr::Unary { op: UnaryOp::Minus, expr } => {
            assert!(matches!(*expr, Expr::Binary { op: BinaryOp::Pow, .. }))
        }
        _ => panic!("expected negation of a power"),
    }
}

#[test]
fn parse_unexpected_first_token() {
    let p = parse_cell(")");
    assert!(matches!(p.expr, Expr::Error));
    assert_eq!(p.diagnostics.len(), 1);
    assert!(matches!(p.diagnostics[0].kind, DiagnosticKind::Parse));
}
