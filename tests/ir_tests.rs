use calc_core::ast::{BinaryOp, UnaryOp};
use calc_core::ir::{lower_expr, Constant, OpCode};
use calc_core::parser::parse_cell;

fn ops(text: &str) -> Vec<OpCode> {
    lower_expr(&parse_cell(text).expr).ops
}

#[test]
fn lowering_is_post_order() {
    let o = ops("(10 + 5) * 2 / 3");
    assert_eq!(o.len(), 7);
    assert!(matches!(o[0], OpCode::Const(Constant::Number(ref t)) if t == "10"));
    assert!(matches!(o[1], OpCode::Const(Constant::Number(ref t)) if t == "5"));
    assert_eq!(o[2], OpCode::Binary(BinaryOp::Add));
    assert!(matches!(o[3], OpCode::Const(Constant::Number(ref t)) if t == "2"));
    assert_eq!(o[4], OpCode::Binary(BinaryOp::Mul));
    assert_eq!(o[6], OpCode::Binary(BinaryOp::Div));
}

#[test]
fn lowering_assignment_and_symbols() {
    let o = ops("r_eq = r1 // r2");
    assert_eq!(
        o,
        vec![
            OpCode::LoadSym("r1".to_string()),
            OpCode::LoadSym("r2".to_string()),
            OpCode::Binary(BinaryOp::Parallel),
            OpCode::StoreSym("r_eq".to_string()),
        ]
    );
    let o = ops("-x");
    assert_eq!(o, vec![OpCode::LoadSym("x".to_string()), OpCode::Unary(UnaryOp::Minus)]);
}

#[test]
fn lowering_quantities_use_canonical_names() {
    let o = ops("r1 = 10kΩ");
    match &o[0] {
        OpCode::Const(Constant::Quantity { value, scale, dim, unit }) => {
            assert_eq!(value, "10");
            assert_eq!(scale.pow10, 3);
            assert_eq!(unit, "Ω");
            assert_eq!(dim.exponents, [2, 1, -3, -2, 0, 0, 0]);
        }
        _ => panic!("expected a quantity constant"),
    }
    assert_eq!(o[1], OpCode::StoreSym("r1".to_string()));
    // inches are stored in metres, degrees in radians
    assert!(matches!(&ops("3 in")[0], OpCode::Const(Constant::Quantity { unit, .. }) if unit == "m"));
    assert!(matches!(&ops("90 °")[0], OpCode::Const(Constant::Quantity { unit, .. }) if unit == "rad"));
    assert!(matches!(&ops("2 lb")[0], OpCode::Const(Constant::Quantity { unit, .. }) if unit == "kg"));
}

#[test]
fn lowering_conversion_calls_and_functions() {
    let o = ops("d to in");
    assert_eq!(o, vec![OpCode::LoadSym("d".to_string()), OpCode::Convert("in".to_string())]);
    let o = ops("x to y");
    assert_eq!(o[1], OpCode::Convert("y".to_string()));
    let o = ops("x to 3");
    assert_eq!(o[1], OpCode::Convert(String::new()));
    let o = ops("cos_deg(60)");
    assert!(matches!(o[0], OpCode::Const(Constant::Number(ref t)) if t == "60"));
    assert_eq!(o[1], OpCode::CallName("cos_deg".to_string(), 1));
    let o = ops("pi()");
    assert_eq!(o, vec![OpCode::CallName("pi".to_string(), 0)]);
    // a parenthesised callee is a product, not a call
    let o = ops("(f)(2)");
    assert_eq!(o.len(), 3);
    assert_eq!(o[2], OpCode::Binary(BinaryOp::Mul));
    let o = ops("sq(x) = x * x");
    assert_eq!(o.len(), 2);
    match &o[0] {
        OpCode::Const(Constant::Function(f)) => assert_eq!(f.params, vec!["x".to_string()]),
        _ => panic!("expected a function constant"),
    }
    assert_eq!(o[1], OpCode::StoreSym("sq".to_string()));
    let o = ops("\"text\"");
    assert!(matches!(o[0], OpCode::Const(Constant::Str(ref s)) if s == "<unhandled>"));
}
