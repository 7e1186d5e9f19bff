use calc_core::ir::lower_expr;
use calc_core::parser::parse_cell;
use calc_core::rules::{Operand, Outcome};
use calc_core::types::{Dim, ValueKind};
use calc_core::units::lookup_unit;
use calc_core::vm::{vm_step, Shape, VmAction};

fn builtins() -> Vec<String> {
    ["pi", "i", "sin", "cos_deg"].iter().map(|s| s.to_string()).collect()
}

/// Runs a cell over shapes alone, answering every call with a plain number.
fn run(shape: &mut Shape, text: &str) -> (Operand, Vec<VmAction>) {
    let chunk = lower_expr(&parse_cell(text).expr);
    shape.clear_stack();
    let mut actions = Vec::new();
    for op in &chunk.ops {
        let a = vm_step(shape, op, &builtins());
        if matches!(a, VmAction::CallBuiltin(..) | VmAction::CallUser(_)) {
            shape.push_result(Operand { kind: ValueKind::Scalar, dim: Dim::zero(), unit: String::new() });
        }
        actions.push(a);
    }
    (shape.result(), actions)
}

#[test]
fn store_binds_and_leaves_the_value_on_top() {
    let mut shape = Shape::new();
    let (top, actions) = run(&mut shape, "r1 = 10kΩ");
    assert_eq!(top.kind, ValueKind::Quantity);
    assert_eq!(top.unit, "Ω");
    assert!(matches!(actions[..], [VmAction::PushConst, VmAction::Store]));
    let (top, _) = run(&mut shape, "r1");
    assert_eq!(top.unit, "Ω");
    let _ = run(&mut shape, "r2 = 15kΩ");
    let (top, actions) = run(&mut shape, "r_eq = r1 // r2");
    assert_eq!((top.kind, top.unit.as_str()), (ValueKind::Quantity, "Ω"));
    assert!(matches!(actions[2], VmAction::Binary(Outcome::Compute { .. })));
}

#[test]
fn unknown_names_become_sentinels() {
    let mut shape = Shape::new();
    let (top, actions) = run(&mut shape, "x");
    assert_eq!((top.kind, top.unit.as_str()), (ValueKind::String, "<unknown:x>"));
    assert!(matches!(actions[0], VmAction::PushSentinel(ref s) if s == "<unknown:x>"));
    let (top, _) = run(&mut shape, "10x");
    assert_eq!(top.unit, "<type-error:*>");
    let (top, _) = run(&mut shape, "nope(1, 2)");
    assert_eq!(top.unit, "<unknown-fn:nope>");
}

#[test]
fn empty_cell_reads_as_zero() {
    let mut shape = Shape::new();
    let (top, actions) = run(&mut shape, "");
    assert!(actions.iter().all(|a| matches!(a, VmAction::PushConst)));
    // "" parses to an error node, which lowers to a sentinel string
    assert_eq!(top.kind, ValueKind::String);
    let empty = Shape::new();
    assert_eq!(empty.result().kind, ValueKind::Scalar);
}

#[test]
fn calls_try_builtins_then_user_functions() {
    let mut shape = Shape::new();
    let (_, actions) = run(&mut shape, "cos_deg(60)");
    assert!(matches!(actions[1], VmAction::CallBuiltin(ref n, 1) if n == "cos_deg"));
    let _ = run(&mut shape, "sq(x) = x * x");
    let (_, actions) = run(&mut shape, "sq(3)");
    assert!(matches!(actions[1], VmAction::CallUser(1)));
    // a bound name that is not a function is not called
    let _ = run(&mut shape, "k = 2");
    let (top, _) = run(&mut shape, "k(3)");
    assert_eq!(top.unit, "<unknown-fn:k>");
}

#[test]
fn conversions_and_units() {
    let mut shape = Shape::new();
    let _ = run(&mut shape, "d = 10 m");
    let (top, actions) = run(&mut shape, "d to in");
    assert_eq!((top.kind, top.unit.as_str()), (ValueKind::Quantity, "in"));
    assert!(matches!(actions[1], VmAction::Convert(Ok(_))));
    let (top, _) = run(&mut shape, "d to s");
    assert_eq!(top.unit, "<unit-convert-error>");
    let (top, _) = run(&mut shape, "3 to m");
    assert_eq!(top.unit, "<convert-non-quantity>");
    let (top, _) = run(&mut shape, "5 V / 10kΩ");
    assert_eq!(top.unit, "V/Ω");
    assert_eq!(top.dim.exponents, lookup_unit("A").unwrap().dim.exponents);
}

#[test]
fn user_function_frames_bind_parameters_without_leaking() {
    let mut shape = Shape::new();
    let _ = run(&mut shape, "f = 1");
    let params = vec!["f".to_string(), "C".to_string()];
    let hz = Operand { kind: ValueKind::Quantity, dim: lookup_unit("Hz").unwrap().dim, unit: "Hz".to_string() };
    let mut frame = shape.enter_call(&params, &vec![hz]);
    let (top, _) = run(&mut frame, "f");
    assert_eq!(top.unit, "Hz");
    // a parameter without an argument stays unbound
    let (top, _) = run(&mut frame, "C");
    assert_eq!(top.unit, "<unknown:C>");
    let _ = run(&mut frame, "f = 2");
    let (top, _) = run(&mut shape, "f");
    assert_eq!(top.kind, ValueKind::Scalar);
}
