use calc_core::ast::{BinaryOp, UnaryOp};
use calc_core::rules::{
    angle_scale, binary_outcome, convert_outcome, display_unit, not_callable, unary_outcome, unknown_function,
    unknown_symbol, Operand, Outcome,
};
use calc_core::text::normalize_fixed;
use calc_core::types::{Dim, ValueKind};
use calc_core::units::{lookup_unit, Scale};

fn scale_value(s: &Scale) -> f64 {
    let mut v = s.num as f64 / s.den as f64;
    if s.pow10 >= 0 {
        v *= 10f64.powi(s.pow10);
    } else {
        v /= 10f64.powi(-s.pow10);
    }
    v * std::f64::consts::PI.powi(s.pi_pow)
}

fn quantity(unit: &str) -> Operand {
    let dim = lookup_unit(unit).map(|u| u.dim).unwrap_or(Dim::zero());
    Operand { kind: ValueKind::Quantity, dim, unit: unit.to_string() }
}

fn plain(kind: ValueKind) -> Operand {
    Operand { kind, dim: Dim::zero(), unit: String::new() }
}

fn computed(o: &Outcome) -> (ValueKind, [i8; 7], String) {
    match o {
        Outcome::Compute { kind, dim, unit } => (*kind, dim.exponents, unit.clone()),
        Outcome::Sentinel(s) => panic!("unexpected sentinel {}", s),
    }
}

fn sentinel(o: &Outcome) -> String {
    match o {
        Outcome::Sentinel(s) => s.clone(),
        Outcome::Compute { .. } => panic!("expected a sentinel"),
    }
}

fn display_number(v: f64) -> String {
    let nearest = v.round();
    let v = if (v - nearest).abs() < 1e-12 { nearest } else { v };
    normalize_fixed(&format!("{:.12}", v))
}

#[test]
fn number_arithmetic_kinds() {
    let n = plain(ValueKind::Scalar);
    let c = plain(ValueKind::ComplexScalar);
    assert_eq!(computed(&binary_outcome(BinaryOp::Add, &n, &n)).0, ValueKind::Scalar);
    assert_eq!(computed(&binary_outcome(BinaryOp::Sub, &n, &c)).0, ValueKind::ComplexScalar);
    assert_eq!(computed(&binary_outcome(BinaryOp::Mul, &c, &c)).0, ValueKind::ComplexScalar);
    assert_eq!(computed(&binary_outcome(BinaryOp::Pow, &n, &n)).0, ValueKind::Scalar);
    assert_eq!(sentinel(&binary_outcome(BinaryOp::Pow, &n, &c)), "<type-error:^>");
    assert_eq!(sentinel(&binary_outcome(BinaryOp::Mod, &c, &n)), "<type-error:%>");
    assert_eq!(sentinel(&binary_outcome(BinaryOp::Parallel, &n, &c)), "<type-error://>");
    assert_eq!(
        sentinel(&binary_outcome(BinaryOp::Convert, &n, &n)),
        "<unexpected-convert-binop>"
    );
}

#[test]
fn quantity_products_and_quotients() {
    let v = quantity("V");
    let r = quantity("Ω");
    let (kind, dim, unit) = computed(&binary_outcome(BinaryOp::Div, &v, &r));
    assert_eq!(kind, ValueKind::Quantity);
    assert_eq!(unit, "V/Ω");
    assert_eq!(dim, lookup_unit("A").unwrap().dim.exponents);
    let (_, dim, unit) = computed(&binary_outcome(BinaryOp::Mul, &v, &r));
    assert_eq!(unit, "V*Ω");
    assert_eq!(dim, [4, 2, -6, -3, 0, 0, 0]);
    let hz = quantity("Hz");
    let (kind, dim, unit) = computed(&binary_outcome(BinaryOp::Div, &plain(ValueKind::Scalar), &hz));
    assert_eq!((kind, unit.as_str()), (ValueKind::Quantity, "1/Hz"));
    assert_eq!(dim, [0, 0, 1, 0, 0, 0, 0]);
    let (kind, _, unit) =
        computed(&binary_outcome(BinaryOp::Div, &plain(ValueKind::ComplexScalar), &hz));
    assert_eq!((kind, unit.as_str()), (ValueKind::ComplexQuantity, "1/Hz"));
    let (kind, _, unit) =
        computed(&binary_outcome(BinaryOp::Mul, &plain(ValueKind::ComplexScalar), &r));
    assert_eq!((kind, unit.as_str()), (ValueKind::ComplexQuantity, "Ω"));
    let big = Operand { kind: ValueKind::Quantity, dim: Dim { exponents: [100, 0, 0, 0, 0, 0, 0] }, unit: "x".to_string() };
    assert_eq!(sentinel(&binary_outcome(BinaryOp::Mul, &big, &big)), "<dimension-overflow>");
}

#[test]
fn addition_needs_same_unit_text() {
    let v = quantity("V");
    let r = quantity("Ω");
    assert_eq!(sentinel(&binary_outcome(BinaryOp::Add, &v, &r)), "<type-error:+>");
    let vr = Operand { unit: "V*Ω".to_string(), ..computed_operand(&binary_outcome(BinaryOp::Mul, &v, &r)) };
    let rv = Operand { unit: "Ω*V".to_string(), ..vr.clone() };
    assert_eq!(sentinel(&binary_outcome(BinaryOp::Sub, &vr, &rv)), "<type-error:->");
    assert_eq!(sentinel(&binary_outcome(BinaryOp::Add, &v, &plain(ValueKind::Scalar))), "<type-error:+>");
}

fn computed_operand(o: &Outcome) -> Operand {
    let (kind, dim, unit) = computed(o);
    Operand { kind, dim: Dim { exponents: dim }, unit }
}

#[test]
fn parallel_rules() {
    let r = quantity("Ω");
    let (kind, _, unit) = computed(&binary_outcome(BinaryOp::Parallel, &r, &r));
    assert_eq!((kind, unit.as_str()), (ValueKind::Quantity, "Ω"));
    let zc = Operand { kind: ValueKind::ComplexQuantity, ..r.clone() };
    let (kind, _, unit) = computed(&binary_outcome(BinaryOp::Parallel, &r, &zc));
    assert_eq!((kind, unit.as_str()), (ValueKind::ComplexQuantity, "Ω"));
    let (kind, _, _) = computed(&binary_outcome(BinaryOp::Parallel, &zc, &r));
    assert_eq!(kind, ValueKind::ComplexQuantity);
    assert_eq!(sentinel(&binary_outcome(BinaryOp::Parallel, &r, &quantity("V"))), "<type-error://>");
    // like kinds need the same unit text as well as the same dimension
    assert_eq!(sentinel(&binary_outcome(BinaryOp::Parallel, &quantity("m"), &quantity("in"))), "<type-error://>");
    let zc_other = Operand { unit: "1/Hz*F".to_string(), ..zc.clone() };
    assert_eq!(sentinel(&binary_outcome(BinaryOp::Parallel, &zc, &zc_other)), "<type-error://>");
    // a real and a complex quantity combine by dimension alone
    let (kind, _, unit) = computed(&binary_outcome(BinaryOp::Parallel, &r, &zc_other));
    assert_eq!((kind, unit.as_str()), (ValueKind::ComplexQuantity, "Ω"));
}

#[test]
fn number_over_complex_quantity_is_reciprocal() {
    let zc = Operand { kind: ValueKind::ComplexQuantity, ..quantity("Ω") };
    for k in [ValueKind::Scalar, ValueKind::ComplexScalar] {
        let (kind, dim, unit) = computed(&binary_outcome(BinaryOp::Div, &plain(k), &zc));
        assert_eq!((kind, unit.as_str()), (ValueKind::ComplexQuantity, "1/Ω"));
        assert_eq!(dim, [-2, -1, 3, 2, 0, 0, 0]);
    }
}

#[test]
fn parallel_commutes_on_equal_units() {
    for unit in ["Ω", "m", "F"] {
        let a = quantity(unit);
        let b = quantity(unit);
        let ab = computed(&binary_outcome(BinaryOp::Parallel, &a, &b));
        let ba = computed(&binary_outcome(BinaryOp::Parallel, &b, &a));
        assert_eq!(ab, ba);
        // the magnitudes: (a*b)/(a+b) does not depend on the order either
        let (x, y) = (10.0f64, 15.0f64);
        assert_eq!(display_number((x * y) / (x + y)), display_number((y * x) / (y + x)));
    }
}

#[test]
fn parallel_groupings_keep_the_unit() {
    let (a, b, c) = (quantity("Ω"), quantity("Ω"), quantity("Ω"));
    let ab = computed_operand(&binary_outcome(BinaryOp::Parallel, &a, &b));
    let left = computed(&binary_outcome(BinaryOp::Parallel, &ab, &c));
    let bc = computed_operand(&binary_outcome(BinaryOp::Parallel, &b, &c));
    let right = computed(&binary_outcome(BinaryOp::Parallel, &a, &bc));
    assert_eq!(left.2, "Ω");
    assert_eq!(right.2, "Ω");
    let p = |x: f64, y: f64| (x * y) / (x + y);
    let (l, r) = (p(p(10.0, 20.0), 30.0), p(10.0, p(20.0, 30.0)));
    assert!(((l - r) / l).abs() < 1e-9);
}

#[test]
fn adding_zero_of_the_unit_keeps_the_quantity() {
    for unit in ["Ω", "m", "kg", "V/Ω"] {
        let q = Operand { unit: unit.to_string(), ..quantity("m") };
        let (kind, dim, u) = computed(&binary_outcome(BinaryOp::Add, &q, &q.clone()));
        assert_eq!((kind, dim, u.as_str()), (ValueKind::Quantity, q.dim.exponents, unit));
    }
}

#[test]
fn unary_rules() {
    let r = quantity("Ω");
    assert_eq!(computed(&unary_outcome(UnaryOp::Plus, &r)).2, "Ω");
    assert_eq!(sentinel(&unary_outcome(UnaryOp::Minus, &r)), "<bad-unary>");
    assert_eq!(computed(&unary_outcome(UnaryOp::Minus, &plain(ValueKind::ComplexScalar))).0, ValueKind::ComplexScalar);
    assert_eq!(sentinel(&unary_outcome(UnaryOp::Minus, &plain(ValueKind::Bool))), "<bad-unary>");
}

#[test]
fn conversions() {
    let c = convert_outcome(ValueKind::Quantity, "m", "in").unwrap();
    assert_eq!(c.unit, "in");
    let inches = 10.0 * scale_value(&c.from) / scale_value(&c.to);
    assert_eq!(display_number(inches), "393.700787401575");
    let back = convert_outcome(ValueKind::Quantity, "in", "m").unwrap();
    assert_eq!(back.unit, "m");
    assert_eq!(back.from, c.to);
    assert_eq!(back.to, c.from);
    for a in [0.0f64, 1.0, 2.5, 123456.789] {
        let there = a * scale_value(&c.from) / scale_value(&c.to);
        let again = there * scale_value(&back.from) / scale_value(&back.to);
        assert!((again - a).abs() <= 1e-9 * a.abs());
    }
    // a prefixed target resolves to its unit name first
    let k = convert_outcome(ValueKind::Quantity, "s", "min").unwrap();
    assert_eq!(k.unit, "s");
    assert_eq!(
        convert_outcome(ValueKind::Quantity, "m", "s").unwrap_err(),
        "<unit-convert-error>"
    );
    assert_eq!(
        convert_outcome(ValueKind::Quantity, "V/Ω", "A").unwrap_err(),
        "<unit-convert-error>"
    );
    assert_eq!(
        convert_outcome(ValueKind::Scalar, "", "m").unwrap_err(),
        "<convert-non-quantity>"
    );
    assert_eq!(
        convert_outcome(ValueKind::Quantity, "m", "").unwrap_err(),
        "<unit-convert-error>"
    );
}

#[test]
fn sentinel_texts() {
    assert_eq!(unknown_symbol("x"), "<unknown:x>");
    assert_eq!(unknown_function("foo"), "<unknown-fn:foo>");
    assert_eq!(not_callable(), "<not-callable>");
}

#[test]
fn volts_per_ohm_display_as_amperes() {
    assert_eq!(display_unit("V/Ω"), "A");
    assert_eq!(display_unit("V/kΩ*Ω"), "A");
    assert_eq!(display_unit("V*Ω"), "V*Ω");
    assert_eq!(display_unit("Ω"), "Ω");
    assert_eq!(display_unit(""), "");
}

#[test]
fn fixed_point_text_is_tidied() {
    assert_eq!(normalize_fixed("10000.000000000000"), "10000");
    assert_eq!(normalize_fixed("0.000500000000"), "0.0005");
    assert_eq!(normalize_fixed("-0.000000000000"), "0");
    assert_eq!(normalize_fixed("-0"), "0");
    assert_eq!(normalize_fixed("100"), "100");
    assert_eq!(normalize_fixed("NaN"), "NaN");
    assert_eq!(normalize_fixed("-2.500000000000"), "-2.5");
}

#[test]
fn zero_and_near_integer_display() {
    assert_eq!(display_number(0.0), "0");
    assert_eq!(display_number(-0.0), "0");
    assert_eq!(display_number(1.0 - 1e-13), "1");
    assert_eq!(display_number(6000.0), "6000");
}

#[test]
fn angle_scales() {
    let one = angle_scale(&plain(ValueKind::Scalar)).unwrap();
    assert_eq!(scale_value(&one), 1.0);
    let deg = Operand { kind: ValueKind::Quantity, dim: Dim::zero(), unit: "deg".to_string() };
    let s = angle_scale(&deg).unwrap();
    assert!((scale_value(&s) - std::f64::consts::PI / 180.0).abs() < 1e-15);
    // 90 ° lowers to radians, whose scale is one
    let rad = Operand { unit: "rad".to_string(), ..deg.clone() };
    assert_eq!(scale_value(&angle_scale(&rad).unwrap()), 1.0);
    assert!(((90.0 * scale_value(&s)).sin() - 1.0).abs() < 1e-12);
    assert!(angle_scale(&quantity("m")).is_none());
    assert!(angle_scale(&plain(ValueKind::ComplexScalar)).is_none());
}
