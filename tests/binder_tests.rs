use calc_core::binder::bind_cell;
use calc_core::parser::parse_cell;

fn sorted(mut v: Vec<String>) -> Vec<String> {
    v.sort();
    v
}

#[test]
fn assignment_defines_its_name() {
    let p = parse_cell("r_eq = r1 // r2");
    let (defines, uses) = bind_cell(&p.expr);
    assert_eq!(defines, vec!["r_eq".to_string()]);
    assert_eq!(sorted(uses), vec!["r1".to_string(), "r2".to_string()]);
}

#[test]
fn uses_are_listed_once_and_include_callees() {
    let p = parse_cell("x * x + sin(x)");
    let (defines, uses) = bind_cell(&p.expr);
    assert!(defines.is_empty());
    assert_eq!(sorted(uses), vec!["sin".to_string(), "x".to_string()]);
}

#[test]
fn function_parameters_are_not_uses() {
    let p = parse_cell("Zc(f, C) = -1 * i() / (2*pi() * f * C * k)");
    let (defines, uses) = bind_cell(&p.expr);
    assert!(defines.is_empty());
    assert_eq!(sorted(uses), vec!["i".to_string(), "k".to_string(), "pi".to_string()]);
}

#[test]
fn literals_use_nothing() {
    let (defines, uses) = bind_cell(&parse_cell("10 kΩ").expr);
    assert!(defines.is_empty());
    assert!(uses.is_empty());
}
