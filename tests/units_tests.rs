use calc_core::types::Dim;
use calc_core::units::{
    canonical_unit_for_dim, lookup_unit, metric_scale, resolve_prefixed_unit, try_canonicalize,
    Scale,
};

fn scale_value(s: &Scale) -> f64 {
    let mut v = s.num as f64 / s.den as f64;
    if s.pow10 >= 0 {
        v *= 10f64.powi(s.pow10);
    } else {
        v /= 10f64.powi(-s.pow10);
    }
    v * std::f64::consts::PI.powi(s.pi_pow)
}

#[test]
fn lookup_basic_units() {
    let m = lookup_unit("m").unwrap();
    assert_eq!(m.name, "m");
    let ohm = lookup_unit("ohm").unwrap();
    assert_eq!(ohm.name, "Ω");
}

#[test]
fn prefixed_units() {
    let (_d, scale, name) = resolve_prefixed_unit("kΩ").unwrap();
    assert_eq!(name, "Ω");
    assert!((scale_value(&scale) - 1000.0).abs() < 1e-12);
}

#[test]
fn angle_units_scale() {
    let deg = lookup_unit("deg").unwrap();
    let rad = lookup_unit("rad").unwrap();
    assert_eq!(scale_value(&rad.scale), 1.0);
    assert!((scale_value(&deg.scale) - std::f64::consts::PI / 180.0).abs() < 1e-12);
}

#[test]
fn canonical_for_dimension() {
    let meter = lookup_unit("m").unwrap();
    let canon = canonical_unit_for_dim(&meter.dim).unwrap();
    assert_eq!(canon, "m");
}

#[test]
fn lookup_is_exact_and_case_sensitive() {
    assert!(lookup_unit("M").is_none());
    assert!(lookup_unit("").is_none());
    assert!(lookup_unit("meter").is_none());
    let g = lookup_unit("g").unwrap();
    assert_eq!(g.name, "kg");
    assert!((scale_value(&g.scale) - 1e-3).abs() < 1e-15);
    let inch = lookup_unit("in").unwrap();
    assert_eq!(inch.name, "in");
    assert_eq!(scale_value(&inch.scale), 0.0254);
    let oz = lookup_unit("oz").unwrap();
    assert!((scale_value(&oz.scale) - 0.028_349_523_125).abs() < 1e-15);
}

#[test]
fn direct_lookup_wins_over_prefix_split() {
    // `mm`, `min` and `cd` are table entries, not milli-metre-metre or centi-day
    let (_, mm, name) = resolve_prefixed_unit("mm").unwrap();
    assert_eq!(name, "m");
    assert!((scale_value(&mm) - 1e-3).abs() < 1e-15);
    let (_, min, name) = resolve_prefixed_unit("min").unwrap();
    assert_eq!(name, "s");
    assert_eq!(scale_value(&min), 60.0);
    let (d, _, name) = resolve_prefixed_unit("cd").unwrap();
    assert_eq!(name, "cd");
    assert_eq!(d.exponents, [0, 0, 0, 0, 0, 0, 1]);
}

#[test]
fn prefixes_longest_first_and_micro_spellings() {
    let (_, s, name) = resolve_prefixed_unit("dam").unwrap();
    assert_eq!(name, "m");
    assert_eq!((s.pow10, s.num, s.den), (1, 1, 1));
    let (_, u, _) = resolve_prefixed_unit("uF").unwrap();
    let (_, mu, name) = resolve_prefixed_unit("μF").unwrap();
    assert_eq!(name, "F");
    assert_eq!(u, mu);
    assert_eq!(u.pow10, -6);
    let (_, n, _) = resolve_prefixed_unit("nF").unwrap();
    assert_eq!(n.pow10, -9);
    let (_, km, _) = resolve_prefixed_unit("kg").unwrap();
    assert_eq!(km.pow10, 0);
    let (_, mg, name) = resolve_prefixed_unit("mg").unwrap();
    assert_eq!(name, "kg");
    assert_eq!(mg.pow10, -6);
    assert!(resolve_prefixed_unit("xyz").is_none());
    assert!(resolve_prefixed_unit("k").is_none());
}

#[test]
fn metric_scale_values() {
    assert_eq!(metric_scale("Y").unwrap().pow10, 24);
    assert_eq!(metric_scale("da").unwrap().pow10, 1);
    assert_eq!(metric_scale("y").unwrap().pow10, -24);
    assert!(metric_scale("q").is_none());
    assert!(metric_scale("").is_none());
}

#[test]
fn canonical_names_by_dimension() {
    let ohm = lookup_unit("ohm").unwrap();
    assert_eq!(canonical_unit_for_dim(&ohm.dim), Some("Ω"));
    let deg = lookup_unit("deg").unwrap();
    assert_eq!(canonical_unit_for_dim(&deg.dim), Some("rad"));
    let odd = Dim { exponents: [3, 0, 0, 0, 0, 0, 0] };
    assert_eq!(canonical_unit_for_dim(&odd), None);
    assert_eq!(try_canonicalize("m^3", &odd), "m^3");
    let lb = lookup_unit("lb").unwrap();
    assert_eq!(try_canonicalize("lb", &lb.dim), "kg");
}

#[test]
fn dim_arithmetic() {
    let v = lookup_unit("V").unwrap().dim;
    let ohm = lookup_unit("Ω").unwrap().dim;
    let amp = lookup_unit("A").unwrap().dim;
    assert!(v.sub(&ohm).is_compatible(&amp));
    assert!(amp.add(&ohm).is_compatible(&v));
    assert_eq!(amp.mul_scalar(-2).exponents, [0, 0, 0, -2, 0, 0, 0]);
    assert!(Dim::zero().is_compatible(&lookup_unit("rad").unwrap().dim));
    assert!(!v.is_compatible(&ohm));
    let big = Dim { exponents: [100, 0, 0, 0, 0, 0, 0] };
    assert!(!big.can_add(&big));
    assert!(big.can_sub(&big));
}
