use vstd::prelude::*;

use crate::text::{starts_with, str_eq};
use crate::types::Dim;

verus! {

/// An exact scale factor to a canonical unit:
/// `num / den × 10^pow10 × π^pi_pow`.
#[derive(Debug, Clone, Copy, PartialEq, Eq, Structural)]
pub struct Scale {
    pub num: u64,
    pub den: u64,
    pub pow10: i32,
    pub pi_pow: i32,
}

pub open spec fn spec_scale(num: u64, den: u64, pow10: i32, pi_pow: i32) -> Scale {
    Scale { num, den, pow10, pi_pow }
}

impl Scale {
    /// The scale of a canonical unit.
    pub open spec fn is_one(&self) -> bool {
        self.num == self.den && self.pow10 == 0 && self.pi_pow == 0
    }
}

/// A unit of the table: the name it displays as, its dimension, and its
/// scale to the canonical unit of that dimension.
#[derive(Debug, Clone, Copy)]
pub struct UnitInfo {
    pub name: &'static str,
    pub dim: Dim,
    pub scale: Scale,
}

/// One row of the unit table: the symbol a literal is written with, and its unit.
#[derive(Debug, Clone, Copy)]
pub struct UnitRow {
    pub symbol: &'static str,
    pub info: UnitInfo,
}

pub open spec fn row(symbol: &'static str, name: &'static str, e: [i8; 7], scale: Scale) -> UnitRow {
    UnitRow { symbol, info: UnitInfo { name, dim: Dim { exponents: e }, scale } }
}

fn mk_row(symbol: &'static str, name: &'static str, e: [i8; 7], scale: Scale) -> (r: UnitRow)
    ensures
        r == row(symbol, name, e, scale),
{
    UnitRow { symbol, info: UnitInfo { name, dim: Dim { exponents: e }, scale } }
}

} // verus!

verus! {

pub open spec fn one() -> Scale {
    spec_scale(1, 1, 0, 0)
}

/// The unit table, in the order in which it is searched.
pub open spec fn unit_rows() -> Seq<UnitRow> {
    seq![
        row("m", "m", [1, 0, 0, 0, 0, 0, 0], one()),
        row("kg", "kg", [0, 1, 0, 0, 0, 0, 0], one()),
        row("s", "s", [0, 0, 1, 0, 0, 0, 0], one()),
        row("A", "A", [0, 0, 0, 1, 0, 0, 0], one()),
        row("K", "K", [0, 0, 0, 0, 1, 0, 0], one()),
        row("mol", "mol", [0, 0, 0, 0, 0, 1, 0], one()),
        row("cd", "cd", [0, 0, 0, 0, 0, 0, 1], one()),
        row("V", "V", [2, 1, -3i8, -1i8, 0, 0, 0], one()),
        row("Ω", "Ω", [2, 1, -3i8, -2i8, 0, 0, 0], one()),
        row("ohm", "Ω", [2, 1, -3i8, -2i8, 0, 0, 0], one()),
        row("F", "F", [-2i8, -1i8, 4, 2, 0, 0, 0], one()),
        row("H", "H", [2, 1, -2i8, -2i8, 0, 0, 0], one()),
        row("S", "S", [-2i8, -1i8, 3, 2, 0, 0, 0], one()),
        row("Hz", "Hz", [0, 0, -1i8, 0, 0, 0, 0], one()),
        row("rad", "rad", [0, 0, 0, 0, 0, 0, 0], one()),
        row("deg", "deg", [0, 0, 0, 0, 0, 0, 0], spec_scale(1, 180, 0, 1)),
        row("°", "°", [0, 0, 0, 0, 0, 0, 0], spec_scale(1, 180, 0, 1)),
        row("in", "in", [1, 0, 0, 0, 0, 0, 0], spec_scale(254, 1, -4i32, 0)),
        row("ft", "ft", [1, 0, 0, 0, 0, 0, 0], spec_scale(3048, 1, -4i32, 0)),
        row("cm", "m", [1, 0, 0, 0, 0, 0, 0], spec_scale(1, 1, -2i32, 0)),
        row("mm", "m", [1, 0, 0, 0, 0, 0, 0], spec_scale(1, 1, -3i32, 0)),
        row("km", "m", [1, 0, 0, 0, 0, 0, 0], spec_scale(1, 1, 3, 0)),
        row("yd", "yd", [1, 0, 0, 0, 0, 0, 0], spec_scale(9144, 1, -4i32, 0)),
        row("mi", "mi", [1, 0, 0, 0, 0, 0, 0], spec_scale(1609344, 1, -3i32, 0)),
        row("ms", "s", [0, 0, 1, 0, 0, 0, 0], spec_scale(1, 1, -3i32, 0)),
        row("min", "s", [0, 0, 1, 0, 0, 0, 0], spec_scale(60, 1, 0, 0)),
        row("hr", "s", [0, 0, 1, 0, 0, 0, 0], spec_scale(3600, 1, 0, 0)),
        row("g", "kg", [0, 1, 0, 0, 0, 0, 0], spec_scale(1, 1, -3i32, 0)),
        row("lb", "lb", [0, 1, 0, 0, 0, 0, 0], spec_scale(45359237, 1, -8i32, 0)),
        row("oz", "oz", [0, 1, 0, 0, 0, 0, 0], spec_scale(28349523125, 1, -12i32, 0)),
    ]
}

pub fn unit_table() -> (v: Vec<UnitRow>)
    ensures
        v@ == unit_rows(),
{
    let one = Scale { num: 1, den: 1, pow10: 0, pi_pow: 0 };
    let deg = Scale { num: 1, den: 180, pow10: 0, pi_pow: 1 };
    let v = vec![
        mk_row("m", "m", [1, 0, 0, 0, 0, 0, 0], one),
        mk_row("kg", "kg", [0, 1, 0, 0, 0, 0, 0], one),
        mk_row("s", "s", [0, 0, 1, 0, 0, 0, 0], one),
        mk_row("A", "A", [0, 0, 0, 1, 0, 0, 0], one),
        mk_row("K", "K", [0, 0, 0, 0, 1, 0, 0], one),
        mk_row("mol", "mol", [0, 0, 0, 0, 0, 1, 0], one),
        mk_row("cd", "cd", [0, 0, 0, 0, 0, 0, 1], one),
        mk_row("V", "V", [2, 1, -3, -1, 0, 0, 0], one),
        mk_row("Ω", "Ω", [2, 1, -3, -2, 0, 0, 0], one),
        mk_row("ohm", "Ω", [2, 1, -3, -2, 0, 0, 0], one),
        mk_row("F", "F", [-2, -1, 4, 2, 0, 0, 0], one),
        mk_row("H", "H", [2, 1, -2, -2, 0, 0, 0], one),
        mk_row("S", "S", [-2, -1, 3, 2, 0, 0, 0], one),
        mk_row("Hz", "Hz", [0, 0, -1, 0, 0, 0, 0], one),
        mk_row("rad", "rad", [0, 0, 0, 0, 0, 0, 0], one),
        mk_row("deg", "deg", [0, 0, 0, 0, 0, 0, 0], deg),
        mk_row("°", "°", [0, 0, 0, 0, 0, 0, 0], deg),
        mk_row("in", "in", [1, 0, 0, 0, 0, 0, 0], Scale { num: 254, den: 1, pow10: -4, pi_pow: 0 }),
        mk_row("ft", "ft", [1, 0, 0, 0, 0, 0, 0], Scale { num: 3048, den: 1, pow10: -4, pi_pow: 0 }),
        mk_row("cm", "m", [1, 0, 0, 0, 0, 0, 0], Scale { num: 1, den: 1, pow10: -2, pi_pow: 0 }),
        mk_row("mm", "m", [1, 0, 0, 0, 0, 0, 0], Scale { num: 1, den: 1, pow10: -3, pi_pow: 0 }),
        mk_row("km", "m", [1, 0, 0, 0, 0, 0, 0], Scale { num: 1, den: 1, pow10: 3, pi_pow: 0 }),
        mk_row("yd", "yd", [1, 0, 0, 0, 0, 0, 0], Scale { num: 9144, den: 1, pow10: -4, pi_pow: 0 }),
        mk_row("mi", "mi", [1, 0, 0, 0, 0, 0, 0], Scale { num: 1609344, den: 1, pow10: -3, pi_pow: 0 }),
        mk_row("ms", "s", [0, 0, 1, 0, 0, 0, 0], Scale { num: 1, den: 1, pow10: -3, pi_pow: 0 }),
        mk_row("min", "s", [0, 0, 1, 0, 0, 0, 0], Scale { num: 60, den: 1, pow10: 0, pi_pow: 0 }),
        mk_row("hr", "s", [0, 0, 1, 0, 0, 0, 0], Scale { num: 3600, den: 1, pow10: 0, pi_pow: 0 }),
        mk_row("g", "kg", [0, 1, 0, 0, 0, 0, 0], Scale { num: 1, den: 1, pow10: -3, pi_pow: 0 }),
        mk_row("lb", "lb", [0, 1, 0, 0, 0, 0, 0], Scale { num: 45359237, den: 1, pow10: -8, pi_pow: 0 }),
        mk_row("oz", "oz", [0, 1, 0, 0, 0, 0, 0], Scale { num: 28349523125, den: 1, pow10: -12, pi_pow: 0 }),
    ];
    assert(v@ =~= unit_rows());
    v
}

} // verus!

verus! {

/// The first row at or after `i` whose symbol is `sym`.
pub open spec fn find_unit(rows: Seq<UnitRow>, sym: Seq<char>, i: int) -> Option<UnitInfo>
    decreases rows.len() - i,
{
    if i < 0 || i >= rows.len() {
        None
    } else if rows[i].symbol@ == sym {
        Some(rows[i].info)
    } else {
        find_unit(rows, sym, i + 1)
    }
}

/// The unit that a symbol names in the table, if any (exact, case-sensitive).
pub open spec fn unit_of(sym: Seq<char>) -> Option<UnitInfo> {
    find_unit(unit_rows(), sym, 0)
}

/// Looks a symbol up in the unit table.
pub fn lookup_unit(name: &str) -> (r: Option<UnitInfo>)
    ensures
        r == unit_of(name@),
{
    let rows = unit_table();
    let mut i: usize = 0;
    while i < rows.len()
        invariant
            rows@ == unit_rows(),
            i <= rows@.len(),
            find_unit(rows@, name@, 0) == find_unit(rows@, name@, i as int),
        decreases rows.len() - i,
    {
        if str_eq(rows[i].symbol, name) {
            return Some(rows[i].info);
        }
        i = i + 1;
    }
    None
}

/// The name of the first row at or after `i` whose dimension is `dim` and
/// whose scale is exactly one.
pub open spec fn find_canonical(rows: Seq<UnitRow>, dim: Seq<i8>, i: int) -> Option<&'static str>
    decreases rows.len() - i,
{
    if i < 0 || i >= rows.len() {
        None
    } else if rows[i].info.dim.exponents@ == dim && rows[i].info.scale.is_one() {
        Some(rows[i].info.name)
    } else {
        find_canonical(rows, dim, i + 1)
    }
}

/// The canonical unit name of a dimension: a unit of that dimension with scale one.
pub open spec fn canonical_of(dim: Seq<i8>) -> Option<&'static str> {
    find_canonical(unit_rows(), dim, 0)
}

pub fn canonical_unit_for_dim(dim: &Dim) -> (r: Option<&'static str>)
    ensures
        r == canonical_of(dim.exponents@),
{
    let rows = unit_table();
    let mut i: usize = 0;
    while i < rows.len()
        invariant
            rows@ == unit_rows(),
            i <= rows@.len(),
            canonical_of(dim.exponents@) == find_canonical(rows@, dim.exponents@, i as int),
        decreases rows.len() - i,
    {
        let u = rows[i].info;
        if u.dim.is_compatible(dim) && u.scale.num == u.scale.den && u.scale.pow10 == 0
            && u.scale.pi_pow == 0 {
            return Some(u.name);
        }
        i = i + 1;
    }
    None
}

/// The canonical name for `dim` when there is one, else `unit` itself.
pub fn try_canonicalize(unit: &str, dim: &Dim) -> (r: String)
    ensures
        r@ == match canonical_of(dim.exponents@) {
            Some(c) => c@,
            None => unit@,
        },
{
    match canonical_unit_for_dim(dim) {
        Some(c) => String::from_str(c),
        None => String::from_str(unit),
    }
}

/// Metric prefixes and their powers of ten, longest prefix first.
pub open spec fn prefix_rows() -> Seq<(&'static str, i32)> {
    seq![
        ("da", 1i32), ("Y", 24i32), ("Z", 21i32), ("E", 18i32), ("P", 15i32), ("T", 12i32),
        ("G", 9i32), ("M", 6i32), ("k", 3i32), ("h", 2i32), ("d", -1i32), ("c", -2i32),
        ("m", -3i32), ("u", -6i32), ("μ", -6i32), ("n", -9i32), ("p", -12i32), ("f", -15i32),
        ("a", -18i32), ("z", -21i32), ("y", -24i32),
    ]
}

pub fn prefix_table() -> (v: Vec<(&'static str, i32)>)
    ensures
        v@ == prefix_rows(),
{
    let v = vec![
        ("da", 1i32), ("Y", 24i32), ("Z", 21i32), ("E", 18i32), ("P", 15i32), ("T", 12i32),
        ("G", 9i32), ("M", 6i32), ("k", 3i32), ("h", 2i32), ("d", -1i32), ("c", -2i32),
        ("m", -3i32), ("u", -6i32), ("μ", -6i32), ("n", -9i32), ("p", -12i32), ("f", -15i32),
        ("a", -18i32), ("z", -21i32), ("y", -24i32),
    ];
    assert(v@ =~= prefix_rows());
    v
}

pub open spec fn find_prefix(rows: Seq<(&'static str, i32)>, p: Seq<char>, i: int) -> Option<i32>
    decreases rows.len() - i,
{
    if i < 0 || i >= rows.len() {
        None
    } else if rows[i].0@ == p {
        Some(rows[i].1)
    } else {
        find_prefix(rows, p, i + 1)
    }
}

/// The power of ten that a metric prefix stands for.
pub open spec fn prefix_power(p: Seq<char>) -> Option<i32> {
    find_prefix(prefix_rows(), p, 0)
}

/// The scale that a metric prefix stands for, `10^k`.
pub fn metric_scale(prefix: &str) -> (r: Option<Scale>)
    ensures
        r == match prefix_power(prefix@) {
            Some(k) => Some(spec_scale(1, 1, k, 0)),
            None => None,
        },
{
    let rows = prefix_table();
    let mut i: usize = 0;
    while i < rows.len()
        invariant
            rows@ == prefix_rows(),
            i <= rows@.len(),
            prefix_power(prefix@) == find_prefix(rows@, prefix@, i as int),
        decreases rows.len() - i,
    {
        if str_eq(rows[i].0, prefix) {
            return Some(Scale { num: 1, den: 1, pow10: rows[i].1, pi_pow: 0 });
        }
        i = i + 1;
    }
    None
}

/// Every unit of the table has a power of ten small enough to take any prefix.
pub proof fn lemma_unit_pow10_small(sym: Seq<char>)
    ensures
        unit_of(sym) matches Some(u) ==> -12 <= u.scale.pow10 <= 3,
{
    let rows = unit_rows();
    assert forall|i: int| 0 <= i < rows.len() implies -12 <= #[trigger] rows[i].info.scale.pow10
        <= 3 by {}
    lemma_find_unit_in_rows(rows, sym, 0);
}

proof fn lemma_find_unit_in_rows(rows: Seq<UnitRow>, sym: Seq<char>, i: int)
    ensures
        find_unit(rows, sym, i) matches Some(u) ==> exists|j: int|
            0 <= j < rows.len() && #[trigger] rows[j].info == u,
    decreases rows.len() - i,
{
    if 0 <= i < rows.len() && rows[i].symbol@ != sym {
        lemma_find_unit_in_rows(rows, sym, i + 1);
    }
}

/// A unit scale multiplied by the power of ten of a prefix.
pub open spec fn with_pow10(s: Scale, k: i32) -> Scale {
    Scale { pow10: (s.pow10 + k) as i32, ..s }
}

/// The result of prefix-splitting `tok`, trying the prefixes from row `i` on.
pub open spec fn split_prefix(tok: Seq<char>, i: int) -> Option<(Dim, Scale, &'static str)>
    decreases prefix_rows().len() - i,
{
    if i < 0 || i >= prefix_rows().len() {
        None
    } else {
        let (p, k) = prefix_rows()[i];
        if p@.len() <= tok.len() && tok.subrange(0, p@.len() as int) == p@ && unit_of(
            tok.subrange(p@.len() as int, tok.len() as int),
        ) is Some {
            let u = unit_of(tok.subrange(p@.len() as int, tok.len() as int))->0;
            Some((u.dim, with_pow10(u.scale, k), u.name))
        } else {
            split_prefix(tok, i + 1)
        }
    }
}

/// How a unit token resolves: a direct table entry first, then the first
/// metric prefix whose remainder is a unit of the table.
pub open spec fn resolve_unit(tok: Seq<char>) -> Option<(Dim, Scale, &'static str)> {
    match unit_of(tok) {
        Some(u) => Some((u.dim, u.scale, u.name)),
        None => split_prefix(tok, 0),
    }
}

pub fn resolve_prefixed_unit(token: &str) -> (r: Option<(Dim, Scale, &'static str)>)
    ensures
        r == resolve_unit(token@),
{
    if let Some(u) = lookup_unit(token) {
        return Some((u.dim, u.scale, u.name));
    }
    let prefixes = prefix_table();
    let n = token.unicode_len();
    let mut i: usize = 0;
    while i < prefixes.len()
        invariant
            prefixes@ == prefix_rows(),
            n == token@.len(),
            i <= prefixes@.len(),
            resolve_unit(token@) == split_prefix(token@, i as int),
        decreases prefixes.len() - i,
    {
        let (p, k) = prefixes[i];
        if starts_with(token, p) {
            let base = token.substring_char(p.unicode_len(), n);
            if let Some(u) = lookup_unit(base) {
                proof {
                    lemma_unit_pow10_small(base@);
                    assert(-24 <= k <= 24);
                }
                let scaled = Scale { pow10: u.scale.pow10 + k, ..u.scale };
                return Some((u.dim, scaled, u.name));
            }
        }
        i = i + 1;
    }
    None
}

} // verus!
