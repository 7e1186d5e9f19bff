use vstd::prelude::*;

use crate::ast::{BinaryOp, UnaryOp};
use crate::text::str_eq;
use crate::types::{dims_add_fit, dims_sub_fit, Dim, ValueKind};
use crate::units::{lookup_unit, resolve_prefixed_unit, resolve_unit, unit_of, Scale};

verus! {

/// What the stack machine reads of an operand besides its magnitude: its
/// kind, for quantities their dimension and display unit, and for strings
/// their text (held in `unit`).
#[derive(Debug, Clone)]
pub struct Operand {
    pub kind: ValueKind,
    pub dim: Dim,
    pub unit: String,
}

/// How a binary operation comes out: a value of this kind, dimension and
/// unit, computed from the magnitudes; or a sentinel string.
#[derive(Debug, Clone)]
pub enum Outcome {
    Compute { kind: ValueKind, dim: Dim, unit: String },
    Sentinel(String),
}

pub ghost struct OperandModel {
    pub kind: ValueKind,
    pub dim: Seq<i8>,
    pub unit: Seq<char>,
}

pub ghost enum OutcomeModel {
    Compute { kind: ValueKind, dim: Seq<i8>, unit: Seq<char> },
    Sentinel(Seq<char>),
}

impl View for Operand {
    type V = OperandModel;

    open spec fn view(&self) -> OperandModel {
        OperandModel { kind: self.kind, dim: self.dim.exponents@, unit: self.unit@ }
    }
}

impl View for Outcome {
    type V = OutcomeModel;

    open spec fn view(&self) -> OutcomeModel {
        match self {
            Outcome::Compute { kind, dim, unit } => OutcomeModel::Compute {
                kind: *kind,
                dim: dim.exponents@,
                unit: unit@,
            },
            Outcome::Sentinel(s) => OutcomeModel::Sentinel(s@),
        }
    }
}

pub open spec fn no_dim() -> Seq<i8> {
    Seq::new(7, |k: int| 0i8)
}

pub open spec fn dim_sum(a: Seq<i8>, b: Seq<i8>) -> Seq<i8> {
    Seq::new(7, |k: int| (a[k] + b[k]) as i8)
}

pub open spec fn dim_diff(a: Seq<i8>, b: Seq<i8>) -> Seq<i8> {
    Seq::new(7, |k: int| (a[k] - b[k]) as i8)
}

/// A real or complex number without a unit.
pub open spec fn is_number(k: ValueKind) -> bool {
    k == ValueKind::Scalar || k == ValueKind::ComplexScalar
}

/// A real or complex quantity.
pub open spec fn is_quantity(k: ValueKind) -> bool {
    k == ValueKind::Quantity || k == ValueKind::ComplexQuantity
}

/// Numbers combine to a real number when both are real, else to a complex one.
pub open spec fn number_kind(l: ValueKind, r: ValueKind) -> ValueKind {
    if l == ValueKind::Scalar && r == ValueKind::Scalar {
        ValueKind::Scalar
    } else {
        ValueKind::ComplexScalar
    }
}

pub open spec fn type_error(op: BinaryOp) -> Seq<char> {
    match op {
        BinaryOp::Add => "<type-error:+>"@,
        BinaryOp::Sub => "<type-error:->"@,
        BinaryOp::Mul => "<type-error:*>"@,
        BinaryOp::Div => "<type-error:/>"@,
        BinaryOp::Mod => "<type-error:%>"@,
        BinaryOp::Pow => "<type-error:^>"@,
        BinaryOp::Parallel => "<type-error://>"@,
        BinaryOp::Convert => "<unexpected-convert-binop>"@,
    }
}

pub open spec fn overflow() -> Seq<char> {
    "<dimension-overflow>"@
}

pub open spec fn number_out(l: ValueKind, r: ValueKind) -> OutcomeModel {
    OutcomeModel::Compute { kind: number_kind(l, r), dim: no_dim(), unit: Seq::empty() }
}

pub open spec fn keep(kind: ValueKind, o: OperandModel) -> OutcomeModel {
    OutcomeModel::Compute { kind, dim: o.dim, unit: o.unit }
}

/// The product of two quantities: exponents add, units join with `*`.
pub open spec fn product(l: OperandModel, r: OperandModel) -> OutcomeModel {
    if dims_add_fit(l.dim, r.dim) {
        OutcomeModel::Compute {
            kind: ValueKind::Quantity,
            dim: dim_sum(l.dim, r.dim),
            unit: l.unit + seq!['*'] + r.unit,
        }
    } else {
        OutcomeModel::Sentinel(overflow())
    }
}

/// The quotient of two quantities: exponents subtract, units join with `/`.
pub open spec fn quotient(l: OperandModel, r: OperandModel) -> OutcomeModel {
    if dims_sub_fit(l.dim, r.dim) {
        OutcomeModel::Compute {
            kind: ValueKind::Quantity,
            dim: dim_diff(l.dim, r.dim),
            unit: l.unit + seq!['/'] + r.unit,
        }
    } else {
        OutcomeModel::Sentinel(overflow())
    }
}

/// The reciprocal unit of `r`, for a value of kind `kind`: `1/unit`, exponents negated.
pub open spec fn reciprocal(kind: ValueKind, r: OperandModel) -> OutcomeModel {
    if dims_sub_fit(no_dim(), r.dim) {
        OutcomeModel::Compute {
            kind,
            dim: dim_diff(no_dim(), r.dim),
            unit: seq!['1', '/'] + r.unit,
        }
    } else {
        OutcomeModel::Sentinel(overflow())
    }
}

/// The operand-kind table of the binary operators.
pub open spec fn binary_rule(op: BinaryOp, l: OperandModel, r: OperandModel) -> OutcomeModel {
    let (lk, rk) = (l.kind, r.kind);
    let err = OutcomeModel::Sentinel(type_error(op));
    match op {
        BinaryOp::Add | BinaryOp::Sub => if is_number(lk) && is_number(rk) {
            number_out(lk, rk)
        } else if is_quantity(lk) && rk == lk && l.dim == r.dim && l.unit == r.unit {
            keep(lk, l)
        } else {
            err
        },
        BinaryOp::Mul => if is_number(lk) && is_number(rk) {
            number_out(lk, rk)
        } else if lk == ValueKind::Quantity && rk == ValueKind::Quantity {
            product(l, r)
        } else if lk == ValueKind::Quantity && is_number(rk) {
            keep(if rk == ValueKind::Scalar { ValueKind::Quantity } else { ValueKind::ComplexQuantity }, l)
        } else if is_number(lk) && rk == ValueKind::Quantity {
            keep(if lk == ValueKind::Scalar { ValueKind::Quantity } else { ValueKind::ComplexQuantity }, r)
        } else if lk == ValueKind::ComplexQuantity && is_number(rk) {
            keep(ValueKind::ComplexQuantity, l)
        } else if is_number(lk) && rk == ValueKind::ComplexQuantity {
            keep(ValueKind::ComplexQuantity, r)
        } else {
            err
        },
        BinaryOp::Div => if is_number(lk) && is_number(rk) {
            number_out(lk, rk)
        } else if lk == ValueKind::Quantity && rk == ValueKind::Quantity {
            quotient(l, r)
        } else if lk == ValueKind::Quantity && is_number(rk) {
            keep(if rk == ValueKind::Scalar { ValueKind::Quantity } else { ValueKind::ComplexQuantity }, l)
        } else if is_number(lk) && rk == ValueKind::Quantity {
            reciprocal(if lk == ValueKind::Scalar { ValueKind::Quantity } else { ValueKind::ComplexQuantity }, r)
        } else if lk == ValueKind::ComplexQuantity && is_number(rk) {
            keep(ValueKind::ComplexQuantity, l)
        } else if is_number(lk) && rk == ValueKind::ComplexQuantity {
            // The reciprocal unit and negated exponents, as for a real quantity
            // divisor: a number over ohms is in 1/Ω.
            reciprocal(ValueKind::ComplexQuantity, r)
        } else {
            err
        },
        BinaryOp::Mod | BinaryOp::Pow => if lk == ValueKind::Scalar && rk == ValueKind::Scalar {
            number_out(lk, rk)
        } else {
            err
        },
        BinaryOp::Parallel => if lk == ValueKind::Scalar && rk == ValueKind::Scalar {
            number_out(lk, rk)
        } else if lk == ValueKind::ComplexScalar && rk == ValueKind::ComplexScalar {
            number_out(lk, rk)
        } else if is_quantity(lk) && rk == lk && l.dim == r.dim && l.unit == r.unit {
            keep(lk, l)
        } else if is_quantity(lk) && is_quantity(rk) && rk != lk && l.dim == r.dim {
            keep(ValueKind::ComplexQuantity, l)
        } else {
            err
        },
        BinaryOp::Convert => err,
    }
}

} // verus!

verus! {

/// `a`, then `sep`, then `b`.
fn join(a: &str, sep: &str, b: &str) -> (r: String)
    ensures
        r@ == a@ + sep@ + b@,
{
    let mut r = String::from_str(a);
    r.append(sep);
    r.append(b);
    r
}

fn sum_of(a: &Dim, b: &Dim) -> (r: Outcome)
    ensures
        r@ == (if dims_add_fit(a.exponents@, b.exponents@) {
            OutcomeModel::Compute {
                kind: ValueKind::Quantity,
                dim: dim_sum(a.exponents@, b.exponents@),
                unit: Seq::empty(),
            }
        } else {
            OutcomeModel::Sentinel(overflow())
        }),
{
    if a.can_add(b) {
        let d = a.add(b);
        assert(d.exponents@ =~= dim_sum(a.exponents@, b.exponents@)) by {
            assert forall|k: int| 0 <= k < 7 implies d.exponents@[k] == dim_sum(
                a.exponents@,
                b.exponents@,
            )[k] by {
                assert(d.exp(k) == a.exp(k) + b.exp(k));
            }
        }
        Outcome::Compute { kind: ValueKind::Quantity, dim: d, unit: String::new() }
    } else {
        Outcome::Sentinel(String::from_str("<dimension-overflow>"))
    }
}

fn diff_of(a: &Dim, b: &Dim) -> (r: Outcome)
    ensures
        r@ == (if dims_sub_fit(a.exponents@, b.exponents@) {
            OutcomeModel::Compute {
                kind: ValueKind::Quantity,
                dim: dim_diff(a.exponents@, b.exponents@),
                unit: Seq::empty(),
            }
        } else {
            OutcomeModel::Sentinel(overflow())
        }),
{
    if a.can_sub(b) {
        let d = a.sub(b);
        assert(d.exponents@ =~= dim_diff(a.exponents@, b.exponents@)) by {
            assert forall|k: int| 0 <= k < 7 implies d.exponents@[k] == dim_diff(
                a.exponents@,
                b.exponents@,
            )[k] by {
                assert(d.exp(k) == a.exp(k) - b.exp(k));
            }
        }
        Outcome::Compute { kind: ValueKind::Quantity, dim: d, unit: String::new() }
    } else {
        Outcome::Sentinel(String::from_str("<dimension-overflow>"))
    }
}

pub fn zero_dim_exec() -> (r: Dim)
    ensures
        r.exponents@ == no_dim(),
{
    let z = Dim::zero();
    assert forall|k: int| 0 <= k < 7 implies z.exponents@[k] == no_dim()[k] by {
        assert(z.exp(k) == 0);
    }
    assert(z.exponents@ =~= no_dim());
    z
}

fn with_kind_unit(o: Outcome, kind: ValueKind, unit: String) -> (r: Outcome)
    ensures
        r@ == match o@ {
            OutcomeModel::Compute { dim, .. } => OutcomeModel::Compute { kind, dim, unit: unit@ },
            OutcomeModel::Sentinel(s) => OutcomeModel::Sentinel(s),
        },
{
    match o {
        Outcome::Compute { dim, .. } => Outcome::Compute { kind, dim, unit },
        Outcome::Sentinel(s) => Outcome::Sentinel(s),
    }
}

/// The sentinel of an operator applied to operands it does not take.
pub fn type_error_text(op: BinaryOp) -> (r: String)
    ensures
        r@ == type_error(op),
{
    match op {
        BinaryOp::Add => String::from_str("<type-error:+>"),
        BinaryOp::Sub => String::from_str("<type-error:->"),
        BinaryOp::Mul => String::from_str("<type-error:*>"),
        BinaryOp::Div => String::from_str("<type-error:/>"),
        BinaryOp::Mod => String::from_str("<type-error:%>"),
        BinaryOp::Pow => String::from_str("<type-error:^>"),
        BinaryOp::Parallel => String::from_str("<type-error://>"),
        BinaryOp::Convert => String::from_str("<unexpected-convert-binop>"),
    }
}

fn numbers(l: ValueKind, r: ValueKind) -> (o: Outcome)
    ensures
        o@ == number_out(l, r),
{
    let kind = if l == ValueKind::Scalar && r == ValueKind::Scalar {
        ValueKind::Scalar
    } else {
        ValueKind::ComplexScalar
    };
    Outcome::Compute { kind, dim: zero_dim_exec(), unit: String::new() }
}

pub fn keep_operand(kind: ValueKind, o: &Operand) -> (r: Outcome)
    ensures
        r@ == keep(kind, o@),
{
    Outcome::Compute { kind, dim: o.dim, unit: o.unit.clone() }
}

fn is_num(k: ValueKind) -> (r: bool)
    ensures
        r == is_number(k),
{
    k == ValueKind::Scalar || k == ValueKind::ComplexScalar
}

fn is_qty(k: ValueKind) -> (r: bool)
    ensures
        r == is_quantity(k),
{
    k == ValueKind::Quantity || k == ValueKind::ComplexQuantity
}

/// Decides how a binary operation on two operands comes out.
pub fn binary_outcome(op: BinaryOp, l: &Operand, r: &Operand) -> (o: Outcome)
    ensures
        o@ == binary_rule(op, l@, r@),
{
    let (lk, rk) = (l.kind, r.kind);
    let scalar = ValueKind::Scalar;
    let lq = if rk == scalar { ValueKind::Quantity } else { ValueKind::ComplexQuantity };
    let rq = if lk == scalar { ValueKind::Quantity } else { ValueKind::ComplexQuantity };
    match op {
        BinaryOp::Add | BinaryOp::Sub => {
            if is_num(lk) && is_num(rk) {
                numbers(lk, rk)
            } else if is_qty(lk) && rk == lk && l.dim.is_compatible(&r.dim) && str_eq(
                l.unit.as_str(),
                r.unit.as_str(),
            ) {
                keep_operand(lk, l)
            } else {
                Outcome::Sentinel(type_error_text(op))
            }
        },
        BinaryOp::Mul => {
            if is_num(lk) && is_num(rk) {
                numbers(lk, rk)
            } else if lk == ValueKind::Quantity && rk == ValueKind::Quantity {
                proof {
                    reveal_strlit("*");
                }
                let unit = join(l.unit.as_str(), "*", r.unit.as_str());
                assert("*"@ =~= seq!['*']);
                with_kind_unit(sum_of(&l.dim, &r.dim), ValueKind::Quantity, unit)
            } else if lk == ValueKind::Quantity && is_num(rk) {
                keep_operand(lq, l)
            } else if is_num(lk) && rk == ValueKind::Quantity {
                keep_operand(rq, r)
            } else if lk == ValueKind::ComplexQuantity && is_num(rk) {
                keep_operand(ValueKind::ComplexQuantity, l)
            } else if is_num(lk) && rk == ValueKind::ComplexQuantity {
                keep_operand(ValueKind::ComplexQuantity, r)
            } else {
                Outcome::Sentinel(type_error_text(op))
            }
        },
        BinaryOp::Div => {
            proof {
                reveal_strlit("/");
                reveal_strlit("1/");
            }
            assert("/"@ =~= seq!['/']);
            assert("1/"@ =~= seq!['1', '/']);
            if is_num(lk) && is_num(rk) {
                numbers(lk, rk)
            } else if lk == ValueKind::Quantity && rk == ValueKind::Quantity {
                let unit = join(l.unit.as_str(), "/", r.unit.as_str());
                with_kind_unit(diff_of(&l.dim, &r.dim), ValueKind::Quantity, unit)
            } else if lk == ValueKind::Quantity && is_num(rk) {
                keep_operand(lq, l)
            } else if is_num(lk) && rk == ValueKind::Quantity {
                let unit = join("", "1/", r.unit.as_str());
                assert(""@ =~= Seq::<char>::empty()) by {
                    reveal_strlit("");
                }
                with_kind_unit(diff_of(&zero_dim_exec(), &r.dim), rq, unit)
            } else if lk == ValueKind::ComplexQuantity && is_num(rk) {
                keep_operand(ValueKind::ComplexQuantity, l)
            } else if is_num(lk) && rk == ValueKind::ComplexQuantity {
                let unit = join("", "1/", r.unit.as_str());
                assert(""@ =~= Seq::<char>::empty()) by {
                    reveal_strlit("");
                }
                with_kind_unit(diff_of(&zero_dim_exec(), &r.dim), ValueKind::ComplexQuantity, unit)
            } else {
                Outcome::Sentinel(type_error_text(op))
            }
        },
        BinaryOp::Mod | BinaryOp::Pow => {
            if lk == scalar && rk == scalar {
                numbers(lk, rk)
            } else {
                Outcome::Sentinel(type_error_text(op))
            }
        },
        BinaryOp::Parallel => {
            if lk == scalar && rk == scalar {
                numbers(lk, rk)
            } else if lk == ValueKind::ComplexScalar && rk == ValueKind::ComplexScalar {
                numbers(lk, rk)
            } else if is_qty(lk) && rk == lk && l.dim.is_compatible(&r.dim) && str_eq(
                l.unit.as_str(),
                r.unit.as_str(),
            ) {
                keep_operand(lk, l)
            } else if is_qty(lk) && is_qty(rk) && rk != lk && l.dim.is_compatible(&r.dim) {
                keep_operand(ValueKind::ComplexQuantity, l)
            } else {
                Outcome::Sentinel(type_error_text(op))
            }
        },
        BinaryOp::Convert => Outcome::Sentinel(type_error_text(op)),
    }
}

} // verus!

verus! {

/// Unary plus keeps any value; unary minus applies to numbers only.
pub open spec fn unary_rule(op: UnaryOp, v: OperandModel) -> OutcomeModel {
    match op {
        UnaryOp::Plus => keep(v.kind, v),
        UnaryOp::Minus => if is_number(v.kind) {
            keep(v.kind, v)
        } else {
            OutcomeModel::Sentinel("<bad-unary>"@)
        },
    }
}

pub fn unary_outcome(op: UnaryOp, v: &Operand) -> (o: Outcome)
    ensures
        o@ == unary_rule(op, v@),
{
    match op {
        UnaryOp::Plus => keep_operand(v.kind, v),
        UnaryOp::Minus => if is_num(v.kind) {
            keep_operand(v.kind, v)
        } else {
            Outcome::Sentinel(String::from_str("<bad-unary>"))
        },
    }
}

/// A unit conversion to carry out: multiply by `from`'s scale, divide by
/// `to`'s, and label the result with `dim` and `unit`.
#[derive(Debug, Clone, Copy)]
pub struct Conversion {
    pub from: Scale,
    pub to: Scale,
    pub dim: Dim,
    pub unit: &'static str,
}

/// How `value to target` comes out for a value of kind `kind` labelled `unit`:
/// the target resolves (prefixes allowed) to a unit name, both names must be
/// in the table, and their dimensions must agree.
pub open spec fn convert_rule(kind: ValueKind, unit: Seq<char>, target: Seq<char>) -> Result<
    Conversion,
    Seq<char>,
> {
    if kind != ValueKind::Quantity {
        Err("<convert-non-quantity>"@)
    } else {
        let to_name = match resolve_unit(target) {
            Some((_, _, n)) => n@,
            None => target,
        };
        match (unit_of(unit), unit_of(to_name)) {
            (Some(f), Some(t)) => if f.dim.exponents@ == t.dim.exponents@ {
                Ok(Conversion { from: f.scale, to: t.scale, dim: t.dim, unit: t.name })
            } else {
                Err("<unit-convert-error>"@)
            },
            _ => Err("<unit-convert-error>"@),
        }
    }
}

pub fn convert_outcome(kind: ValueKind, unit: &str, target: &str) -> (r: Result<Conversion, String>)
    ensures
        match (r, convert_rule(kind, unit@, target@)) {
            (Ok(c), Ok(s)) => c == s,
            (Err(e), Err(s)) => e@ == s,
            _ => false,
        },
{
    if kind != ValueKind::Quantity {
        return Err(String::from_str("<convert-non-quantity>"));
    }
    let to_name: &str = match resolve_prefixed_unit(target) {
        Some((_, _, n)) => n,
        None => target,
    };
    match (lookup_unit(unit), lookup_unit(to_name)) {
        (Some(f), Some(t)) => {
            if f.dim.is_compatible(&t.dim) {
                Ok(Conversion { from: f.scale, to: t.scale, dim: t.dim, unit: t.name })
            } else {
                Err(String::from_str("<unit-convert-error>"))
            }
        },
        _ => Err(String::from_str("<unit-convert-error>")),
    }
}

/// The value an unbound name loads as.
pub fn unknown_symbol(name: &str) -> (r: String)
    ensures
        r@ == "<unknown:"@ + name@ + ">"@,
{
    join("<unknown:", name, ">")
}

/// The value a call of an unknown function yields.
pub fn unknown_function(name: &str) -> (r: String)
    ensures
        r@ == "<unknown-fn:"@ + name@ + ">"@,
{
    join("<unknown-fn:", name, ">")
}

/// The value an invocation of something that is not a function yields.
pub fn not_callable() -> (r: String)
    ensures
        r@ == "<not-callable>"@,
{
    String::from_str("<not-callable>")
}

} // verus!

verus! {

/// The unit a cell result is displayed with: a quotient of volts by ohms
/// reads as amperes.
pub open spec fn display_unit_of(unit: Seq<char>) -> Seq<char> {
    if crate::text::has_infix(unit, "V/"@) && crate::text::has_infix(unit, "Ω"@) {
        "A"@
    } else {
        unit
    }
}

pub fn display_unit(unit: &str) -> (r: String)
    ensures
        r@ == display_unit_of(unit@),
{
    if crate::text::contains_text(unit, "V/") && crate::text::contains_text(unit, "Ω") {
        String::from_str("A")
    } else {
        String::from_str(unit)
    }
}

/// The operand that an outcome describes, for feeding into a further operation.
pub open spec fn result_operand(o: OutcomeModel) -> OperandModel {
    match o {
        OutcomeModel::Compute { kind, dim, unit } => OperandModel { kind, dim, unit },
        OutcomeModel::Sentinel(s) => OperandModel { kind: ValueKind::String, dim: no_dim(), unit: s },
    }
}

/// Parallel combination does not depend on the order of its operands when
/// they share dimension and unit.
pub proof fn lemma_parallel_commutes(l: OperandModel, r: OperandModel)
    requires
        l.dim == r.dim,
        l.unit == r.unit,
    ensures
        binary_rule(BinaryOp::Parallel, l, r) == binary_rule(BinaryOp::Parallel, r, l),
{
}

/// Parallel combination of quantities of one unit gives that unit again, so
/// both groupings of three such quantities have that unit.
pub proof fn lemma_parallel_grouping(a: OperandModel, b: OperandModel, c: OperandModel)
    requires
        a.kind == ValueKind::Quantity,
        b.kind == ValueKind::Quantity,
        c.kind == ValueKind::Quantity,
        a.dim == b.dim && b.dim == c.dim,
        a.unit == b.unit && b.unit == c.unit,
    ensures
        binary_rule(BinaryOp::Parallel, a, b) == keep(ValueKind::Quantity, a),
        binary_rule(
            BinaryOp::Parallel,
            result_operand(binary_rule(BinaryOp::Parallel, a, b)),
            c,
        ) == keep(ValueKind::Quantity, a),
        binary_rule(
            BinaryOp::Parallel,
            a,
            result_operand(binary_rule(BinaryOp::Parallel, b, c)),
        ) == keep(ValueKind::Quantity, a),
{
}

/// Adding a quantity of the same dimension and unit (such as zero of that
/// unit) keeps the quantity's kind, dimension and unit.
pub proof fn lemma_add_same_unit(q: OperandModel, z: OperandModel)
    requires
        q.kind == ValueKind::Quantity,
        z.kind == ValueKind::Quantity,
        z.dim == q.dim,
        z.unit == q.unit,
    ensures
        binary_rule(BinaryOp::Add, q, z) == keep(ValueKind::Quantity, q),
{
}

} // verus!

verus! {

/// Converting metres to inches and the result back to metres applies
/// reciprocal scale factors, so the round trip is exact up to rounding.
pub proof fn lemma_metre_inch_round_trip()
    ensures
        ({
            let there = convert_rule(ValueKind::Quantity, "m"@, "in"@);
            let back = convert_rule(ValueKind::Quantity, "in"@, "m"@);
            &&& there is Ok
            &&& back is Ok
            &&& there->Ok_0.unit@ == "in"@
            &&& back->Ok_0.unit@ == "m"@
            &&& back->Ok_0.from == there->Ok_0.to
            &&& back->Ok_0.to == there->Ok_0.from
            &&& back->Ok_0.dim == there->Ok_0.dim
        }),
{
    reveal_strlit("m");
    reveal_strlit("kg");
    reveal_strlit("s");
    reveal_strlit("A");
    reveal_strlit("K");
    reveal_strlit("mol");
    reveal_strlit("cd");
    reveal_strlit("V");
    reveal_strlit("Ω");
    reveal_strlit("ohm");
    reveal_strlit("F");
    reveal_strlit("H");
    reveal_strlit("S");
    reveal_strlit("Hz");
    reveal_strlit("rad");
    reveal_strlit("deg");
    reveal_strlit("°");
    reveal_strlit("in");
    reveal_with_fuel(crate::units::find_unit, 2);
    let rows = crate::units::unit_rows();
    assert("kg"@[0] != "in"@[0]);
    assert("cd"@[0] != "in"@[0]);
    assert(unit_of("m"@) == Some(rows[0].info));
    assert(crate::units::find_unit(rows, "in"@, 0) == crate::units::find_unit(rows, "in"@, 1));
    assert(crate::units::find_unit(rows, "in"@, 1) == crate::units::find_unit(rows, "in"@, 2));
    assert(crate::units::find_unit(rows, "in"@, 2) == crate::units::find_unit(rows, "in"@, 3));
    assert(crate::units::find_unit(rows, "in"@, 3) == crate::units::find_unit(rows, "in"@, 4));
    assert(crate::units::find_unit(rows, "in"@, 4) == crate::units::find_unit(rows, "in"@, 5));
    assert(crate::units::find_unit(rows, "in"@, 5) == crate::units::find_unit(rows, "in"@, 6));
    assert(crate::units::find_unit(rows, "in"@, 6) == crate::units::find_unit(rows, "in"@, 7));
    assert(crate::units::find_unit(rows, "in"@, 7) == crate::units::find_unit(rows, "in"@, 8));
    assert(crate::units::find_unit(rows, "in"@, 8) == crate::units::find_unit(rows, "in"@, 9));
    assert(crate::units::find_unit(rows, "in"@, 9) == crate::units::find_unit(rows, "in"@, 10));
    assert(crate::units::find_unit(rows, "in"@, 10) == crate::units::find_unit(rows, "in"@, 11));
    assert(crate::units::find_unit(rows, "in"@, 11) == crate::units::find_unit(rows, "in"@, 12));
    assert(crate::units::find_unit(rows, "in"@, 12) == crate::units::find_unit(rows, "in"@, 13));
    assert(crate::units::find_unit(rows, "in"@, 13) == crate::units::find_unit(rows, "in"@, 14));
    assert(crate::units::find_unit(rows, "in"@, 14) == crate::units::find_unit(rows, "in"@, 15));
    assert(crate::units::find_unit(rows, "in"@, 15) == crate::units::find_unit(rows, "in"@, 16));
    assert(crate::units::find_unit(rows, "in"@, 16) == crate::units::find_unit(rows, "in"@, 17));
    assert(unit_of("in"@) == Some(rows[17].info));
}

} // verus!

verus! {

/// The factor that takes a trigonometric argument to radians: one for a
/// plain number; for a dimensionless quantity, its unit's scale (one when
/// the unit is not in the table); none for anything else.
pub open spec fn angle_rule(v: OperandModel) -> Option<Scale> {
    if v.kind == ValueKind::Scalar {
        Some(crate::units::one())
    } else if v.kind == ValueKind::Quantity && v.dim == no_dim() {
        match unit_of(v.unit) {
            Some(u) => Some(u.scale),
            None => Some(crate::units::one()),
        }
    } else {
        None
    }
}

pub fn angle_scale(v: &Operand) -> (r: Option<Scale>)
    ensures
        r == angle_rule(v@),
{
    let one = Scale { num: 1, den: 1, pow10: 0, pi_pow: 0 };
    if v.kind == ValueKind::Scalar {
        Some(one)
    } else if v.kind == ValueKind::Quantity && v.dim.is_compatible(&zero_dim_exec()) {
        match lookup_unit(v.unit.as_str()) {
            Some(u) => Some(u.scale),
            None => Some(one),
        }
    } else {
        None
    }
}

} // verus!
