use vstd::prelude::*;

use crate::ast::{clone_strings, expr_model, exprs_model, lemma_exprs_model_len, BinaryOp, Expr, ExprModel, UnaryOp};
use crate::types::{Dim, UserFunction, UserFunctionModel};
use crate::units::{canonical_of, canonical_unit_for_dim, lookup_unit, unit_of, Scale};

verus! {

/// A value that the lowering places on the stack directly.
#[derive(Debug, PartialEq)]
pub enum Constant {
    Number(String),
    Quantity { value: String, scale: Scale, dim: Dim, unit: String },
    Bool(bool),
    Str(String),
    Function(UserFunction),
}

#[derive(Debug, PartialEq)]
pub enum OpCode {
    Const(Constant),
    LoadSym(String),
    StoreSym(String),
    Unary(UnaryOp),
    Binary(BinaryOp),
    LoadUnit(String),
    CallName(String, usize),
    Invoke(usize),
    Convert(String),
}

/// A linear opcode stream.
#[derive(Debug, PartialEq)]
pub struct Chunk {
    pub ops: Vec<OpCode>,
}

pub ghost enum ConstModel {
    Number(Seq<char>),
    Quantity { value: Seq<char>, scale: Scale, dim: Seq<i8>, unit: Seq<char> },
    Bool(bool),
    Str(Seq<char>),
    Function(UserFunctionModel),
}

pub ghost enum OpModel {
    Const(ConstModel),
    LoadSym(Seq<char>),
    StoreSym(Seq<char>),
    Unary(UnaryOp),
    Binary(BinaryOp),
    LoadUnit(Seq<char>),
    CallName(Seq<char>, nat),
    Invoke(nat),
    Convert(Seq<char>),
}

impl View for Constant {
    type V = ConstModel;

    open spec fn view(&self) -> ConstModel {
        match self {
            Constant::Number(s) => ConstModel::Number(s@),
            Constant::Quantity { value, scale, dim, unit } => ConstModel::Quantity {
                value: value@,
                scale: *scale,
                dim: dim.exponents@,
                unit: unit@,
            },
            Constant::Bool(b) => ConstModel::Bool(*b),
            Constant::Str(s) => ConstModel::Str(s@),
            Constant::Function(f) => ConstModel::Function(f@),
        }
    }
}

impl View for OpCode {
    type V = OpModel;

    open spec fn view(&self) -> OpModel {
        match self {
            OpCode::Const(c) => OpModel::Const(c@),
            OpCode::LoadSym(s) => OpModel::LoadSym(s@),
            OpCode::StoreSym(s) => OpModel::StoreSym(s@),
            OpCode::Unary(op) => OpModel::Unary(*op),
            OpCode::Binary(op) => OpModel::Binary(*op),
            OpCode::LoadUnit(s) => OpModel::LoadUnit(s@),
            OpCode::CallName(s, n) => OpModel::CallName(s@, *n as nat),
            OpCode::Invoke(n) => OpModel::Invoke(*n as nat),
            OpCode::Convert(s) => OpModel::Convert(s@),
        }
    }
}

pub open spec fn ops_model(s: Seq<OpCode>) -> Seq<OpModel> {
    s.map_values(|o: OpCode| o@)
}

pub open spec fn zero_dim() -> Seq<i8> {
    Seq::new(7, |k: int| 0i8)
}

/// The constant a quantity literal lowers to: the dimension of its unit and
/// the canonical name of that dimension; an unknown unit is kept as written
/// and taken as dimensionless.
pub open spec fn quantity_constant(value: Seq<char>, scale: Scale, unit: Seq<char>) -> ConstModel {
    match unit_of(unit) {
        Some(u) => ConstModel::Quantity {
            value,
            scale,
            dim: u.dim.exponents@,
            unit: match canonical_of(u.dim.exponents@) {
                Some(c) => c@,
                None => u.name@,
            },
        },
        None => ConstModel::Quantity { value, scale, dim: zero_dim(), unit },
    }
}

/// The unit name a conversion's right-hand side stands for.
pub open spec fn convert_target(right: ExprModel) -> Seq<char> {
    match right {
        ExprModel::Ident(u) => u,
        ExprModel::Quantity { unit, .. } => unit,
        _ => Seq::empty(),
    }
}

/// Post-order lowering: operands first, then the operator.
pub open spec fn lower_spec(e: ExprModel) -> Seq<OpModel>
    decreases e,
{
    match e {
        ExprModel::Number(n) => seq![OpModel::Const(ConstModel::Number(n))],
        ExprModel::Bool(b) => seq![OpModel::Const(ConstModel::Bool(b))],
        ExprModel::String(s) => seq![OpModel::Const(ConstModel::Str(s))],
        ExprModel::Ident(name) => seq![OpModel::LoadSym(name)],
        ExprModel::Unary { op, expr } => lower_spec(*expr).push(OpModel::Unary(op)),
        ExprModel::Binary { op, left, right } => if op == BinaryOp::Convert {
            lower_spec(*left).push(OpModel::Convert(convert_target(*right)))
        } else {
            (lower_spec(*left) + lower_spec(*right)).push(OpModel::Binary(op))
        },
        ExprModel::Assign { name, expr } => lower_spec(*expr).push(OpModel::StoreSym(name)),
        ExprModel::Call { callee, args } => match *callee {
            ExprModel::Ident(name) => lower_seq(args).push(OpModel::CallName(name, args.len())),
            _ => (lower_spec(*callee) + lower_seq(args)).push(OpModel::Invoke(args.len())),
        },
        ExprModel::Quantity { value, scale, unit } => seq![
            OpModel::Const(quantity_constant(value, scale, unit)),
        ],
        ExprModel::Function { name, params, body } => seq![
            OpModel::Const(ConstModel::Function(UserFunctionModel { params, body: *body })),
            OpModel::StoreSym(name),
        ],
        _ => seq![OpModel::Const(ConstModel::Str("<unhandled>"@))],
    }
}

/// The lowering of several expressions, one after another.
pub open spec fn lower_seq(es: Seq<ExprModel>) -> Seq<OpModel>
    decreases es,
{
    if es.len() == 0 {
        Seq::empty()
    } else {
        lower_seq(es.drop_last()) + lower_spec(es.last())
    }
}

impl Chunk {
    pub fn new() -> (r: Chunk)
        ensures
            r.ops@.len() == 0,
    {
        Chunk { ops: Vec::new() }
    }

    fn emit(&mut self, op: OpCode)
        ensures
            ops_model(final(self).ops@) == ops_model(old(self).ops@).push(op@),
    {
        let ghost before = self.ops@;
        self.ops.push(op);
        assert(ops_model(self.ops@) =~= ops_model(before).push(op@));
    }
}

/// Lowers an expression tree to a linear opcode stream.
pub fn lower_expr(expr: &Expr) -> (c: Chunk)
    ensures
        ops_model(c.ops@) == lower_spec(expr@),
{
    let mut c = Chunk::new();
    lower_into(expr, &mut c);
    assert(ops_model(c.ops@) =~= Seq::<OpModel>::empty() + lower_spec(expr@));
    c
}

fn lower_args(args: &Vec<Expr>, c: &mut Chunk)
    ensures
        ops_model(final(c).ops@) == ops_model(old(c).ops@) + lower_seq(exprs_model(args@)),
    decreases args,
{
    let ghost start = ops_model(c.ops@);
    let mut i: usize = 0;
    while i < args.len()
        invariant
            i <= args@.len(),
            ops_model(c.ops@) == start + lower_seq(exprs_model(args@.subrange(0, i as int))),
        decreases args.len() - i,
    {
        proof {
            vstd::std_specs::vec::axiom_vec_index_decreases(*args, i as int);
        }
        lower_into(&args[i], c);
        proof {
            let sub = args@.subrange(0, i + 1);
            let pre = args@.subrange(0, i as int);
            assert(sub.drop_last() =~= pre);
            assert(exprs_model(sub) == exprs_model(pre).push(expr_model(args@[i as int])));
            assert(exprs_model(sub).drop_last() =~= exprs_model(pre));
            assert(lower_seq(exprs_model(sub)) == lower_seq(exprs_model(pre)) + lower_spec(
                expr_model(args@[i as int]),
            ));
        }
        i = i + 1;
    }
    assert(args@.subrange(0, i as int) =~= args@);
}

fn lower_into(expr: &Expr, c: &mut Chunk)
    ensures
        ops_model(final(c).ops@) == ops_model(old(c).ops@) + lower_spec(expr@),
    decreases expr,
{
    let ghost start = ops_model(c.ops@);
    match expr {
        Expr::Number(n) => {
            c.emit(OpCode::Const(Constant::Number(n.clone())));
            proof {
                assert(ops_model(c.ops@) =~= start + lower_spec(expr@));
            }
        },
        Expr::Bool(b) => {
            c.emit(OpCode::Const(Constant::Bool(*b)));
            proof {
                assert(ops_model(c.ops@) =~= start + lower_spec(expr@));
            }
        },
        Expr::String(s) => {
            c.emit(OpCode::Const(Constant::Str(s.clone())));
            proof {
                assert(ops_model(c.ops@) =~= start + lower_spec(expr@));
            }
        },
        Expr::Ident(name) => {
            c.emit(OpCode::LoadSym(name.clone()));
            proof {
                assert(ops_model(c.ops@) =~= start + lower_spec(expr@));
            }
        },
        Expr::Unary { op, expr: inner } => {
            lower_into(inner, c);
            c.emit(OpCode::Unary(*op));
            proof {
                assert(ops_model(c.ops@) =~= start + lower_spec(expr@));
            }
        },
        Expr::Binary { op, left, right } => {
            if *op == BinaryOp::Convert {
                lower_into(left, c);
                let target = match &**right {
                    Expr::Ident(u) => u.clone(),
                    Expr::Quantity { unit, .. } => unit.clone(),
                    _ => String::new(),
                };
                assert(target@ == convert_target(expr_model(**right)));
                c.emit(OpCode::Convert(target));
                proof {
                assert(ops_model(c.ops@) =~= start + lower_spec(expr@));
            }
            } else {
                lower_into(left, c);
                lower_into(right, c);
                c.emit(OpCode::Binary(*op));
                proof {
                assert(ops_model(c.ops@) =~= start + lower_spec(expr@));
            }
            }
        },
        Expr::Assign { name, expr: inner } => {
            lower_into(inner, c);
            c.emit(OpCode::StoreSym(name.clone()));
            proof {
                assert(ops_model(c.ops@) =~= start + lower_spec(expr@));
            }
        },
        Expr::Call { callee, args } => {
            proof {
                lemma_exprs_model_len(args@);
            }
            if let Expr::Ident(name) = &**callee {
                lower_args(args, c);
                c.emit(OpCode::CallName(name.clone(), args.len()));
                proof {
                    assert(expr_model(**callee) == ExprModel::Ident(name@));
                    assert(ops_model(c.ops@) =~= start + lower_spec(expr@));
                }
            } else {
                lower_into(callee, c);
                lower_args(args, c);
                c.emit(OpCode::Invoke(args.len()));
                proof {
                    assert(ops_model(c.ops@) =~= start + lower_spec(expr@));
                }
            }
        },
        Expr::Quantity { value, scale, unit } => {
            let k = match lookup_unit(unit.as_str()) {
                Some(u) => {
                    let name = match canonical_unit_for_dim(&u.dim) {
                        Some(canon) => canon,
                        None => u.name,
                    };
                    Constant::Quantity {
                        value: value.clone(),
                        scale: *scale,
                        dim: u.dim,
                        unit: String::from_str(name),
                    }
                },
                None => {
                    let z = Dim::zero();
                    assert forall|k: int| 0 <= k < 7 implies z.exponents@[k] == zero_dim()[k] by {
                        assert(z.exp(k) == 0);
                    }
                    assert(z.exponents@ =~= zero_dim());
                    Constant::Quantity {
                        value: value.clone(),
                        scale: *scale,
                        dim: z,
                        unit: unit.clone(),
                    }
                },
            };
            c.emit(OpCode::Const(k));
            proof {
                assert(ops_model(c.ops@) =~= start + lower_spec(expr@));
            }
        },
        Expr::Function { name, params, body } => {
            let f = UserFunction { params: clone_strings(params), body: (**body).deep_clone() };
            c.emit(OpCode::Const(Constant::Function(f)));
            c.emit(OpCode::StoreSym(name.clone()));
            proof {
                assert(ops_model(c.ops@) =~= start + lower_spec(expr@));
            }
        },
        _ => {
            c.emit(OpCode::Const(Constant::Str(String::from_str("<unhandled>"))));
            proof {
                assert(ops_model(c.ops@) =~= start + lower_spec(expr@));
            }
        },
    }
}

} // verus!
