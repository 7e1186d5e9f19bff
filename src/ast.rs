use vstd::prelude::*;

use crate::units::Scale;

verus! {

#[derive(Debug, Clone, Copy, PartialEq, Eq, Structural)]
pub enum UnaryOp {
    Plus,
    Minus,
}

#[derive(Debug, Clone, Copy, PartialEq, Eq, Structural)]
pub enum BinaryOp {
    Add,
    Sub,
    Mul,
    Div,
    Mod,
    Pow,
    Parallel,
    Convert,
}

/// An expression tree. Numeric literals, and the parts of a complex literal,
/// are kept as decimal text; a quantity literal keeps its magnitude, the
/// exact scale of its unit, and the canonical name of that unit.
#[derive(Debug, PartialEq)]
pub enum Expr {
    Number(String),
    Complex { re: String, im: String },
    Quantity { value: String, scale: Scale, unit: String },
    Bool(bool),
    String(String),
    Ident(String),
    Array(Vec<Expr>),
    Record(Vec<(String, Expr)>),
    Unary { op: UnaryOp, expr: Box<Expr> },
    Binary { op: BinaryOp, left: Box<Expr>, right: Box<Expr> },
    Call { callee: Box<Expr>, args: Vec<Expr> },
    Assign { name: String, expr: Box<Expr> },
    Function { name: String, params: Vec<String>, body: Box<Expr> },
    Error,
}

/// The mathematical value of an expression tree.
pub ghost enum ExprModel {
    Number(Seq<char>),
    Complex { re: Seq<char>, im: Seq<char> },
    Quantity { value: Seq<char>, scale: Scale, unit: Seq<char> },
    Bool(bool),
    String(Seq<char>),
    Ident(Seq<char>),
    Array(Seq<ExprModel>),
    Record(Seq<(Seq<char>, ExprModel)>),
    Unary { op: UnaryOp, expr: Box<ExprModel> },
    Binary { op: BinaryOp, left: Box<ExprModel>, right: Box<ExprModel> },
    Call { callee: Box<ExprModel>, args: Seq<ExprModel> },
    Assign { name: Seq<char>, expr: Box<ExprModel> },
    Function { name: Seq<char>, params: Seq<Seq<char>>, body: Box<ExprModel> },
    Error,
}

pub open spec fn strings_model(s: Seq<String>) -> Seq<Seq<char>> {
    s.map_values(|x: String| x@)
}

pub open spec fn expr_model(e: Expr) -> ExprModel
    decreases e,
{
    match e {
        Expr::Number(s) => ExprModel::Number(s@),
        Expr::Complex { re, im } => ExprModel::Complex { re: re@, im: im@ },
        Expr::Quantity { value, scale, unit } => ExprModel::Quantity {
            value: value@,
            scale,
            unit: unit@,
        },
        Expr::Bool(b) => ExprModel::Bool(b),
        Expr::String(s) => ExprModel::String(s@),
        Expr::Ident(s) => ExprModel::Ident(s@),
        Expr::Array(items) => ExprModel::Array(exprs_model(items@)),
        Expr::Record(fields) => ExprModel::Record(fields_model(fields@)),
        Expr::Unary { op, expr } => ExprModel::Unary { op, expr: Box::new(expr_model(*expr)) },
        Expr::Binary { op, left, right } => ExprModel::Binary {
            op,
            left: Box::new(expr_model(*left)),
            right: Box::new(expr_model(*right)),
        },
        Expr::Call { callee, args } => ExprModel::Call {
            callee: Box::new(expr_model(*callee)),
            args: exprs_model(args@),
        },
        Expr::Assign { name, expr } => ExprModel::Assign {
            name: name@,
            expr: Box::new(expr_model(*expr)),
        },
        Expr::Function { name, params, body } => ExprModel::Function {
            name: name@,
            params: strings_model(params@),
            body: Box::new(expr_model(*body)),
        },
        Expr::Error => ExprModel::Error,
    }
}

pub open spec fn exprs_model(s: Seq<Expr>) -> Seq<ExprModel>
    decreases s,
{
    if s.len() == 0 {
        Seq::empty()
    } else {
        exprs_model(s.drop_last()).push(expr_model(s.last()))
    }
}

pub proof fn lemma_exprs_model_len(s: Seq<Expr>)
    ensures
        exprs_model(s).len() == s.len(),
    decreases s.len(),
{
    if s.len() > 0 {
        lemma_exprs_model_len(s.drop_last());
    }
}

pub open spec fn fields_model(s: Seq<(String, Expr)>) -> Seq<(Seq<char>, ExprModel)>
    decreases s,
{
    if s.len() == 0 {
        Seq::empty()
    } else {
        fields_model(s.drop_last()).push((s.last().0@, expr_model(s.last().1)))
    }
}

impl View for Expr {
    type V = ExprModel;

    open spec fn view(&self) -> ExprModel {
        expr_model(*self)
    }
}

pub fn clone_strings(v: &Vec<String>) -> (r: Vec<String>)
    ensures
        r@ == v@,
{
    let mut r: Vec<String> = Vec::new();
    let mut i: usize = 0;
    while i < v.len()
        invariant
            i <= v@.len(),
            r@ == v@.subrange(0, i as int),
        decreases v.len() - i,
    {
        r.push(v[i].clone());
        i = i + 1;
        assert(r@ =~= v@.subrange(0, i as int));
    }
    assert(r@ =~= v@);
    r
}

impl Expr {
    /// A copy of the tree with the same model.
    pub fn deep_clone(&self) -> (r: Expr)
        ensures
            r@ == self@,
        decreases self,
    {
        match self {
            Expr::Number(s) => Expr::Number(s.clone()),
            Expr::Complex { re, im } => Expr::Complex { re: re.clone(), im: im.clone() },
            Expr::Quantity { value, scale, unit } => Expr::Quantity {
                value: value.clone(),
                scale: *scale,
                unit: unit.clone(),
            },
            Expr::Bool(b) => Expr::Bool(*b),
            Expr::String(s) => Expr::String(s.clone()),
            Expr::Ident(s) => Expr::Ident(s.clone()),
            Expr::Array(items) => Expr::Array(clone_exprs(items)),
            Expr::Record(fields) => Expr::Record(clone_fields(fields)),
            Expr::Unary { op, expr } => Expr::Unary { op: *op, expr: Box::new((**expr).deep_clone()) },
            Expr::Binary { op, left, right } => Expr::Binary {
                op: *op,
                left: Box::new((**left).deep_clone()),
                right: Box::new((**right).deep_clone()),
            },
            Expr::Call { callee, args } => Expr::Call {
                callee: Box::new((**callee).deep_clone()),
                args: clone_exprs(args),
            },
            Expr::Assign { name, expr } => Expr::Assign {
                name: name.clone(),
                expr: Box::new((**expr).deep_clone()),
            },
            Expr::Function { name, params, body } => Expr::Function {
                name: name.clone(),
                params: clone_strings(params),
                body: Box::new((**body).deep_clone()),
            },
            Expr::Error => Expr::Error,
        }
    }
}

fn clone_exprs(v: &Vec<Expr>) -> (r: Vec<Expr>)
    ensures
        exprs_model(r@) == exprs_model(v@),
    decreases v,
{
    let mut r: Vec<Expr> = Vec::new();
    let mut i: usize = 0;
    while i < v.len()
        invariant
            i <= v@.len(),
            r@.len() == i,
            exprs_model(r@) == exprs_model(v@.subrange(0, i as int)),
        decreases v.len() - i,
    {
        proof {
            vstd::std_specs::vec::axiom_vec_index_decreases(*v, i as int);
        }
        let c = v[i].deep_clone();
        let ghost before = r@;
        r.push(c);
        i = i + 1;
        assert(r@.drop_last() =~= before);
        assert(v@.subrange(0, i as int).drop_last() =~= v@.subrange(0, i - 1));
    }
    assert(v@.subrange(0, i as int) =~= v@);
    r
}

fn clone_fields(v: &Vec<(String, Expr)>) -> (r: Vec<(String, Expr)>)
    ensures
        fields_model(r@) == fields_model(v@),
    decreases v,
{
    let mut r: Vec<(String, Expr)> = Vec::new();
    let mut i: usize = 0;
    while i < v.len()
        invariant
            i <= v@.len(),
            r@.len() == i,
            fields_model(r@) == fields_model(v@.subrange(0, i as int)),
        decreases v.len() - i,
    {
        proof {
            vstd::std_specs::vec::axiom_vec_index_decreases(*v, i as int);
        }
        let c = v[i].1.deep_clone();
        let ghost before = r@;
        r.push((v[i].0.clone(), c));
        i = i + 1;
        assert(r@.drop_last() =~= before);
        assert(v@.subrange(0, i as int).drop_last() =~= v@.subrange(0, i - 1));
    }
    assert(v@.subrange(0, i as int) =~= v@);
    r
}

/// A cell's source text and its expression.
#[derive(Debug, PartialEq)]
pub struct CellAst {
    pub text: String,
    pub expr: Expr,
}

} // verus!
