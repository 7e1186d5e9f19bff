use vstd::prelude::*;

use crate::ast::{expr_model, exprs_model, fields_model, strings_model, Expr, ExprModel};
use crate::text::str_eq;

verus! {

/// The names an expression reads: identifiers and callee names, less the
/// parameters of a function definition within its body.
pub open spec fn uses_of(e: ExprModel) -> Set<Seq<char>>
    decreases e,
{
    match e {
        ExprModel::Ident(s) => set![s],
        ExprModel::Unary { expr, .. } => uses_of(*expr),
        ExprModel::Binary { left, right, .. } => uses_of(*left).union(uses_of(*right)),
        ExprModel::Call { callee, args } => uses_of(*callee).union(uses_all(args)),
        ExprModel::Array(items) => uses_all(items),
        ExprModel::Record(fields) => uses_fields(fields),
        ExprModel::Function { params, body, .. } => uses_of(*body).difference(params.to_set()),
        _ => Set::empty(),
    }
}

pub open spec fn uses_all(es: Seq<ExprModel>) -> Set<Seq<char>>
    decreases es,
{
    if es.len() == 0 {
        Set::empty()
    } else {
        uses_all(es.drop_last()).union(uses_of(es.last()))
    }
}

pub open spec fn uses_fields(fs: Seq<(Seq<char>, ExprModel)>) -> Set<Seq<char>>
    decreases fs,
{
    if fs.len() == 0 {
        Set::empty()
    } else {
        uses_fields(fs.drop_last()).union(uses_of(fs.last().1))
    }
}

/// A list of distinct names, as a set.
pub open spec fn name_set(v: Seq<String>) -> Set<Seq<char>> {
    strings_model(v).to_set()
}

pub open spec fn distinct(v: Seq<String>) -> bool {
    strings_model(v).no_duplicates()
}

/// Whether `name` is among `v`.
fn contains_name(v: &Vec<String>, name: &str) -> (r: bool)
    ensures
        r == name_set(v@).contains(name@),
{
    let mut i: usize = 0;
    while i < v.len()
        invariant
            i <= v@.len(),
            forall|j: int| 0 <= j < i ==> v@[j]@ != name@,
        decreases v.len() - i,
    {
        if str_eq(v[i].as_str(), name) {
            assert(strings_model(v@)[i as int] == name@);
            return true;
        }
        i = i + 1;
    }
    assert(!strings_model(v@).contains(name@)) by {
        if strings_model(v@).contains(name@) {
            let j = choose|j: int| 0 <= j < strings_model(v@).len() && strings_model(v@)[j] == name@;
            assert(v@[j]@ == name@);
        }
    }
    false
}

/// Adds `name` unless it is there already.
fn add_name(out: &mut Vec<String>, name: &str)
    requires
        distinct(old(out)@),
    ensures
        distinct(final(out)@),
        name_set(final(out)@) == name_set(old(out)@).insert(name@),
{
    if contains_name(out, name) {
        assert(name_set(out@) =~= name_set(out@).insert(name@));
        return ;
    }
    let ghost before = out@;
    out.push(String::from_str(name));
    assert(strings_model(out@) =~= strings_model(before).push(name@));
    proof {
        strings_model(before).lemma_push_to_set_commute(name@);
    }
}

/// Adds each name of `names` that is not there already.
fn add_all(out: &mut Vec<String>, names: &Vec<String>)
    requires
        distinct(old(out)@),
    ensures
        distinct(final(out)@),
        name_set(final(out)@) == name_set(old(out)@).union(name_set(names@)),
{
    let ghost start = name_set(out@);
    let mut i: usize = 0;
    while i < names.len()
        invariant
            i <= names@.len(),
            distinct(out@),
            name_set(out@) == start.union(name_set(names@.subrange(0, i as int))),
        decreases names.len() - i,
    {
        add_name(out, names[i].as_str());
        proof {
            let pre = names@.subrange(0, i as int);
            let post = names@.subrange(0, i + 1);
            assert(strings_model(post) =~= strings_model(pre).push(names@[i as int]@));
            strings_model(pre).lemma_push_to_set_commute(names@[i as int]@);
        }
        i = i + 1;
        assert(name_set(out@) =~= start.union(name_set(names@.subrange(0, i as int))));
    }
    assert(names@.subrange(0, i as int) =~= names@);
}

/// The names of `v` that are not among `drop`.
fn without(v: &Vec<String>, drop: &Vec<String>) -> (r: Vec<String>)
    requires
        distinct(v@),
    ensures
        distinct(r@),
        name_set(r@) == name_set(v@).difference(name_set(drop@)),
{
    let mut r: Vec<String> = Vec::new();
    let mut i: usize = 0;
    while i < v.len()
        invariant
            i <= v@.len(),
            distinct(v@),
            distinct(r@),
            name_set(r@) == name_set(v@.subrange(0, i as int)).difference(name_set(drop@)),
        decreases v.len() - i,
    {
        let ghost pre = v@.subrange(0, i as int);
        let ghost post = v@.subrange(0, i + 1);
        proof {
            assert(strings_model(post) =~= strings_model(pre).push(v@[i as int]@));
            strings_model(pre).lemma_push_to_set_commute(v@[i as int]@);
        }
        if !contains_name(drop, v[i].as_str()) {
            add_name(&mut r, v[i].as_str());
            assert(name_set(r@) =~= name_set(post).difference(name_set(drop@)));
        } else {
            assert(name_set(r@) =~= name_set(post).difference(name_set(drop@)));
        }
        i = i + 1;
    }
    assert(v@.subrange(0, i as int) =~= v@);
    r
}

fn collect_all(items: &Vec<Expr>, out: &mut Vec<String>)
    requires
        distinct(old(out)@),
    ensures
        distinct(final(out)@),
        name_set(final(out)@) == name_set(old(out)@).union(uses_all(exprs_model(items@))),
    decreases items,
{
    let ghost start = name_set(out@);
    let mut i: usize = 0;
    while i < items.len()
        invariant
            i <= items@.len(),
            distinct(out@),
            name_set(out@) == start.union(uses_all(exprs_model(items@.subrange(0, i as int)))),
        decreases items.len() - i,
    {
        proof {
            vstd::std_specs::vec::axiom_vec_index_decreases(*items, i as int);
        }
        collect_uses(&items[i], out);
        proof {
            let pre = items@.subrange(0, i as int);
            let post = items@.subrange(0, i + 1);
            assert(post.drop_last() =~= pre);
            assert(exprs_model(post).drop_last() =~= exprs_model(pre));
        }
        i = i + 1;
        assert(name_set(out@) =~= start.union(uses_all(exprs_model(items@.subrange(0, i as int)))));
    }
    assert(items@.subrange(0, i as int) =~= items@);
}

fn collect_fields(fields: &Vec<(String, Expr)>, out: &mut Vec<String>)
    requires
        distinct(old(out)@),
    ensures
        distinct(final(out)@),
        name_set(final(out)@) == name_set(old(out)@).union(uses_fields(fields_model(fields@))),
    decreases fields,
{
    let ghost start = name_set(out@);
    let mut i: usize = 0;
    while i < fields.len()
        invariant
            i <= fields@.len(),
            distinct(out@),
            name_set(out@) == start.union(
                uses_fields(fields_model(fields@.subrange(0, i as int))),
            ),
        decreases fields.len() - i,
    {
        proof {
            vstd::std_specs::vec::axiom_vec_index_decreases(*fields, i as int);
        }
        collect_uses(&fields[i].1, out);
        proof {
            let pre = fields@.subrange(0, i as int);
            let post = fields@.subrange(0, i + 1);
            assert(post.drop_last() =~= pre);
            assert(fields_model(post).drop_last() =~= fields_model(pre));
        }
        i = i + 1;
        assert(name_set(out@) =~= start.union(
            uses_fields(fields_model(fields@.subrange(0, i as int))),
        ));
    }
    assert(fields@.subrange(0, i as int) =~= fields@);
}

fn collect_uses(e: &Expr, out: &mut Vec<String>)
    requires
        distinct(old(out)@),
    ensures
        distinct(final(out)@),
        name_set(final(out)@) == name_set(old(out)@).union(uses_of(e@)),
    decreases e,
{
    let ghost start = name_set(out@);
    match e {
        Expr::Ident(s) => {
            add_name(out, s.as_str());
            assert(name_set(out@) =~= start.union(uses_of(e@)));
        },
        Expr::Unary { expr, .. } => {
            collect_uses(expr, out);
        },
        Expr::Binary { left, right, .. } => {
            collect_uses(left, out);
            collect_uses(right, out);
            assert(name_set(out@) =~= start.union(uses_of(e@)));
        },
        Expr::Call { callee, args } => {
            collect_uses(callee, out);
            collect_all(args, out);
            assert(name_set(out@) =~= start.union(uses_of(e@)));
        },
        Expr::Array(items) => {
            collect_all(items, out);
        },
        Expr::Record(fields) => {
            collect_fields(fields, out);
        },
        Expr::Function { params, body, .. } => {
            let mut inner: Vec<String> = Vec::new();
            assert(name_set(inner@) =~= Set::empty());
            collect_uses(body, &mut inner);
            let free = without(&inner, params);
            add_all(out, &free);
            assert(name_set(inner@) =~= uses_of(expr_model(**body)));
            assert(name_set(out@) =~= start.union(uses_of(e@)));
        },
        _ => {
            assert(name_set(out@) =~= start.union(uses_of(e@)));
        },
    }
}

/// The names a cell defines and the names it reads. An assignment defines its
/// name and reads what its right-hand side reads; any other cell defines
/// nothing. The names read are listed once each, in no particular order.
pub fn bind_cell(expr: &Expr) -> (r: (Vec<String>, Vec<String>))
    ensures
        strings_model(r.0@) == (match expr@ {
            ExprModel::Assign { name, .. } => seq![name],
            _ => Seq::empty(),
        }),
        distinct(r.1@),
        name_set(r.1@) == (match expr@ {
            ExprModel::Assign { expr: rhs, .. } => uses_of(*rhs),
            other => uses_of(other),
        }),
{
    let mut defines: Vec<String> = Vec::new();
    let mut uses: Vec<String> = Vec::new();
    assert(name_set(uses@) =~= Set::empty());
    match expr {
        Expr::Assign { name, expr: rhs } => {
            defines.push(name.clone());
            collect_uses(rhs, &mut uses);
            assert(strings_model(defines@) =~= seq![name@]);
            assert(name_set(uses@) =~= uses_of(expr_model(**rhs)));
        },
        _ => {
            collect_uses(expr, &mut uses);
            assert(strings_model(defines@) =~= Seq::<Seq<char>>::empty());
            assert(name_set(uses@) =~= uses_of(expr@));
        },
    }
    (defines, uses)
}

} // verus!
