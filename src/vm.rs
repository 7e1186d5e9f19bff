use vstd::prelude::*;

use crate::ir::{ConstModel, Constant, OpCode, OpModel};
use crate::rules::{
    binary_outcome, binary_rule, convert_outcome, convert_rule, no_dim, not_callable,
    result_operand, unary_outcome, unary_rule, unknown_function, unknown_symbol, zero_dim_exec,
    Conversion, Operand, OperandModel, Outcome, OutcomeModel,
};
use crate::text::str_eq;
use crate::types::ValueKind;

verus! {

/// What the stack machine knows between opcodes: the operands on its stack
/// and the symbols bound so far. The magnitudes live beside it, with the
/// caller, which carries out the action each step returns.
pub struct Shape {
    pub stack: Vec<Operand>,
    pub symbols: Vec<(String, Operand)>,
}

/// What the caller does to its magnitudes for one opcode.
pub enum VmAction {
    /// Push the opcode's constant.
    PushConst,
    /// Push the value bound to the opcode's name.
    Load,
    /// Push this string.
    PushSentinel(String),
    /// Pop a value (a plain zero if the stack is empty), bind it to the
    /// opcode's name, and push it back.
    Store,
    /// Pop a value (or zero) and push the outcome of the unary operator.
    Unary(Outcome),
    /// Pop the right then the left value (each zero if missing) and push the
    /// outcome of the binary operator.
    Binary(Outcome),
    /// Pop a value (or zero) and push the conversion result or the sentinel.
    Convert(Result<Conversion, String>),
    /// Pop this many arguments (zeros for missing ones), call the named
    /// built-in, and report its result with `push_result`.
    CallBuiltin(String, usize),
    /// Pop this many arguments, and for `Invoke` the callee beneath them;
    /// call the user function (for `CallName`, the one bound to the name) in
    /// a frame from `enter_call`, and report its result with `push_result`.
    CallUser(usize),
}

pub ghost struct ShapeModel {
    pub stack: Seq<OperandModel>,
    pub symbols: Seq<(Seq<char>, OperandModel)>,
}

pub ghost enum ActionModel {
    PushConst,
    Load,
    PushSentinel(Seq<char>),
    Store,
    Unary(OutcomeModel),
    Binary(OutcomeModel),
    Convert(Result<Conversion, Seq<char>>),
    CallBuiltin(Seq<char>, nat),
    CallUser(nat),
}

pub open spec fn stack_model(s: Seq<Operand>) -> Seq<OperandModel> {
    s.map_values(|o: Operand| o@)
}

pub open spec fn symbols_model(s: Seq<(String, Operand)>) -> Seq<(Seq<char>, OperandModel)> {
    s.map_values(|p: (String, Operand)| (p.0@, p.1@))
}

impl View for Shape {
    type V = ShapeModel;

    open spec fn view(&self) -> ShapeModel {
        ShapeModel { stack: stack_model(self.stack@), symbols: symbols_model(self.symbols@) }
    }
}

impl View for VmAction {
    type V = ActionModel;

    open spec fn view(&self) -> ActionModel {
        match self {
            VmAction::PushConst => ActionModel::PushConst,
            VmAction::Load => ActionModel::Load,
            VmAction::PushSentinel(s) => ActionModel::PushSentinel(s@),
            VmAction::Store => ActionModel::Store,
            VmAction::Unary(o) => ActionModel::Unary(o@),
            VmAction::Binary(o) => ActionModel::Binary(o@),
            VmAction::Convert(r) => ActionModel::Convert(
                match r {
                    Ok(c) => Ok(*c),
                    Err(e) => Err(e@),
                },
            ),
            VmAction::CallBuiltin(n, k) => ActionModel::CallBuiltin(n@, *k as nat),
            VmAction::CallUser(k) => ActionModel::CallUser(*k as nat),
        }
    }
}

/// A plain number, read where an operand is missing.
pub open spec fn zero_operand() -> OperandModel {
    OperandModel { kind: ValueKind::Scalar, dim: no_dim(), unit: Seq::empty() }
}

pub open spec fn text_operand(s: Seq<char>) -> OperandModel {
    OperandModel { kind: ValueKind::String, dim: no_dim(), unit: s }
}

/// The operand a constant stands for.
pub open spec fn const_operand(c: ConstModel) -> OperandModel {
    match c {
        ConstModel::Number(_) => zero_operand(),
        ConstModel::Quantity { dim, unit, .. } => OperandModel {
            kind: ValueKind::Quantity,
            dim,
            unit,
        },
        ConstModel::Bool(_) => OperandModel { kind: ValueKind::Bool, dim: no_dim(), unit: Seq::empty() },
        ConstModel::Str(s) => text_operand(s),
        ConstModel::Function(_) => OperandModel {
            kind: ValueKind::Function,
            dim: no_dim(),
            unit: Seq::empty(),
        },
    }
}

/// The first index at or after `i` bound to `name`, or -1.
pub open spec fn find_index(syms: Seq<(Seq<char>, OperandModel)>, name: Seq<char>, i: int) -> int
    decreases syms.len() - i,
{
    if i < 0 || i >= syms.len() {
        -1
    } else if syms[i].0 == name {
        i
    } else {
        find_index(syms, name, i + 1)
    }
}

pub open spec fn lookup(syms: Seq<(Seq<char>, OperandModel)>, name: Seq<char>) -> Option<
    OperandModel,
> {
    let i = find_index(syms, name, 0);
    if 0 <= i < syms.len() {
        Some(syms[i].1)
    } else {
        None
    }
}

/// Binds `name` to `v`, replacing an earlier binding.
pub open spec fn store(syms: Seq<(Seq<char>, OperandModel)>, name: Seq<char>, v: OperandModel) -> Seq<
    (Seq<char>, OperandModel),
> {
    let i = find_index(syms, name, 0);
    if 0 <= i < syms.len() {
        syms.update(i, (name, v))
    } else {
        syms.push((name, v))
    }
}

/// Pops the top operand, or reads `d` from an empty stack.
pub open spec fn pop_or(stack: Seq<OperandModel>, d: OperandModel) -> (OperandModel, Seq<OperandModel>) {
    if stack.len() == 0 {
        (d, stack)
    } else {
        (stack.last(), stack.drop_last())
    }
}

/// Pops `n` arguments, missing ones reading as zero; they come out in
/// source order (the deepest first).
pub open spec fn pop_args(stack: Seq<OperandModel>, n: nat) -> (Seq<OperandModel>, Seq<OperandModel>)
    decreases n,
{
    if n == 0 {
        (Seq::empty(), stack)
    } else {
        let (v, s1) = pop_or(stack, zero_operand());
        let (args, s2) = pop_args(s1, (n - 1) as nat);
        (args.push(v), s2)
    }
}

pub open spec fn with_stack(m: ShapeModel, stack: Seq<OperandModel>) -> ShapeModel {
    ShapeModel { stack, symbols: m.symbols }
}

/// One opcode of the stack machine, over operand shapes: how the stack and
/// the symbols change and what the caller must do to the magnitudes.
/// `builtins` names the registered functions, which a call tries first.
pub open spec fn step_spec(m: ShapeModel, op: OpModel, builtins: Seq<Seq<char>>) -> (
    ShapeModel,
    ActionModel,
) {
    match op {
        OpModel::Const(c) => (with_stack(m, m.stack.push(const_operand(c))), ActionModel::PushConst),
        OpModel::LoadSym(n) => match lookup(m.symbols, n) {
            Some(v) => (with_stack(m, m.stack.push(v)), ActionModel::Load),
            None => {
                let s = "<unknown:"@ + n + ">"@;
                (with_stack(m, m.stack.push(text_operand(s))), ActionModel::PushSentinel(s))
            },
        },
        OpModel::StoreSym(n) => {
            let (v, rest) = pop_or(m.stack, zero_operand());
            (ShapeModel { stack: rest.push(v), symbols: store(m.symbols, n, v) }, ActionModel::Store)
        },
        OpModel::Unary(u) => {
            let (v, rest) = pop_or(m.stack, zero_operand());
            let o = unary_rule(u, v);
            (with_stack(m, rest.push(result_operand(o))), ActionModel::Unary(o))
        },
        OpModel::Binary(b) => {
            let (r, s1) = pop_or(m.stack, zero_operand());
            let (l, s2) = pop_or(s1, zero_operand());
            let o = binary_rule(b, l, r);
            (with_stack(m, s2.push(result_operand(o))), ActionModel::Binary(o))
        },
        OpModel::LoadUnit(u) => (
            with_stack(m, m.stack.push(text_operand(u))),
            ActionModel::PushSentinel(u),
        ),
        OpModel::CallName(n, argc) => {
            let (_, rest) = pop_args(m.stack, argc);
            if builtins.contains(n) {
                (with_stack(m, rest), ActionModel::CallBuiltin(n, argc))
            } else if lookup(m.symbols, n) matches Some(v) && v.kind == ValueKind::Function {
                (with_stack(m, rest), ActionModel::CallUser(argc))
            } else {
                let s = "<unknown-fn:"@ + n + ">"@;
                (with_stack(m, rest.push(text_operand(s))), ActionModel::PushSentinel(s))
            }
        },
        OpModel::Invoke(argc) => {
            let (_, s1) = pop_args(m.stack, argc);
            let (callee, s2) = pop_or(s1, text_operand("<no callee>"@));
            if callee.kind == ValueKind::Function {
                (with_stack(m, s2), ActionModel::CallUser(argc))
            } else if callee.kind == ValueKind::String {
                if builtins.contains(callee.unit) {
                    (with_stack(m, s2), ActionModel::CallBuiltin(callee.unit, argc))
                } else {
                    let s = "<unknown-fn:"@ + callee.unit + ">"@;
                    (with_stack(m, s2.push(text_operand(s))), ActionModel::PushSentinel(s))
                }
            } else {
                let s = "<not-callable>"@;
                (with_stack(m, s2.push(text_operand(s))), ActionModel::PushSentinel(s))
            }
        },
        OpModel::Convert(target) => {
            let (v, rest) = pop_or(m.stack, zero_operand());
            let r = convert_rule(v.kind, v.unit, target);
            let out = match r {
                Ok(c) => OperandModel {
                    kind: ValueKind::Quantity,
                    dim: c.dim.exponents@,
                    unit: c.unit@,
                },
                Err(e) => text_operand(e),
            };
            (with_stack(m, rest.push(out)), ActionModel::Convert(r))
        },
    }
}

/// The machine's result: the top of the stack, or a plain zero when empty.
pub open spec fn result_spec(m: ShapeModel) -> OperandModel {
    pop_or(m.stack, zero_operand()).0
}

/// The frame of a user-function call: an empty stack, and the caller's
/// symbols with each parameter bound in order to its argument (parameters
/// without an argument stay as they were).
pub open spec fn bind_params(
    syms: Seq<(Seq<char>, OperandModel)>,
    params: Seq<Seq<char>>,
    args: Seq<OperandModel>,
) -> Seq<(Seq<char>, OperandModel)>
    decreases params.len(),
{
    if params.len() == 0 {
        syms
    } else {
        let before = bind_params(syms, params.drop_last(), args);
        let i = params.len() - 1;
        if i < args.len() {
            store(before, params.last(), args[i])
        } else {
            before
        }
    }
}

} // verus!

verus! {

impl Operand {
    /// A copy with the same model.
    pub fn copy(&self) -> (r: Operand)
        ensures
            r@ == self@,
    {
        Operand { kind: self.kind, dim: self.dim, unit: self.unit.clone() }
    }
}

fn zero() -> (r: Operand)
    ensures
        r@ == zero_operand(),
{
    Operand { kind: ValueKind::Scalar, dim: zero_dim_exec(), unit: String::new() }
}

fn text(s: String) -> (r: Operand)
    ensures
        r@ == text_operand(s@),
{
    Operand { kind: ValueKind::String, dim: zero_dim_exec(), unit: s }
}

fn outcome_operand(o: &Outcome) -> (r: Operand)
    ensures
        r@ == result_operand(o@),
{
    match o {
        Outcome::Compute { kind, dim, unit } => Operand { kind: *kind, dim: *dim, unit: unit.clone() },
        Outcome::Sentinel(s) => text(s.clone()),
    }
}

fn constant_operand(c: &Constant) -> (r: Operand)
    ensures
        r@ == const_operand(c@),
{
    match c {
        Constant::Number(_) => zero(),
        Constant::Quantity { dim, unit, .. } => Operand {
            kind: ValueKind::Quantity,
            dim: *dim,
            unit: unit.clone(),
        },
        Constant::Bool(_) => Operand {
            kind: ValueKind::Bool,
            dim: zero_dim_exec(),
            unit: String::new(),
        },
        Constant::Str(s) => text(s.clone()),
        Constant::Function(_) => Operand {
            kind: ValueKind::Function,
            dim: zero_dim_exec(),
            unit: String::new(),
        },
    }
}

fn push_op(stack: &mut Vec<Operand>, v: Operand)
    ensures
        stack_model(final(stack)@) == stack_model(old(stack)@).push(v@),
{
    let ghost before = stack@;
    stack.push(v);
    assert(stack_model(stack@) =~= stack_model(before).push(v@));
}

fn pop_op(stack: &mut Vec<Operand>, d: Operand) -> (r: Operand)
    ensures
        (r@, stack_model(final(stack)@)) == pop_or(stack_model(old(stack)@), d@),
{
    let ghost before = stack@;
    match stack.pop() {
        Some(v) => {
            assert(stack_model(stack@) =~= stack_model(before).drop_last());
            v
        },
        None => d,
    }
}

fn pop_args_op(stack: &mut Vec<Operand>, n: usize) -> (r: Vec<Operand>)
    ensures
        (stack_model(r@), stack_model(final(stack)@)) == pop_args(
            stack_model(old(stack)@),
            n as nat,
        ),
{
    let ghost orig = stack_model(stack@);
    let mut args: Vec<Operand> = Vec::new();
    let mut i: usize = 0;
    assert(pop_args(orig, n as nat).0 + stack_model(args@) =~= pop_args(orig, n as nat).0);
    while i < n
        invariant
            i <= n,
            (pop_args(stack_model(stack@), (n - i) as nat).0 + stack_model(args@), pop_args(
                stack_model(stack@),
                (n - i) as nat,
            ).1) == pop_args(orig, n as nat),
        decreases n - i,
    {
        let ghost cur = stack_model(stack@);
        let ghost old_args = stack_model(args@);
        let v = pop_op(stack, zero());
        let ghost vm = v@;
        args.insert(0, v);
        proof {
            assert(stack_model(args@) =~= seq![vm] + old_args);
            let rest = pop_args(stack_model(stack@), (n - i - 1) as nat);
            assert(pop_args(cur, (n - i) as nat) == (rest.0.push(vm), rest.1));
            assert(rest.0 + stack_model(args@) =~= rest.0.push(vm) + old_args);
        }
        i = i + 1;
    }
    args
}

fn find_symbol(symbols: &Vec<(String, Operand)>, name: &str) -> (r: Option<usize>)
    ensures
        match r {
            Some(i) => i < symbols@.len() && find_index(symbols_model(symbols@), name@, 0) == i,
            None => !(0 <= find_index(symbols_model(symbols@), name@, 0) < symbols@.len()),
        },
{
    let ghost m = symbols_model(symbols@);
    let mut i: usize = 0;
    while i < symbols.len()
        invariant
            i <= symbols@.len(),
            m == symbols_model(symbols@),
            find_index(m, name@, 0) == find_index(m, name@, i as int),
        decreases symbols.len() - i,
    {
        if str_eq(symbols[i].0.as_str(), name) {
            return Some(i);
        }
        i = i + 1;
    }
    None
}

fn store_op(symbols: &mut Vec<(String, Operand)>, name: &str, v: Operand)
    ensures
        symbols_model(final(symbols)@) == store(symbols_model(old(symbols)@), name@, v@),
{
    let ghost before = symbols@;
    let ghost vm = v@;
    match find_symbol(symbols, name) {
        Some(i) => {
            symbols.set(i, (String::from_str(name), v));
            assert(symbols_model(symbols@) =~= symbols_model(before).update(i as int, (name@, vm)));
        },
        None => {
            symbols.push((String::from_str(name), v));
            assert(symbols_model(symbols@) =~= symbols_model(before).push((name@, vm)));
        },
    }
}

fn is_builtin(builtins: &Vec<String>, name: &str) -> (r: bool)
    ensures
        r == crate::ast::strings_model(builtins@).contains(name@),
{
    let ghost m = crate::ast::strings_model(builtins@);
    let mut i: usize = 0;
    while i < builtins.len()
        invariant
            i <= builtins@.len(),
            m == crate::ast::strings_model(builtins@),
            forall|j: int| 0 <= j < i ==> m[j] != name@,
        decreases builtins.len() - i,
    {
        if str_eq(builtins[i].as_str(), name) {
            assert(m[i as int] == name@);
            return true;
        }
        i = i + 1;
    }
    false
}

impl Shape {
    pub fn new() -> (r: Shape)
        ensures
            r@.stack.len() == 0,
            r@.symbols.len() == 0,
    {
        Shape { stack: Vec::new(), symbols: Vec::new() }
    }

    /// Binds `name` to `v`, as a stored value would be.
    pub fn bind(&mut self, name: &str, v: Operand)
        ensures
            final(self)@ == (ShapeModel {
                stack: old(self)@.stack,
                symbols: store(old(self)@.symbols, name@, v@),
            }),
    {
        store_op(&mut self.symbols, name, v);
    }

    /// Empties the stack for a new cell; the symbols stay.
    pub fn clear_stack(&mut self)
        ensures
            final(self)@ == with_stack(old(self)@, Seq::empty()),
    {
        self.stack = Vec::new();
        assert(stack_model(self.stack@) =~= Seq::<OperandModel>::empty());
    }

    /// Pushes the result of a call that a step handed to the caller.
    pub fn push_result(&mut self, v: Operand)
        ensures
            final(self)@ == with_stack(old(self)@, old(self)@.stack.push(v@)),
    {
        push_op(&mut self.stack, v);
    }

    /// The machine's result: the top of the stack, or a plain zero.
    pub fn result(&self) -> (r: Operand)
        ensures
            r@ == result_spec(self@),
    {
        let n = self.stack.len();
        if n == 0 {
            zero()
        } else {
            self.stack[n - 1].copy()
        }
    }

    /// The frame for a call of a user function with these parameters and
    /// arguments: the caller's symbols, copied, with the parameters bound.
    /// The caller's own symbols are left as they are.
    pub fn enter_call(&self, params: &Vec<String>, args: &Vec<Operand>) -> (r: Shape)
        ensures
            r@.stack.len() == 0,
            r@.symbols == bind_params(
                self@.symbols,
                crate::ast::strings_model(params@),
                stack_model(args@),
            ),
    {
        let mut symbols: Vec<(String, Operand)> = Vec::new();
        let mut i: usize = 0;
        while i < self.symbols.len()
            invariant
                i <= self.symbols@.len(),
                symbols_model(symbols@) == symbols_model(self.symbols@).subrange(0, i as int),
            decreases self.symbols.len() - i,
        {
            let ghost before = symbols_model(symbols@);
            let name = self.symbols[i].0.clone();
            let v = self.symbols[i].1.copy();
            let ghost item = (name@, v@);
            assert(item == symbols_model(self.symbols@)[i as int]);
            symbols.push((name, v));
            assert(symbols_model(symbols@) =~= before.push(item));
            assert(symbols_model(symbols@) =~= symbols_model(self.symbols@).subrange(0, i + 1));
            i = i + 1;
        }
        assert(symbols_model(self.symbols@).subrange(0, i as int) =~= symbols_model(self.symbols@));
        let ghost pm = crate::ast::strings_model(params@);
        let ghost am = stack_model(args@);
        let mut k: usize = 0;
        assert(pm.subrange(0, 0) =~= Seq::<Seq<char>>::empty());
        while k < params.len()
            invariant
                k <= params@.len(),
                pm == crate::ast::strings_model(params@),
                am == stack_model(args@),
                symbols_model(symbols@) == bind_params(
                    symbols_model(self.symbols@),
                    pm.subrange(0, k as int),
                    am,
                ),
            decreases params.len() - k,
        {
            assert(pm.subrange(0, k + 1).drop_last() =~= pm.subrange(0, k as int));
            if k < args.len() {
                store_op(&mut symbols, params[k].as_str(), args[k].copy());
            }
            k = k + 1;
        }
        assert(pm.subrange(0, k as int) =~= pm);
        Shape { stack: Vec::new(), symbols }
    }
}

/// Carries out one opcode on the shape and says what the caller must do to
/// the magnitudes. `builtins` names the registered functions.
pub fn vm_step(shape: &mut Shape, op: &OpCode, builtins: &Vec<String>) -> (a: VmAction)
    ensures
        (final(shape)@, a@) == step_spec(
            old(shape)@,
            op@,
            crate::ast::strings_model(builtins@),
        ),
{
    match op {
        OpCode::Const(c) => {
            push_op(&mut shape.stack, constant_operand(c));
            VmAction::PushConst
        },
        OpCode::LoadSym(n) => match find_symbol(&shape.symbols, n.as_str()) {
            Some(i) => {
                let v = shape.symbols[i].1.copy();
                push_op(&mut shape.stack, v);
                VmAction::Load
            },
            None => {
                let s = unknown_symbol(n.as_str());
                push_op(&mut shape.stack, text(s.clone()));
                VmAction::PushSentinel(s)
            },
        },
        OpCode::StoreSym(n) => {
            let v = pop_op(&mut shape.stack, zero());
            store_op(&mut shape.symbols, n.as_str(), v.copy());
            push_op(&mut shape.stack, v);
            VmAction::Store
        },
        OpCode::Unary(u) => {
            let v = pop_op(&mut shape.stack, zero());
            let o = unary_outcome(*u, &v);
            push_op(&mut shape.stack, outcome_operand(&o));
            VmAction::Unary(o)
        },
        OpCode::Binary(b) => {
            let r = pop_op(&mut shape.stack, zero());
            let l = pop_op(&mut shape.stack, zero());
            let o = binary_outcome(*b, &l, &r);
            push_op(&mut shape.stack, outcome_operand(&o));
            VmAction::Binary(o)
        },
        OpCode::LoadUnit(u) => {
            push_op(&mut shape.stack, text(u.clone()));
            VmAction::PushSentinel(u.clone())
        },
        OpCode::CallName(n, argc) => {
            let _args = pop_args_op(&mut shape.stack, *argc);
            if is_builtin(builtins, n.as_str()) {
                VmAction::CallBuiltin(n.clone(), *argc)
            } else {
                let user = match find_symbol(&shape.symbols, n.as_str()) {
                    Some(i) => shape.symbols[i].1.kind == ValueKind::Function,
                    None => false,
                };
                if user {
                    VmAction::CallUser(*argc)
                } else {
                    let s = unknown_function(n.as_str());
                    push_op(&mut shape.stack, text(s.clone()));
                    VmAction::PushSentinel(s)
                }
            }
        },
        OpCode::Invoke(argc) => {
            let _args = pop_args_op(&mut shape.stack, *argc);
            let callee = pop_op(&mut shape.stack, text(String::from_str("<no callee>")));
            if callee.kind == ValueKind::Function {
                VmAction::CallUser(*argc)
            } else if callee.kind == ValueKind::String {
                if is_builtin(builtins, callee.unit.as_str()) {
                    VmAction::CallBuiltin(callee.unit, *argc)
                } else {
                    let s = unknown_function(callee.unit.as_str());
                    push_op(&mut shape.stack, text(s.clone()));
                    VmAction::PushSentinel(s)
                }
            } else {
                let s = not_callable();
                push_op(&mut shape.stack, text(s.clone()));
                VmAction::PushSentinel(s)
            }
        },
        OpCode::Convert(t) => {
            let v = pop_op(&mut shape.stack, zero());
            let r = convert_outcome(v.kind, v.unit.as_str(), t.as_str());
            let out = match &r {
                Ok(c) => Operand {
                    kind: ValueKind::Quantity,
                    dim: c.dim,
                    unit: String::from_str(c.unit),
                },
                Err(e) => text(e.clone()),
            };
            push_op(&mut shape.stack, out);
            VmAction::Convert(r)
        },
    }
}

} // verus!
