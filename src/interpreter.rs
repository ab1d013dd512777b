use crate::ast::{self, Expr, OpCode, Stat};
use crate::func::Func;
use crate::host::Host;
use crate::scope::{Scopes, ScopesModel};
use crate::value::{
    bool_model, negated, num_le, num_lt, number_of, text_of, truthy, value_eq, Value, ValueModel,
};
use vstd::prelude::*;
use vstd::string::StringExecFns;

verus! {

/// A unary operator on a value: `+` and `-` on its number, `!` on its
/// truthiness, `Null` for any other operator.
pub open spec fn op1_spec<H: Host>(h: H, op: OpCode, v: ValueModel) -> ValueModel {
    match op {
        OpCode::Add => ValueModel::Number(number_of(h, v)),
        OpCode::Sub => ValueModel::Number(negated(number_of(h, v))),
        OpCode::Not => bool_model(!truthy(v)),
        _ => ValueModel::Null,
    }
}

/// A binary operator on two values. `+` concatenates the texts where the left
/// operand is text and adds the numbers otherwise; `-`, `*`, `/` and the
/// comparisons go by the numbers; `==`, `!=` by structural equality; `||`,
/// `&&` by truthiness; any other operator gives `Null`.
pub open spec fn op2_spec<H: Host>(h: H, op: OpCode, a: ValueModel, b: ValueModel) -> ValueModel {
    let x = number_of(h, a);
    let y = number_of(h, b);
    match op {
        OpCode::Add => if a is Text {
            ValueModel::Text(text_of(h, a) + text_of(h, b))
        } else {
            ValueModel::Number(h.sum_of(x, y))
        },
        OpCode::Sub => ValueModel::Number(h.difference_of(x, y)),
        OpCode::Mul => ValueModel::Number(h.product_of(x, y)),
        OpCode::Div => ValueModel::Number(h.quotient_of(x, y)),
        OpCode::EqEq => bool_model(value_eq(a, b)),
        OpCode::NotEq => bool_model(!value_eq(a, b)),
        OpCode::Lt => bool_model(num_lt(x, y)),
        OpCode::Gt => bool_model(num_lt(y, x)),
        OpCode::Le => bool_model(num_le(x, y)),
        OpCode::Ge => bool_model(num_le(y, x)),
        OpCode::OrOr => bool_model(truthy(a) || truthy(b)),
        OpCode::AndAnd => bool_model(truthy(a) && truthy(b)),
        _ => ValueModel::Null,
    }
}

/// Applies a unary operator.
pub fn eval_op1<H: Host>(op: &OpCode, val: Value, host: &H) -> (r: Value)
    ensures
        r@ == op1_spec(*host, *op, val@),
{
    match op {
        OpCode::Add => Value::Number(val.to_number(host)),
        OpCode::Sub => Value::Number(val.to_number(host).negate()),
        OpCode::Not => Value::from_bool(!val.to_bool()),
        _ => Value::Null,
    }
}

/// Applies a binary operator to two evaluated operands.
pub fn eval_op2<H: Host>(op: &OpCode, v1: Value, v2: Value, host: &H) -> (r: Value)
    ensures
        r@ == op2_spec(*host, *op, v1@, v2@),
{
    match op {
        OpCode::Add => {
            if matches!(v1, Value::String(_)) {
                let left = v1.to_string(host);
                let right = v2.to_string(host);
                Value::String(left.concat(right.as_str()))
            } else {
                Value::Number(host.sum(v1.to_number(host), v2.to_number(host)))
            }
        },
        OpCode::Sub => Value::Number(host.difference(v1.to_number(host), v2.to_number(host))),
        OpCode::Mul => Value::Number(host.product(v1.to_number(host), v2.to_number(host))),
        OpCode::Div => Value::Number(host.quotient(v1.to_number(host), v2.to_number(host))),
        OpCode::EqEq => Value::from_bool(v1.equals(&v2)),
        OpCode::NotEq => Value::from_bool(!v1.equals(&v2)),
        OpCode::Lt => Value::from_bool(v1.to_number(host).lt(&v2.to_number(host))),
        OpCode::Gt => Value::from_bool(v2.to_number(host).lt(&v1.to_number(host))),
        OpCode::Le => Value::from_bool(v1.to_number(host).le(&v2.to_number(host))),
        OpCode::Ge => Value::from_bool(v2.to_number(host).le(&v1.to_number(host))),
        OpCode::OrOr => {
            let a = v1.to_bool();
            let b = v2.to_bool();
            Value::from_bool(a || b)
        },
        OpCode::AndAnd => {
            let a = v1.to_bool();
            let b = v2.to_bool();
            Value::from_bool(a && b)
        },
        _ => Value::Null,
    }
}

/// A statement's outcome as the contracts see it.
pub open spec fn stat_outcome<H>(r: Option<(Value, bool)>, h: H, m: ScopesModel) -> Option<
    (H, ScopesModel, ValueModel, bool),
> {
    match r {
        Some((v, b)) => Some((h, m, v@, b)),
        None => None,
    }
}

pub open spec fn value_outcome<H>(r: Option<Value>, h: H, m: ScopesModel) -> Option<
    (H, ScopesModel, ValueModel),
> {
    match r {
        Some(v) => Some((h, m, v@)),
        None => None,
    }
}

/// Runs statements `i..` of a sequence whose value so far is `last`: the host
/// after, the chain after, the sequence's value, and whether a `break` ended
/// it. `None` where the step budget `fuel` runs out: each level of nesting
/// takes one step.
pub open spec fn run_spec<H: Host>(
    h: H,
    m: ScopesModel,
    stats: Seq<Stat>,
    i: int,
    last: ValueModel,
    fuel: int,
) -> Option<(H, ScopesModel, ValueModel, bool)>
    decreases fuel, stats.len() - i,
{
    if fuel <= 0 {
        None
    } else if 0 <= i < stats.len() {
        match stat_spec(h, m, stats[i], last, fuel - 1) {
            Some((h1, m1, v, b)) => if b {
                Some((h1, m1, v, true))
            } else {
                run_spec(h1, m1, stats, i + 1, v, fuel)
            },
            None => None,
        }
    } else {
        Some((h, m, last, false))
    }
}

/// One statement. `break` hands back the value so far with the flag set; a
/// definition or an assignment has value `Null`; an `if` runs the chosen
/// branch in a fresh frame and passes its flag on; a loop runs its body in one
/// fresh frame, kept across iterations, until the body breaks, and never
/// passes the flag on.
pub open spec fn stat_spec<H: Host>(
    h: H,
    m: ScopesModel,
    stat: Stat,
    last: ValueModel,
    fuel: int,
) -> Option<(H, ScopesModel, ValueModel, bool)>
    decreases fuel, fuel + 1,
{
    if stat is BreakStat {
        Some((h, m, last, true))
    } else if fuel <= 0 {
        None
    } else {
        match stat {
            Stat::Expr(e) => match eval_spec(h, m, *e, fuel - 1) {
                Some((h1, m1, v)) => Some((h1, m1, v, false)),
                None => None,
            },
            Stat::VarDef(d) => match eval_spec(h, m, *d.value, fuel - 1) {
                Some((h1, m1, v)) => Some((h1, m1.define(d.name.0@, v), ValueModel::Null, false)),
                None => None,
            },
            Stat::VarMod(x) => match eval_spec(h, m, *x.value, fuel - 1) {
                Some((h1, m1, v)) => Some((h1, m1.assign(x.name.0@, v), ValueModel::Null, false)),
                None => None,
            },
            Stat::IfBlock(b) => match eval_spec(h, m, *b.cond, fuel - 1) {
                Some((h1, m1, c)) => match run_spec(
                    h1,
                    m1.push_frame(),
                    if truthy(c) {
                        b.then_branch@
                    } else {
                        b.otherwise@
                    },
                    0,
                    ValueModel::Null,
                    fuel - 1,
                ) {
                    Some((h2, m2, v, bk)) => Some((h2, m2.pop_frame(), v, bk)),
                    None => None,
                },
                None => None,
            },
            Stat::LoopBlock(l) => match loop_spec(h, m.push_frame(), l.0@, fuel, fuel) {
                Some((h1, m1, v)) => Some((h1, m1.pop_frame(), v, false)),
                None => None,
            },
            Stat::BreakStat => Some((h, m, last, true)),
        }
    }
}

/// Iterations of a loop body, at most `left` of them, until one breaks: the
/// value is the one at the `break`.
pub open spec fn loop_spec<H: Host>(h: H, m: ScopesModel, body: Seq<Stat>, left: int, fuel: int) -> Option<
    (H, ScopesModel, ValueModel),
>
    decreases fuel, left,
{
    if left <= 0 || fuel <= 0 {
        None
    } else {
        match run_spec(h, m, body, 0, ValueModel::Null, fuel - 1) {
            Some((h1, m1, v, b)) => if b {
                Some((h1, m1, v))
            } else {
                loop_spec(h1, m1, body, left - 1, fuel)
            },
            None => None,
        }
    }
}

/// An expression: a variable reads its innermost binding (`Null` where none);
/// a call evaluates every argument left to right, then calls the function it
/// reaches (`Null` where none); an operator evaluates all its operands, left
/// first, then combines them.
pub open spec fn eval_spec<H: Host>(h: H, m: ScopesModel, e: Expr, fuel: int) -> Option<
    (H, ScopesModel, ValueModel),
>
    decreases fuel, 0int,
{
    if fuel <= 0 {
        None
    } else {
        match e {
            Expr::Value(ast::Value::Identify(id)) => Some(
                (
                    h,
                    m,
                    match m.var(id.0@) {
                        Some(v) => v,
                        None => ValueModel::Null,
                    },
                ),
            ),
            Expr::Value(ast::Value::String(s)) => Some((h, m, ValueModel::Text(s@))),
            Expr::Value(ast::Value::Number(n)) => Some((h, m, ValueModel::Number(n.bits))),
            Expr::FuncCall(c) => match args_spec(h, m, c.params@, 0, Seq::empty(), fuel - 1) {
                Some((h1, m1, vals)) => match m1.func(c.name.0@) {
                    Some(f) => call_spec(h1, m1, f, vals, fuel - 1),
                    None => Some((h1, m1, ValueModel::Null)),
                },
                None => None,
            },
            Expr::Expr1(op, a) => match eval_spec(h, m, *a, fuel - 1) {
                Some((h1, m1, v)) => Some((h1, m1, op1_spec(h1, op, v))),
                None => None,
            },
            Expr::Expr2(a, op, b) => match eval_spec(h, m, *a, fuel - 1) {
                Some((h1, m1, x)) => match eval_spec(h1, m1, *b, fuel - 1) {
                    Some((h2, m2, y)) => Some((h2, m2, op2_spec(h2, op, x, y))),
                    None => None,
                },
                None => None,
            },
        }
    }
}

/// Arguments `i..` evaluated left to right after the values `acc`.
pub open spec fn args_spec<H: Host>(
    h: H,
    m: ScopesModel,
    params: Seq<Box<Expr>>,
    i: int,
    acc: Seq<ValueModel>,
    fuel: int,
) -> Option<(H, ScopesModel, Seq<ValueModel>)>
    decreases fuel, params.len() - i,
{
    if fuel <= 0 {
        None
    } else if 0 <= i < params.len() {
        match eval_spec(h, m, *params[i], fuel - 1) {
            Some((h1, m1, v)) => args_spec(h1, m1, params, i + 1, acc.push(v), fuel),
            None => None,
        }
    } else {
        Some((h, m, acc))
    }
}

/// A call. A native runs in the host on the global frame and the arguments as
/// they are, and its result is the call's. A script-defined function runs its
/// body on a fresh frame holding its parameters, above the global frame alone;
/// the call's value is the body's, its `break` flag dropped, and the caller's
/// chain comes back.
pub open spec fn call_spec<H: Host>(h: H, m: ScopesModel, f: Func, args: Seq<ValueModel>, fuel: int) -> Option<
    (H, ScopesModel, ValueModel),
>
    decreases fuel, 0int,
{
    if fuel <= 0 {
        None
    } else {
        match f {
            Func::NativeFunc(id) => {
                let (h1, g, v) = h.native_of(id, m.global, args);
                Some((h1, ScopesModel { global: g, ..m }, v))
            },
            Func::CodeFunc(def) => match run_spec(
                h,
                bound(m.call_entry(), def.params@, args, def.params@.len() as int),
                def.body@,
                0,
                ValueModel::Null,
                fuel - 1,
            ) {
                Some((h1, m1, v, _)) => Some((h1, m1.leave(m.base), v)),
                None => None,
            },
        }
    }
}

/// The argument bound to parameter `i`: `Null` past the end of the arguments.
pub open spec fn argument(args: Seq<ValueModel>, i: int) -> ValueModel {
    if i < args.len() {
        args[i]
    } else {
        ValueModel::Null
    }
}

/// The chain after binding the first `i` parameters in order in the innermost
/// frame.
pub open spec fn bound(m: ScopesModel, names: Seq<ast::Identify>, args: Seq<ValueModel>, i: int) -> ScopesModel
    decreases i,
{
    if i <= 0 {
        m
    } else {
        bound(m, names, args, i - 1).define(names[i - 1].0@, argument(args, i - 1))
    }
}

/// A loop statement never passes a `break` on: a `break` in its body, however
/// deeply nested in `if` blocks, ends that loop and nothing outside it.
pub proof fn lemma_loop_absorbs_break<H: Host>(
    h: H,
    m: ScopesModel,
    l: ast::LoopBlock,
    last: ValueModel,
    fuel: int,
)
    ensures
        stat_spec(h, m, Stat::LoopBlock(l), last, fuel) matches Some((_, _, _, b)) ==> !b,
{
}

/// A `break` ends its statement sequence on the spot: the statements after it
/// do not run, and the sequence's value is the one before it.
pub proof fn lemma_break_ends_sequence<H: Host>(
    h: H,
    m: ScopesModel,
    stats: Seq<Stat>,
    i: int,
    last: ValueModel,
    fuel: int,
)
    requires
        0 <= i < stats.len(),
        stats[i] is BreakStat,
        fuel > 0,
    ensures
        run_spec(h, m, stats, i, last, fuel) == Some((h, m, last, true)),
{
    assert(stat_spec(h, m, stats[i], last, fuel - 1) == Some((h, m, last, true)));
}

/// `||` and `&&` evaluate both operands, left first, whatever the left one
/// gives, and then combine their truthiness.
pub proof fn lemma_logical_operators_are_eager<H: Host>(
    h: H,
    m: ScopesModel,
    a: Box<Expr>,
    op: OpCode,
    b: Box<Expr>,
    fuel: int,
)
    requires
        op == OpCode::OrOr || op == OpCode::AndAnd,
        fuel > 0,
    ensures
        eval_spec(h, m, Expr::Expr2(a, op, b), fuel) == match eval_spec(h, m, *a, fuel - 1) {
            Some((h1, m1, x)) => match eval_spec(h1, m1, *b, fuel - 1) {
                Some((h2, m2, y)) => Some(
                    (
                        h2,
                        m2,
                        bool_model(
                            if op == OpCode::OrOr {
                                truthy(x) || truthy(y)
                            } else {
                                truthy(x) && truthy(y)
                            },
                        ),
                    ),
                ),
                None => None,
            },
            None => None,
        },
{
}

/// Nesting depth of an expression.
pub open spec fn depth(e: Expr) -> int
    decreases e,
{
    match e {
        Expr::Value(_) => 1,
        Expr::FuncCall(_) => 1,
        Expr::Expr1(_, a) => 1 + depth(*a),
        Expr::Expr2(a, _, b) => 1 + if depth(*a) >= depth(*b) {
            depth(*a)
        } else {
            depth(*b)
        },
    }
}

/// The expression makes no function call.
pub open spec fn calls_nothing(e: Expr) -> bool
    decreases e,
{
    match e {
        Expr::Value(_) => true,
        Expr::FuncCall(_) => false,
        Expr::Expr1(_, a) => calls_nothing(*a),
        Expr::Expr2(a, _, b) => calls_nothing(*a) && calls_nothing(*b),
    }
}

/// An expression without calls always evaluates once the budget covers its
/// depth, and leaves the host and the chain as they were.
pub proof fn lemma_call_free_evaluates<H: Host>(h: H, m: ScopesModel, e: Expr, fuel: int)
    requires
        calls_nothing(e),
        fuel >= depth(e),
    ensures
        eval_spec(h, m, e, fuel) matches Some((h1, m1, _)) && h1 == h && m1 == m,
    decreases e,
{
    match e {
        Expr::Expr1(_, a) => {
            lemma_call_free_evaluates(h, m, *a, fuel - 1);
        },
        Expr::Expr2(a, _, b) => {
            lemma_call_free_evaluates(h, m, *a, fuel - 1);
            lemma_call_free_evaluates(h, m, *b, fuel - 1);
        },
        _ => {},
    }
}

proof fn lemma_bound_shape(c: ScopesModel, names: Seq<ast::Identify>, args: Seq<ValueModel>, i: int)
    requires
        c.wf(),
        c.base + 1 == c.locals.len(),
        0 <= i <= names.len(),
    ensures
        bound(c, names, args, i).wf(),
        bound(c, names, args, i).base == c.base,
        bound(c, names, args, i).locals.len() == c.locals.len(),
        bound(c, names, args, i).global == c.global,
        forall|name: Seq<char>|
            (forall|j: int| 0 <= j < i ==> names[j].0@ != name) ==> #[trigger] bound(
                c,
                names,
                args,
                i,
            ).var(name) == c.var(name),
    decreases i,
{
    if i > 0 {
        lemma_bound_shape(c, names, args, i - 1);
        let p = bound(c, names, args, i - 1);
        let q = bound(c, names, args, i);
        assert forall|name: Seq<char>|
            (forall|j: int| 0 <= j < i ==> names[j].0@ != name) implies #[trigger] q.var(name)
            == c.var(name) by {
            assert(names[i - 1].0@ != name);
            assert(p.var(name) == c.var(name));
            let top = p.locals.len() - 1;
            assert(q == p.define(names[i - 1].0@, argument(args, i - 1)));
            assert(q.locals[top].vars == p.locals[top].vars.insert(names[i - 1].0@, argument(args, i - 1)));
            assert(q.locals[top].vars.contains_key(name) == p.locals[top].vars.contains_key(name));
            assert(q.var_from(name, top) == q.var_from(name, q.base as int));
            assert(p.var_from(name, top) == p.var_from(name, p.base as int));
            assert(q.var_from(name, top) == p.var_from(name, top));
        }
    }
}

/// The body of a script-defined function starts on its parameters and the
/// global frame alone: a name that is no parameter reads the global binding or
/// nothing, whatever the caller's blocks bind.
pub proof fn lemma_call_sees_params_and_global(
    m: ScopesModel,
    names: Seq<ast::Identify>,
    args: Seq<ValueModel>,
    name: Seq<char>,
)
    requires
        m.wf(),
        forall|j: int| 0 <= j < names.len() ==> names[j].0@ != name,
    ensures
        bound(m.call_entry(), names, args, names.len() as int).var(name) == (if m.global.vars.contains_key(
            name,
        ) {
            Some(m.global.vars[name])
        } else {
            None
        }),
{
    crate::scope::lemma_call_sees_only_global(m, name);
    lemma_bound_shape(m.call_entry(), names, args, names.len() as int);
}

/// An assignment statement to a name no visible frame binds changes nothing
/// but its value; a definition of that name afterwards makes a read give the
/// defined value.
pub proof fn lemma_assign_undefined_then_define_statements<H: Host>(
    h: H,
    m: ScopesModel,
    name: ast::Identify,
    op: OpCode,
    e1: Box<Expr>,
    e2: Box<Expr>,
    fuel: int,
)
    requires
        m.wf(),
        m.var(name.0@) is None,
        calls_nothing(*e1),
        calls_nothing(*e2),
        fuel > depth(*e1),
        fuel > depth(*e2),
    ensures
        stat_spec(h, m, Stat::VarMod(ast::VariableModify { name: name, op: op, value: e1 }), ValueModel::Null, fuel)
            == Some((h, m, ValueModel::Null, false)),
        stat_spec(h, m, Stat::VarDef(ast::VariableDefine { name: name, value: e2 }), ValueModel::Null, fuel)
            matches Some((_, m2, _, _)) ==> m2.var(name.0@) == Some(
            eval_spec(h, m, *e2, fuel - 1).unwrap().2,
        ),
        stat_spec(h, m, Stat::VarDef(ast::VariableDefine { name: name, value: e2 }), ValueModel::Null, fuel)
            is Some,
{
    lemma_call_free_evaluates(h, m, *e1, fuel - 1);
    lemma_call_free_evaluates(h, m, *e2, fuel - 1);
    let v1 = eval_spec(h, m, *e1, fuel - 1).unwrap().2;
    let v2 = eval_spec(h, m, *e2, fuel - 1).unwrap().2;
    crate::scope::lemma_assign_undefined_then_define(m, name.0@, v1, v2);
}

pub open spec fn models(vals: Seq<Value>) -> Seq<ValueModel> {
    vals.map_values(|v: Value| v@)
}

/// Runs a statement sequence against a chain. Gives the value of the last
/// statement that produced one and whether a `break` stopped the sequence;
/// `None` where the step budget `fuel` ran out first.
pub fn run_ast_code<H: Host>(scopes: &mut Scopes, stats: &Vec<Stat>, host: &mut H, fuel: u64) -> (r:
    Option<(Value, bool)>)
    requires
        old(scopes)@.wf(),
    ensures
        old(scopes)@.keeps(final(scopes)@),
        run_spec(*old(host), old(scopes)@, stats@, 0, ValueModel::Null, fuel as int)
            == stat_outcome(r, *final(host), final(scopes)@),
    decreases fuel, 0int,
{
    if fuel == 0 {
        return None;
    }
    let mut last_value = Value::Null;
    let mut i: usize = 0;
    while i < stats.len()
        invariant
            old(scopes)@.keeps(scopes@),
            i <= stats@.len(),
            fuel > 0,
            run_spec(*old(host), old(scopes)@, stats@, 0, ValueModel::Null, fuel as int) == run_spec(
                *host,
                scopes@,
                stats@,
                i as int,
                last_value@,
                fuel as int,
            ),
        decreases stats@.len() - i,
    {
        match exec_stat(scopes, &stats[i], last_value, host, fuel - 1) {
            Some((v, true)) => {
                return Some((v, true));
            },
            Some((v, false)) => {
                last_value = v;
            },
            None => {
                return None;
            },
        }
        i = i + 1;
    }
    Some((last_value, false))
}

/// Runs one statement; `last` is the value of the sequence so far. Gives the
/// sequence's new value and whether the statement breaks out of it.
pub fn exec_stat<H: Host>(
    scopes: &mut Scopes,
    stat: &Stat,
    last: Value,
    host: &mut H,
    fuel: u64,
) -> (r: Option<(Value, bool)>)
    requires
        old(scopes)@.wf(),
    ensures
        old(scopes)@.keeps(final(scopes)@),
        stat_spec(*old(host), old(scopes)@, *stat, last@, fuel as int) == stat_outcome(
            r,
            *final(host),
            final(scopes)@,
        ),
    decreases fuel, fuel + 1,
{
    if let Stat::BreakStat = stat {
        return Some((last, true));
    }
    if fuel == 0 {
        return None;
    }
    match stat {
        Stat::Expr(e) => match eval_expr(scopes, e, host, fuel - 1) {
            Some(v) => Some((v, false)),
            None => None,
        },
        Stat::VarDef(def) => match eval_expr(scopes, &def.value, host, fuel - 1) {
            Some(v) => {
                scopes.add_variable(def.name.0.clone(), v);
                Some((Value::Null, false))
            },
            None => None,
        },
        Stat::VarMod(m) => match eval_expr(scopes, &m.value, host, fuel - 1) {
            Some(v) => {
                scopes.modify_variable(m.name.0.as_str(), v);
                Some((Value::Null, false))
            },
            None => None,
        },
        Stat::IfBlock(b) => {
            let cond = match eval_expr(scopes, &b.cond, host, fuel - 1) {
                Some(c) => c.to_bool(),
                None => {
                    return None;
                },
            };
            scopes.new_sub();
            let ghost mid = scopes@;
            let res = if cond {
                run_ast_code(scopes, &b.then_branch, host, fuel - 1)
            } else {
                run_ast_code(scopes, &b.otherwise, host, fuel - 1)
            };
            let ghost before_drop = scopes@;
            scopes.drop_sub();
            assert forall|i: int| 0 <= i < old(scopes)@.base implies scopes@.locals[i] == old(
                scopes,
            )@.locals[i] by {
                assert(scopes@.locals[i] == before_drop.locals[i]);
                assert(before_drop.locals[i] == mid.locals[i]);
            }
            res
        },
        Stat::LoopBlock(l) => {
            scopes.new_sub();
            let ghost inner = scopes@;
            let ghost h0 = *host;
            let mut left: u64 = fuel;
            let mut result: Option<Value> = None;
            let mut failed = false;
            let mut done = false;
            while !done && left > 0
                invariant
                    inner.keeps(scopes@),
                    inner == old(scopes)@.push_frame(),
                    old(scopes)@.wf(),
                    fuel > 0,
                    !done ==> result is None && !failed && loop_spec(
                        h0,
                        inner,
                        l.0@,
                        fuel as int,
                        fuel as int,
                    ) == loop_spec(*host, scopes@, l.0@, left as int, fuel as int),
                    done && failed ==> result is None && loop_spec(
                        h0,
                        inner,
                        l.0@,
                        fuel as int,
                        fuel as int,
                    ) is None,
                    done && !failed ==> (result matches Some(v) && loop_spec(
                        h0,
                        inner,
                        l.0@,
                        fuel as int,
                        fuel as int,
                    ) == Some((*host, scopes@, v@))),
                decreases left + if done { 0int } else { 1int },
            {
                match run_ast_code(scopes, &l.0, host, fuel - 1) {
                    Some((v, true)) => {
                        result = Some(v);
                        done = true;
                    },
                    Some((_, false)) => {
                        left = left - 1;
                    },
                    None => {
                        failed = true;
                        done = true;
                    },
                }
            }
            let ghost before_drop = scopes@;
            scopes.drop_sub();
            assert forall|i: int| 0 <= i < old(scopes)@.base implies scopes@.locals[i] == old(
                scopes,
            )@.locals[i] by {
                assert(scopes@.locals[i] == before_drop.locals[i]);
                assert(before_drop.locals[i] == inner.locals[i]);
            }
            match result {
                Some(v) => Some((v, false)),
                None => None,
            }
        },
        Stat::BreakStat => Some((last, true)),
    }
}

/// Evaluates call arguments, left to right, each of them.
fn eval_args<H: Host>(scopes: &mut Scopes, params: &Vec<Box<Expr>>, host: &mut H, fuel: u64) -> (r:
    Option<Vec<Value>>)
    requires
        old(scopes)@.wf(),
    ensures
        old(scopes)@.keeps(final(scopes)@),
        args_spec(*old(host), old(scopes)@, params@, 0, Seq::empty(), fuel as int) == match r {
            Some(vals) => Some((*final(host), final(scopes)@, models(vals@))),
            None => None,
        },
    decreases fuel, 0int,
{
    if fuel == 0 {
        return None;
    }
    let mut vals: Vec<Value> = Vec::new();
    assert(models(vals@) =~= Seq::<ValueModel>::empty());
    let mut i: usize = 0;
    while i < params.len()
        invariant
            old(scopes)@.keeps(scopes@),
            i <= params@.len(),
            fuel > 0,
            args_spec(*old(host), old(scopes)@, params@, 0, Seq::empty(), fuel as int) == args_spec(
                *host,
                scopes@,
                params@,
                i as int,
                models(vals@),
                fuel as int,
            ),
        decreases params@.len() - i,
    {
        match eval_expr(scopes, &params[i], host, fuel - 1) {
            Some(v) => {
                proof {
                    assert(models(vals@.push(v)) =~= models(vals@).push(v@));
                }
                vals.push(v);
            },
            None => {
                return None;
            },
        }
        i = i + 1;
    }
    Some(vals)
}

/// Evaluates an expression. Arguments and both operands of every operator
/// are evaluated, left to right, before they are combined.
pub fn eval_expr<H: Host>(scopes: &mut Scopes, expr: &Expr, host: &mut H, fuel: u64) -> (r: Option<
    Value,
>)
    requires
        old(scopes)@.wf(),
    ensures
        old(scopes)@.keeps(final(scopes)@),
        eval_spec(*old(host), old(scopes)@, *expr, fuel as int) == value_outcome(
            r,
            *final(host),
            final(scopes)@,
        ),
    decreases fuel, 0int,
{
    if fuel == 0 {
        return None;
    }
    match expr {
        Expr::Value(ast::Value::Identify(id)) => match scopes.get_variable(id.0.as_str()) {
            Some(v) => Some(v),
            None => Some(Value::Null),
        },
        Expr::Value(ast::Value::String(s)) => Some(Value::String(s.clone())),
        Expr::Value(ast::Value::Number(n)) => Some(Value::Number(*n)),
        Expr::FuncCall(call) => {
            let vals = match eval_args(scopes, &call.params, host, fuel - 1) {
                Some(vals) => vals,
                None => {
                    return None;
                },
            };
            match scopes.find_function(call.name.0.as_str()) {
                Some(f) => f.exec_call(scopes, vals.as_slice(), host, fuel - 1),
                None => Some(Value::Null),
            }
        },
        Expr::Expr1(op, e) => match eval_expr(scopes, e, host, fuel - 1) {
            Some(v) => Some(eval_op1(op, v, host)),
            None => None,
        },
        Expr::Expr2(e1, op, e2) => {
            let a = match eval_expr(scopes, e1, host, fuel - 1) {
                Some(v) => v,
                None => {
                    return None;
                },
            };
            let b = match eval_expr(scopes, e2, host, fuel - 1) {
                Some(v) => v,
                None => {
                    return None;
                },
            };
            Some(eval_op2(op, a, b, host))
        },
    }
}

/// Binds parameters to arguments by position in the innermost frame: a
/// missing argument binds `Null`, extra arguments are ignored.
pub fn bind_params(scopes: &mut Scopes, names: &Vec<ast::Identify>, args: &[Value])
    requires
        old(scopes)@.wf(),
    ensures
        final(scopes)@ == bound(old(scopes)@, names@, models(args@), names@.len() as int),
        old(scopes)@.keeps(final(scopes)@),
{
    let mut i: usize = 0;
    while i < names.len()
        invariant
            old(scopes)@.wf(),
            i <= names@.len(),
            scopes@ == bound(old(scopes)@, names@, models(args@), i as int),
            old(scopes)@.keeps(scopes@),
        decreases names@.len() - i,
    {
        let value = if i < args.len() {
            args[i].clone_value()
        } else {
            Value::Null
        };
        scopes.add_variable(names[i].0.clone(), value);
        i = i + 1;
    }
}

impl Func {
    /// Invokes the function. A native one runs in the host with the global
    /// frame. A script-defined one runs its body on a chain of a fresh frame
    /// and the global frame alone, its parameters bound in order (`Null` for a
    /// missing argument, extra arguments ignored); its value is the body's,
    /// and a `break` in it stops at the call.
    pub fn exec_call<H: Host>(&self, scopes: &mut Scopes, params: &[Value], host: &mut H, fuel: u64) -> (r:
        Option<Value>)
        requires
            old(scopes)@.wf(),
        ensures
            final(scopes)@.wf(),
            final(scopes)@.base == old(scopes)@.base,
            final(scopes)@.locals == old(scopes)@.locals,
            call_spec(*old(host), old(scopes)@, *self, models(params@), fuel as int)
                == value_outcome(r, *final(host), final(scopes)@),
        decreases fuel, 0int,
    {
        if fuel == 0 {
            return None;
        }
        match self {
            Func::NativeFunc(id) => Some(scopes.call_native(host, *id, params)),
            Func::CodeFunc(def) => {
                let saved = scopes.enter_call();
                bind_params(scopes, &def.params, params);
                let res = run_ast_code(scopes, &def.body, host, fuel - 1);
                scopes.leave_call(saved);
                assert(scopes@.locals =~= old(scopes)@.locals);
                match res {
                    Some((v, _)) => Some(v),
                    None => None,
                }
            },
        }
    }
}

} // verus!
