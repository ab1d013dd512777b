use kbscript::ast::{
    Expr, File, FuncCall, FuncDef, Identify, IfBlock, LoopBlock, OpCode, Stat, Value as Lit,
    VariableDefine, VariableModify,
};
use kbscript::host::{Chars, Host};
use kbscript::interpreter::eval_op2;
use kbscript::scope::{FrameModel, Scope};
use kbscript::value::{Number, Value, ValueModel};
use kbscript::vm::VM;

const FUEL: u64 = 1_000_000;

/// Doubles for arithmetic; native 0 logs its first argument and returns it,
/// native 1 adds one to the global variable `count`.
struct TestHost {
    log: Vec<String>,
}

fn bits_of(x: f64) -> u64 {
    x.to_bits()
}

// The members that name results exist for the library's contracts; nothing
// calls the ones over contract-only types when the program runs.
impl Host for TestHost {
    fn sum_of(&self, a: u64, b: u64) -> u64 {
        bits_of(f64::from_bits(a) + f64::from_bits(b))
    }
    fn difference_of(&self, a: u64, b: u64) -> u64 {
        bits_of(f64::from_bits(a) - f64::from_bits(b))
    }
    fn product_of(&self, a: u64, b: u64) -> u64 {
        bits_of(f64::from_bits(a) * f64::from_bits(b))
    }
    fn quotient_of(&self, a: u64, b: u64) -> u64 {
        bits_of(f64::from_bits(a) / f64::from_bits(b))
    }
    fn parse_of(&self, _text: Chars) -> Option<u64> {
        unreachable!()
    }
    fn text_of(&self, _n: u64) -> Chars {
        unreachable!()
    }
    fn native_of(&self, _id: usize, _global: FrameModel, _args: kbscript::host::Values) -> (Self, FrameModel, ValueModel) {
        unreachable!()
    }
    fn sum(&self, a: Number, b: Number) -> Number {
        Number::from_bits((f64::from_bits(a.bits) + f64::from_bits(b.bits)).to_bits())
    }
    fn difference(&self, a: Number, b: Number) -> Number {
        Number::from_bits((f64::from_bits(a.bits) - f64::from_bits(b.bits)).to_bits())
    }
    fn product(&self, a: Number, b: Number) -> Number {
        Number::from_bits((f64::from_bits(a.bits) * f64::from_bits(b.bits)).to_bits())
    }
    fn quotient(&self, a: Number, b: Number) -> Number {
        Number::from_bits((f64::from_bits(a.bits) / f64::from_bits(b.bits)).to_bits())
    }
    fn parse_number(&self, text: &str) -> Option<Number> {
        text.parse::<f64>().ok().map(|x| Number::from_bits(x.to_bits()))
    }
    fn number_text(&self, n: Number) -> String {
        f64::from_bits(n.bits).to_string()
    }
    fn call_native(&mut self, id: usize, global: &mut Scope, args: &[Value]) -> Value {
        if id == 0 {
            let v = args.first().cloned().unwrap_or(Value::Null);
            let text = v.to_string(&*self);
            self.log.push(text);
            v
        } else {
            let old = global.get_variable("count").cloned().unwrap_or(Value::Null);
            let next = self.sum(old.to_number(&*self), Number::one());
            global.add_variable("count".to_string(), Value::Number(next));
            Value::Null
        }
    }
}

fn host() -> TestHost {
    TestHost { log: vec![] }
}

fn n(x: f64) -> Number {
    Number::from_bits(x.to_bits())
}

fn num(x: f64) -> Value {
    Value::Number(n(x))
}

fn text(s: &str) -> Value {
    Value::String(s.to_string())
}

fn id(s: &str) -> Identify {
    Identify(s.to_string())
}

fn e_num(x: f64) -> Box<Expr> {
    Box::new(Expr::Value(Lit::Number(n(x))))
}

fn e_str(s: &str) -> Box<Expr> {
    Box::new(Expr::Value(Lit::String(s.to_string())))
}

fn e_var(s: &str) -> Box<Expr> {
    Box::new(Expr::Value(Lit::Identify(id(s))))
}

fn e_bin(a: Box<Expr>, op: OpCode, b: Box<Expr>) -> Box<Expr> {
    Box::new(Expr::Expr2(a, op, b))
}

fn e_call(name: &str, params: Vec<Box<Expr>>) -> Box<Expr> {
    Box::new(Expr::FuncCall(FuncCall { name: id(name), params }))
}

fn s_def(name: &str, value: Box<Expr>) -> Stat {
    Stat::VarDef(VariableDefine { name: id(name), value })
}

fn s_set(name: &str, value: Box<Expr>) -> Stat {
    Stat::VarMod(VariableModify { name: id(name), op: OpCode::Eq, value })
}

fn s_if(cond: Box<Expr>, then_branch: Vec<Stat>, otherwise: Vec<Stat>) -> Stat {
    Stat::IfBlock(IfBlock { cond, then_branch, otherwise })
}

fn s_loop(body: Vec<Stat>) -> Stat {
    Stat::LoopBlock(LoopBlock(body))
}

fn run(vm: &mut VM, h: &mut TestHost, stat: Stat) -> Value {
    vm.submit_unit(File::Stat(stat), h, FUEL).expect("within budget")
}

fn num_of(v: &Value) -> f64 {
    match v {
        Value::Number(x) => f64::from_bits(x.bits),
        _ => panic!("not a number: {:?}", v),
    }
}

#[test]
fn bool_round_trip_is_idempotent() {
    for v in [Value::Null, text(""), text("x"), num(0.0), num(-2.0), num(3.5), num(f64::NAN)] {
        assert_eq!(Value::from_bool(Value::from_bool(v.to_bool()).to_bool()).to_bool(), v.to_bool());
    }
}

#[test]
fn truthiness_of_numbers() {
    assert!(!num(0.0).to_bool());
    assert!(!num(-0.0).to_bool());
    assert!(!num(-1.0).to_bool());
    assert!(!num(f64::NEG_INFINITY).to_bool());
    assert!(!num(f64::NAN).to_bool());
    assert!(num(0.5).to_bool());
    assert!(num(f64::INFINITY).to_bool());
    assert!(num(f64::MIN_POSITIVE).to_bool());
    assert!(!Value::Null.to_bool());
    assert!(!text("").to_bool());
    assert!(text("0").to_bool());
}

#[test]
fn from_bool_gives_one_and_zero() {
    assert_eq!(num_of(&Value::from_bool(true)), 1.0);
    assert_eq!(num_of(&Value::from_bool(false)), 0.0);
}

#[test]
fn coercions_to_number_and_text() {
    let h = host();
    assert_eq!(f64::from_bits(Value::Null.to_number(&h).bits), 0.0);
    assert_eq!(f64::from_bits(text("2.5").to_number(&h).bits), 2.5);
    assert_eq!(f64::from_bits(text("abc").to_number(&h).bits), 0.0);
    assert_eq!(f64::from_bits(num(-4.0).to_number(&h).bits), -4.0);
    assert_eq!(Value::Null.to_string(&h), "");
    assert_eq!(text("hi").to_string(&h), "hi");
    assert_eq!(num(1.5).to_string(&h), "1.5");
    assert_eq!(num(1.0).to_string(&h), "1");
}

#[test]
fn equality_is_structural_and_variant_sensitive() {
    assert!(num(1.0) == num(1.0));
    assert!(num(0.0) == num(-0.0));
    assert!(num(f64::NAN) != num(f64::NAN));
    assert!(text("1") != num(1.0));
    assert!(Value::Null == Value::Null);
    assert!(Value::Null != num(0.0));
    assert!(text("ab") == text("ab"));
}

#[test]
fn number_order_on_bits() {
    let vals = [-3.0, -0.0, 0.0, 1.0, 2.5, f64::INFINITY, f64::NEG_INFINITY, f64::NAN];
    for a in vals {
        for b in vals {
            assert_eq!(n(a).lt(&n(b)), a < b, "{} < {}", a, b);
            assert_eq!(n(a).le(&n(b)), a <= b, "{} <= {}", a, b);
            assert_eq!(n(a).num_eq(&n(b)), a == b, "{} == {}", a, b);
        }
        assert_eq!(f64::from_bits(n(a).negate().bits).to_bits(), (-a).to_bits());
    }
}

#[test]
fn unary_operators() {
    let h = host();
    assert_eq!(num_of(&kbscript::interpreter::eval_op1(&OpCode::Sub, num(2.0), &h)), -2.0);
    assert_eq!(num_of(&kbscript::interpreter::eval_op1(&OpCode::Add, text("7"), &h)), 7.0);
    assert_eq!(num_of(&kbscript::interpreter::eval_op1(&OpCode::Not, text(""), &h)), 1.0);
    assert!(kbscript::interpreter::eval_op1(&OpCode::Mul, num(2.0), &h) == Value::Null);
}

#[test]
fn binary_operators() {
    let h = host();
    assert_eq!(num_of(&eval_op2(&OpCode::Add, num(2.0), num(3.0), &h)), 5.0);
    assert!(eval_op2(&OpCode::Add, text("a"), num(1.0), &h) == text("a1"));
    assert!(eval_op2(&OpCode::Add, text("a"), Value::Null, &h) == text("a"));
    assert_eq!(num_of(&eval_op2(&OpCode::Add, num(1.0), text("2"), &h)), 3.0);
    assert_eq!(num_of(&eval_op2(&OpCode::Sub, num(1.0), num(3.0), &h)), -2.0);
    assert_eq!(num_of(&eval_op2(&OpCode::Mul, text("4"), num(3.0), &h)), 12.0);
    assert_eq!(num_of(&eval_op2(&OpCode::Div, num(1.0), num(0.0), &h)), f64::INFINITY);
    assert_eq!(num_of(&eval_op2(&OpCode::Lt, num(1.0), num(2.0), &h)), 1.0);
    assert_eq!(num_of(&eval_op2(&OpCode::Gt, num(1.0), num(2.0), &h)), 0.0);
    assert_eq!(num_of(&eval_op2(&OpCode::Le, num(2.0), num(2.0), &h)), 1.0);
    assert_eq!(num_of(&eval_op2(&OpCode::Ge, Value::Null, num(1.0), &h)), 0.0);
    assert_eq!(num_of(&eval_op2(&OpCode::EqEq, text("x"), text("x"), &h)), 1.0);
    assert_eq!(num_of(&eval_op2(&OpCode::NotEq, text("1"), num(1.0), &h)), 1.0);
    assert_eq!(num_of(&eval_op2(&OpCode::OrOr, num(0.0), text("y"), &h)), 1.0);
    assert_eq!(num_of(&eval_op2(&OpCode::AndAnd, num(1.0), num(-1.0), &h)), 0.0);
    assert!(eval_op2(&OpCode::Not, num(1.0), num(1.0), &h) == Value::Null);
    assert!(eval_op2(&OpCode::Eq, num(1.0), num(1.0), &h) == Value::Null);
}

#[test]
fn reading_undefined_variable_gives_null() {
    let mut vm = VM::new();
    let mut h = host();
    assert!(vm.get_variable("nope").is_none());
    assert!(run(&mut vm, &mut h, Stat::Expr(e_var("nope"))) == Value::Null);
}

#[test]
fn assigning_undefined_is_dropped_then_define_works() {
    let mut vm = VM::new();
    let mut h = host();
    run(&mut vm, &mut h, s_set("y", e_num(1.0)));
    assert!(vm.get_variable("y").is_none());
    run(&mut vm, &mut h, s_def("y", e_num(2.0)));
    assert_eq!(num_of(&vm.get_variable("y").unwrap()), 2.0);
    assert_eq!(num_of(&run(&mut vm, &mut h, Stat::Expr(e_var("y")))), 2.0);
}

#[test]
fn break_leaves_only_the_innermost_loop() {
    let mut vm = VM::new();
    let mut h = host();
    run(&mut vm, &mut h, s_def("outer", e_num(0.0)));
    let inner = s_loop(vec![s_if(e_num(1.0), vec![Stat::BreakStat], vec![])]);
    let outer = s_loop(vec![
        inner,
        s_set("outer", e_bin(e_var("outer"), OpCode::Add, e_num(1.0))),
        s_if(e_bin(e_var("outer"), OpCode::Ge, e_num(3.0)), vec![Stat::BreakStat], vec![]),
    ]);
    run(&mut vm, &mut h, outer);
    assert_eq!(num_of(&vm.get_variable("outer").unwrap()), 3.0);
}

#[test]
fn top_level_break_ends_only_its_statement() {
    let mut vm = VM::new();
    let mut h = host();
    let script = vec![
        File::Stat(s_def("a", e_num(1.0))),
        File::Stat(Stat::BreakStat),
        File::Stat(s_if(e_num(1.0), vec![Stat::BreakStat, s_def("c", e_num(3.0))], vec![])),
        File::Stat(s_def("b", e_num(2.0))),
    ];
    assert!(vm.submit_script(script, &mut h, FUEL));
    assert_eq!(num_of(&vm.get_variable("a").unwrap()), 1.0);
    assert_eq!(num_of(&vm.get_variable("b").unwrap()), 2.0);
    assert!(vm.get_variable("c").is_none());
}

#[test]
fn function_cannot_see_callers_block_locals() {
    let mut vm = VM::new();
    let mut h = host();
    vm.add_native_function("bump".to_string(), 1);
    let g = FuncDef { name: id("g"), params: vec![], body: vec![Stat::Expr(e_call("bump", vec![])), Stat::Expr(e_var("x"))] };
    vm.submit_unit(File::FuncDef(g), &mut h, FUEL);
    let r = run(
        &mut vm,
        &mut h,
        s_if(e_num(1.0), vec![s_def("x", e_str("local")), Stat::Expr(e_call("g", vec![]))], vec![]),
    );
    assert!(r == Value::Null);
    assert_eq!(num_of(&vm.get_variable("count").unwrap()), 1.0);
    run(&mut vm, &mut h, s_def("x", e_str("global")));
    let r = run(&mut vm, &mut h, Stat::Expr(e_call("g", vec![])));
    assert!(r == text("global"));
    assert_eq!(num_of(&vm.get_variable("count").unwrap()), 2.0);
}

#[test]
fn logical_operators_evaluate_both_sides() {
    let mut vm = VM::new();
    let mut h = host();
    vm.add_native_function("mark".to_string(), 0);
    let or = e_bin(e_call("mark", vec![e_str("left")]), OpCode::OrOr, e_call("mark", vec![e_str("right")]));
    assert_eq!(num_of(&run(&mut vm, &mut h, Stat::Expr(or))), 1.0);
    let and = e_bin(e_call("mark", vec![e_str("")]), OpCode::AndAnd, e_call("mark", vec![e_str("second")]));
    assert_eq!(num_of(&run(&mut vm, &mut h, Stat::Expr(and))), 0.0);
    assert_eq!(h.log, vec!["left", "right", "", "second"]);
}

#[test]
fn script_function_adds_its_arguments() {
    let mut vm = VM::new();
    let mut h = host();
    let f = FuncDef {
        name: id("f"),
        params: vec![id("a"), id("b")],
        body: vec![Stat::Expr(e_bin(e_var("a"), OpCode::Add, e_var("b")))],
    };
    assert!(vm.submit_unit(File::FuncDef(f), &mut h, FUEL).unwrap() == Value::Null);
    let r = run(&mut vm, &mut h, Stat::Expr(e_call("f", vec![e_num(2.0), e_num(3.0)])));
    assert!(r == num(5.0));
    assert_eq!(num_of(&r), 5.0);
}

#[test]
fn missing_arguments_are_null_and_extra_ignored() {
    let mut vm = VM::new();
    let mut h = host();
    let f = FuncDef { name: id("f"), params: vec![id("a"), id("b")], body: vec![Stat::Expr(e_var("b"))] };
    vm.submit_unit(File::FuncDef(f), &mut h, FUEL);
    assert!(run(&mut vm, &mut h, Stat::Expr(e_call("f", vec![e_num(1.0)]))) == Value::Null);
    let r = run(&mut vm, &mut h, Stat::Expr(e_call("f", vec![e_num(1.0), e_num(2.0), e_num(9.0)])));
    assert_eq!(num_of(&r), 2.0);
}

#[test]
fn undefined_function_gives_null() {
    let mut vm = VM::new();
    let mut h = host();
    assert!(run(&mut vm, &mut h, Stat::Expr(e_call("missing", vec![e_num(1.0)]))) == Value::Null);
}

#[test]
fn text_on_the_left_concatenates() {
    let mut vm = VM::new();
    let mut h = host();
    run(&mut vm, &mut h, s_def("x", e_str("a")));
    run(&mut vm, &mut h, s_set("x", e_bin(e_var("x"), OpCode::Add, e_num(1.0))));
    assert!(vm.get_variable("x").unwrap() == text("a1"));
}

#[test]
fn loop_value_is_the_value_at_break() {
    let mut vm = VM::new();
    let mut h = host();
    run(&mut vm, &mut h, s_def("i", e_num(0.0)));
    let body = vec![
        s_set("i", e_bin(e_var("i"), OpCode::Add, e_num(1.0))),
        s_if(
            e_bin(e_var("i"), OpCode::Ge, e_num(3.0)),
            vec![Stat::Expr(e_bin(e_var("i"), OpCode::Mul, e_num(10.0))), Stat::BreakStat],
            vec![],
        ),
    ];
    let r = run(&mut vm, &mut h, s_loop(body));
    assert_eq!(num_of(&r), 30.0);
    assert_eq!(num_of(&vm.get_variable("i").unwrap()), 3.0);
}

#[test]
fn loop_frame_persists_across_iterations() {
    let mut vm = VM::new();
    let mut h = host();
    run(&mut vm, &mut h, s_def("n", e_num(0.0)));
    let body = vec![
        s_if(e_bin(e_var("seen"), OpCode::EqEq, e_str("yes")), vec![Stat::Expr(e_str("second")), Stat::BreakStat], vec![]),
        s_def("seen", e_str("yes")),
    ];
    assert!(run(&mut vm, &mut h, s_loop(body)) == text("second"));
    assert!(vm.get_variable("seen").is_none());
}

#[test]
fn block_definitions_shadow_and_vanish() {
    let mut vm = VM::new();
    let mut h = host();
    run(&mut vm, &mut h, s_def("v", e_num(1.0)));
    let r = run(
        &mut vm,
        &mut h,
        s_if(e_num(0.0), vec![], vec![s_def("v", e_num(2.0)), s_set("v", e_num(5.0)), Stat::Expr(e_var("v"))]),
    );
    assert_eq!(num_of(&r), 5.0);
    assert_eq!(num_of(&vm.get_variable("v").unwrap()), 1.0);
    run(&mut vm, &mut h, s_if(e_num(1.0), vec![s_set("v", e_num(7.0))], vec![]));
    assert_eq!(num_of(&vm.get_variable("v").unwrap()), 7.0);
}

#[test]
fn endless_loop_stops_when_budget_runs_out() {
    let mut vm = VM::new();
    let mut h = host();
    let r = vm.submit_unit(File::Stat(s_loop(vec![Stat::Expr(e_num(1.0))])), &mut h, 50);
    assert!(r.is_none());
    assert!(vm.is_at_top_level());
}

#[test]
fn scope_frame_operations() {
    let mut s = Scope::new();
    assert!(s.get_variable("a").is_none());
    assert!(!s.modify_variable("a", num(1.0)));
    s.add_variable("a".to_string(), num(1.0));
    s.add_variable("a".to_string(), num(2.0));
    assert_eq!(num_of(s.get_variable("a").unwrap()), 2.0);
    assert!(s.modify_variable("a", text("t")));
    assert!(*s.get_variable("a").unwrap() == text("t"));
    s.add_native_function("a".to_string(), 4);
    assert!(*s.get_variable("a").unwrap() == text("t"));
    assert!(s.get_function("a").is_some());
    assert!(s.get_function("b").is_none());
}
