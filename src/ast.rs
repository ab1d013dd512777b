use crate::value::Number;
use vstd::prelude::*;

verus! {

/// A name in the source: of a variable, a function or a parameter.
#[derive(Clone, Debug)]
pub struct Identify(pub String);

/// Operators of the language. Not every one is valid in every position: the
/// evaluator gives `Null` for an operator where it has no meaning.
#[derive(Clone, Copy, Debug, PartialEq, Eq, Structural)]
pub enum OpCode {
    Add,
    Sub,
    Mul,
    Div,
    Eq,
    Not,
    EqEq,
    NotEq,
    Lt,
    Gt,
    Le,
    Ge,
    OrOr,
    AndAnd,
}

#[derive(Debug)]
pub enum Expr {
    Value(Value),
    FuncCall(FuncCall),
    Expr1(OpCode, Box<Expr>),
    Expr2(Box<Expr>, OpCode, Box<Expr>),
}

#[derive(Debug)]
pub enum Stat {
    Expr(Box<Expr>),
    VarDef(VariableDefine),
    VarMod(VariableModify),
    IfBlock(IfBlock),
    LoopBlock(LoopBlock),
    BreakStat,
}

#[derive(Debug)]
pub struct IfBlock {
    pub cond: Box<Expr>,
    pub then_branch: Vec<Stat>,
    pub otherwise: Vec<Stat>,
}

#[derive(Debug)]
pub struct LoopBlock(pub Vec<Stat>);

/// One top-level unit of a script.
#[derive(Debug)]
pub enum File {
    Stat(Stat),
    FuncDef(FuncDef),
}

#[derive(Debug)]
pub struct FuncDef {
    pub name: Identify,
    pub params: Vec<Identify>,
    pub body: Vec<Stat>,
}

/// A literal or a variable reference.
#[derive(Debug)]
pub enum Value {
    Identify(Identify),
    String(String),
    Number(Number),
}

#[derive(Debug)]
pub struct FuncCall {
    pub name: Identify,
    pub params: Vec<Box<Expr>>,
}

#[derive(Debug)]
pub struct VariableDefine {
    pub name: Identify,
    pub value: Box<Expr>,
}

/// An assignment. Its operator is carried but not applied: the statement
/// always replaces the value.
#[derive(Debug)]
pub struct VariableModify {
    pub name: Identify,
    pub op: OpCode,
    pub value: Box<Expr>,
}

} // verus!
