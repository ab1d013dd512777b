//! Runtime of a small imperative scripting language: values, a chain of
//! variable frames, script and native functions, and a tree-walking evaluator.
pub mod ast;
pub mod func;
pub mod host;
pub mod interpreter;
pub mod scope;
pub mod value;
pub mod vm;
