use crate::ast;
use std::rc::Rc;
use vstd::prelude::*;

verus! {

/// A callable: one the host supplies, known by its index in the host's
/// table, or one defined by a script.
#[derive(Debug)]
pub enum Func {
    NativeFunc(usize),
    CodeFunc(Rc<ast::FuncDef>),
}

impl Func {
    /// A second handle on the same callable.
    pub fn share(&self) -> (r: Func)
        ensures
            r == *self,
    {
        match self {
            Func::NativeFunc(id) => Func::NativeFunc(*id),
            Func::CodeFunc(def) => Func::CodeFunc(Rc::clone(def)),
        }
    }
}

} // verus!
