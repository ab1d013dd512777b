use crate::ast;
use crate::func::Func;
use crate::host::Host;
use crate::interpreter::{run_ast_code, run_spec};
use crate::scope::{empty_frame, Scope, Scopes, ScopesModel};
use crate::value::{Value, ValueModel};
use std::rc::Rc;
use vstd::prelude::*;

verus! {

/// One top-level unit: a function definition lands in the global frame with
/// value `Null`; a statement runs as a sequence of its own, its `break` flag
/// dropped.
pub open spec fn unit_spec<H: Host>(h: H, m: ScopesModel, unit: ast::File, fuel: int) -> Option<
    (H, ScopesModel, ValueModel),
> {
    match unit {
        ast::File::FuncDef(def) => Some(
            (h, m.define_func(def.name.0@, Func::CodeFunc(Rc::new(def))), ValueModel::Null),
        ),
        ast::File::Stat(stat) => match run_spec(h, m, seq![stat], 0, ValueModel::Null, fuel) {
            Some((h1, m1, v, _)) => Some((h1, m1, v)),
            None => None,
        },
    }
}

/// Units `i..` of a script, in order; `None` where one of them runs out of
/// its step budget.
pub open spec fn script_spec<H: Host>(h: H, m: ScopesModel, units: Seq<ast::File>, i: int, fuel: int) -> Option<
    (H, ScopesModel),
>
    decreases units.len() - i,
{
    if 0 <= i < units.len() {
        match unit_spec(h, m, units[i], fuel) {
            Some((h1, m1, _)) => script_spec(h1, m1, units, i + 1, fuel),
            None => None,
        }
    } else {
        Some((h, m))
    }
}

/// The driver: owns the global frame and runs top-level units against the
/// chain made of it alone.
pub struct VM {
    scopes: Scopes,
}

impl VM {
    /// Between submissions the chain is the global frame alone.
    pub open spec fn at_top_level(&self) -> bool {
        self.view().wf() && self.view().locals.len() == 0 && self.view().base == 0
    }

    pub fn is_at_top_level(&self) -> (r: bool)
        ensures
            r == self.at_top_level(),
    {
        self.scopes.is_top_level()
    }

    /// The chain between two submissions: the global frame alone.
    pub closed spec fn view(&self) -> ScopesModel {
        self.scopes@
    }

    pub fn new() -> (r: VM)
        ensures
            r.view().global == empty_frame(),
            r.view().locals.len() == 0,
            r.view().base == 0,
            r.at_top_level(),
    {
        let g = Scope::new();
        proof {
            assert(g@ =~= empty_frame());
        }
        VM { scopes: Scopes::new(g) }
    }

    pub fn global_scope(&self) -> (r: &Scope)
        ensures
            r@ == self.view().global,
    {
        self.scopes.global()
    }

    /// Registers a host function, by its index in the host's table, in the
    /// global frame; a second registration of a name replaces the first.
    pub fn add_native_function(&mut self, name: String, id: usize)
        requires
            old(self).at_top_level(),
        ensures
            final(self).at_top_level(),
            final(self).view() == old(self).view().define_func(name@, Func::NativeFunc(id)),
            final(self).view().func(name@) == Some(Func::NativeFunc(id)),
    {
        self.scopes.add_native_function(name, id);
    }

    /// The value of a global variable.
    pub fn get_variable(&self, name: &str) -> (r: Option<Value>)
        requires
            self.at_top_level(),
        ensures
            r matches Some(v) ==> self.view().var(name@) == Some(v@),
            r is None ==> self.view().var(name@) is None,
    {
        self.scopes.get_variable(name)
    }

    /// Runs one top-level unit against the chain of the global frame alone.
    /// `None` where the step budget `fuel` ran out.
    pub fn submit_unit<H: Host>(&mut self, unit: ast::File, host: &mut H, fuel: u64) -> (r: Option<
        Value,
    >)
        requires
            old(self).at_top_level(),
        ensures
            final(self).at_top_level(),
            unit_spec(*old(host), old(self).view(), unit, fuel as int) == match r {
                Some(v) => Some((*final(host), final(self).view(), v@)),
                None => None,
            },
    {
        match unit {
            ast::File::Stat(stat) => {
                let ghost s = stat;
                let stats = vec![stat];
                assert(stats@ =~= seq![s]);
                match run_ast_code(&mut self.scopes, &stats, host, fuel) {
                    Some((v, _)) => Some(v),
                    None => None,
                }
            },
            ast::File::FuncDef(def) => {
                self.scopes.add_code_function(def);
                Some(Value::Null)
            },
        }
    }

    /// Runs the units of a script in order. True where every unit finished
    /// within its step budget `fuel`; where one did not, the others still run
    /// and the result is false.
    pub fn submit_script<H: Host>(&mut self, script: Vec<ast::File>, host: &mut H, fuel: u64) -> (r:
        bool)
        requires
            old(self).at_top_level(),
        ensures
            final(self).at_top_level(),
            r == script_spec(*old(host), old(self).view(), script@, 0, fuel as int) is Some,
            r ==> script_spec(*old(host), old(self).view(), script@, 0, fuel as int) == Some(
                (*final(host), final(self).view()),
            ),
    {
        let ghost whole = script@;
        let mut all = true;
        let mut units = script;
        let ghost mut i: int = 0;
        while units.len() > 0
            invariant
                self.at_top_level(),
                0 <= i <= whole.len(),
                units@ == whole.subrange(i, whole.len() as int),
                all ==> script_spec(*old(host), old(self).view(), whole, 0, fuel as int)
                    == script_spec(*host, self.view(), whole, i, fuel as int),
                !all ==> script_spec(*old(host), old(self).view(), whole, 0, fuel as int) is None,
            decreases units@.len(),
        {
            let unit = units.remove(0);
            assert(unit == whole[i]);
            if self.submit_unit(unit, host, fuel).is_none() {
                all = false;
            }
            proof {
                i = i + 1;
            }
            assert(units@ =~= whole.subrange(i, whole.len() as int));
        }
        all
    }
}

} // verus!
