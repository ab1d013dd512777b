use crate::ast;
use crate::func::Func;
use crate::host::Host;
use crate::value::{Value, ValueModel};
use std::rc::Rc;
use vstd::prelude::*;

verus! {

/// The entry that a search from index `i` finds first for `name`.
pub open spec fn first_entry<V>(s: Seq<(String, V)>, name: Seq<char>, i: int) -> Option<V>
    decreases s.len() - i,
{
    if i < 0 || i >= s.len() {
        None
    } else if s[i].0@ == name {
        Some(s[i].1)
    } else {
        first_entry(s, name, i + 1)
    }
}

/// Replacing the first entry for `name` changes what is found for `name`
/// alone.
proof fn lemma_first_entry_update<V>(
    s: Seq<(String, V)>,
    j: int,
    key: String,
    v: V,
    k: Seq<char>,
    i: int,
)
    requires
        0 <= j < s.len(),
        0 <= i <= s.len(),
        s[j].0@ == key@,
        forall|t: int| 0 <= t < j ==> s[t].0@ != key@,
    ensures
        first_entry(s.update(j, (key, v)), k, i) == (if k == key@ && i <= j {
            Some(v)
        } else {
            first_entry(s, k, i)
        }),
    decreases s.len() - i,
{
    if i < s.len() {
        lemma_first_entry_update(s, j, key, v, k, i + 1);
    }
}

/// Appending an entry for a new name changes what is found for that name alone.
proof fn lemma_first_entry_push<V>(s: Seq<(String, V)>, key: String, v: V, k: Seq<char>, i: int)
    requires
        0 <= i <= s.len(),
        forall|t: int| 0 <= t < s.len() ==> s[t].0@ != key@,
    ensures
        first_entry(s.push((key, v)), k, i) == (if k == key@ {
            Some(v)
        } else {
            first_entry(s, k, i)
        }),
    decreases s.len() - i,
{
    let s2 = s.push((key, v));
    assert(s2[i] == if i < s.len() { s[i] } else { (key, v) });
    if i < s.len() {
        lemma_first_entry_push(s, key, v, k, i + 1);
    } else {
        assert(first_entry(s2, k, i + 1) == None::<V>);
    }
}

/// No entry before `i` holds `name`, so a search from 0 finds what one from `i` does.
proof fn lemma_first_entry_skip<V>(s: Seq<(String, V)>, name: Seq<char>, i: int)
    requires
        0 <= i <= s.len(),
        forall|t: int| 0 <= t < i ==> s[t].0@ != name,
    ensures
        first_entry(s, name, 0) == first_entry(s, name, i),
    decreases i,
{
    if i > 0 {
        lemma_first_entry_skip(s, name, i - 1);
    }
}

/// Index of the first entry named `name`.
fn find_index<V>(s: &Vec<(String, V)>, name: &String) -> (r: Option<usize>)
    ensures
        match r {
            Some(j) => j < s@.len() && s@[j as int].0@ == name@ && forall|t: int|
                0 <= t < j ==> s@[t].0@ != name@,
            None => forall|t: int| 0 <= t < s@.len() ==> s@[t].0@ != name@,
        },
        first_entry(s@, name@, 0) == (match r {
            Some(j) => Some(s@[j as int].1),
            None => None::<V>,
        }),
{
    let mut i: usize = 0;
    while i < s.len()
        invariant
            i <= s@.len(),
            forall|t: int| 0 <= t < i ==> s@[t].0@ != name@,
        decreases s@.len() - i,
    {
        if s[i].0.eq(name) {
            proof {
                lemma_first_entry_skip(s@, name@, i as int);
            }
            return Some(i);
        }
        i = i + 1;
    }
    proof {
        lemma_first_entry_skip(s@, name@, i as int);
    }
    None
}

/// Sets the first entry named `key`, or appends one.
fn put_entry<V>(s: &mut Vec<(String, V)>, key: String, v: V)
    ensures
        forall|k: Seq<char>|
            first_entry(final(s)@, k, 0) == (if k == key@ {
                Some(v)
            } else {
                first_entry(old(s)@, k, 0)
            }),
{
    let found = find_index(s, &key);
    match found {
        Some(j) => {
            proof {
                assert forall|k: Seq<char>|
                    first_entry(old(s)@.update(j as int, (key, v)), k, 0) == (if k == key@ {
                        Some(v)
                    } else {
                        first_entry(old(s)@, k, 0)
                    }) by {
                    lemma_first_entry_update(old(s)@, j as int, key, v, k, 0);
                }
            }
            s.set(j, (key, v));
        },
        None => {
            proof {
                assert forall|k: Seq<char>|
                    first_entry(old(s)@.push((key, v)), k, 0) == (if k == key@ {
                        Some(v)
                    } else {
                        first_entry(old(s)@, k, 0)
                    }) by {
                    lemma_first_entry_push(old(s)@, key, v, k, 0);
                }
            }
            s.push((key, v));
        },
    }
}

/// What one frame holds: its variables and its functions, by name.
pub struct FrameModel {
    pub vars: Map<Seq<char>, ValueModel>,
    pub funcs: Map<Seq<char>, Func>,
}

/// One frame: variables and functions in separate namespaces. A later write
/// to a name replaces the earlier one.
pub struct Scope {
    variables: Vec<(String, Value)>,
    functions: Vec<(String, Func)>,
}

impl View for Scope {
    type V = FrameModel;

    closed spec fn view(&self) -> FrameModel {
        FrameModel {
            vars: Map::new(
                |k: Seq<char>| first_entry(self.variables@, k, 0) is Some,
                |k: Seq<char>| first_entry(self.variables@, k, 0)->0@,
            ),
            funcs: Map::new(
                |k: Seq<char>| first_entry(self.functions@, k, 0) is Some,
                |k: Seq<char>| first_entry(self.functions@, k, 0)->0,
            ),
        }
    }
}

impl Scope {
    pub fn new() -> (r: Scope)
        ensures
            r@.vars == Map::<Seq<char>, ValueModel>::empty(),
            r@.funcs == Map::<Seq<char>, Func>::empty(),
    {
        let r = Scope { variables: Vec::new(), functions: Vec::new() };
        assert(r@.vars =~= Map::<Seq<char>, ValueModel>::empty());
        assert(r@.funcs =~= Map::<Seq<char>, Func>::empty());
        r
    }

    pub fn add_variable(&mut self, name: String, val: Value)
        ensures
            final(self)@.vars == old(self)@.vars.insert(name@, val@),
            final(self)@.funcs == old(self)@.funcs,
    {
        let ghost key = name@;
        let ghost m = val@;
        put_entry(&mut self.variables, name, val);
        assert(self@.vars =~= old(self)@.vars.insert(key, m));
        assert(self@.funcs =~= old(self)@.funcs);
    }

    pub fn get_variable(&self, name: &str) -> (r: Option<&Value>)
        ensures
            match r {
                Some(v) => self@.vars.contains_key(name@) && self@.vars[name@] == v@,
                None => !self@.vars.contains_key(name@),
            },
    {
        let key = name.to_owned();
        match find_index(&self.variables, &key) {
            Some(j) => Some(&self.variables[j].1),
            None => None,
        }
    }

    /// Replaces the value of an existing variable; false, with nothing
    /// changed, where the frame has no variable of that name.
    pub fn modify_variable(&mut self, name: &str, val: Value) -> (r: bool)
        ensures
            r == old(self)@.vars.contains_key(name@),
            r ==> final(self)@.vars == old(self)@.vars.insert(name@, val@),
            !r ==> final(self)@ == old(self)@,
            final(self)@.funcs == old(self)@.funcs,
    {
        let key = name.to_owned();
        match find_index(&self.variables, &key) {
            Some(_) => {
                self.add_variable(key, val);
                true
            },
            None => false,
        }
    }

    /// Registers a host function under `name`, by its index in the host's table.
    pub fn add_native_function(&mut self, name: String, id: usize)
        ensures
            final(self)@.funcs == old(self)@.funcs.insert(name@, Func::NativeFunc(id)),
            final(self)@.vars == old(self)@.vars,
    {
        let ghost key = name@;
        put_entry(&mut self.functions, name, Func::NativeFunc(id));
        assert(self@.funcs =~= old(self)@.funcs.insert(key, Func::NativeFunc(id)));
        assert(self@.vars =~= old(self)@.vars);
    }

    /// Registers a script-defined function under its own name.
    pub fn add_code_function(&mut self, def: ast::FuncDef)
        ensures
            final(self)@.funcs == old(self)@.funcs.insert(def.name.0@, Func::CodeFunc(Rc::new(def))),
            final(self)@.vars == old(self)@.vars,
    {
        let name = def.name.0.clone();
        let ghost key = name@;
        let f = Func::CodeFunc(Rc::new(def));
        put_entry(&mut self.functions, name, f);
        assert(self@.funcs =~= old(self)@.funcs.insert(key, f));
        assert(self@.vars =~= old(self)@.vars);
    }

    pub fn get_function(&self, name: &str) -> (r: Option<&Func>)
        ensures
            match r {
                Some(f) => self@.funcs.contains_key(name@) && self@.funcs[name@] == *f,
                None => !self@.funcs.contains_key(name@),
            },
    {
        let key = name.to_owned();
        match find_index(&self.functions, &key) {
            Some(j) => Some(&self.functions[j].1),
            None => None,
        }
    }
}

/// The chain of frames seen from one point of evaluation. Frames live on a
/// stack: those from `base` up are visible, innermost last, and the global
/// frame closes every chain. A script-defined function starts a new base, so
/// its body sees its own frames and the global frame only.
pub struct Scopes {
    global: Scope,
    locals: Vec<Scope>,
    base: usize,
}

pub struct ScopesModel {
    pub global: FrameModel,
    pub locals: Seq<FrameModel>,
    pub base: nat,
}

impl View for Scopes {
    type V = ScopesModel;

    closed spec fn view(&self) -> ScopesModel {
        ScopesModel {
            global: self.global@,
            locals: self.locals@.map_values(|f: Scope| f@),
            base: self.base as nat,
        }
    }
}

pub open spec fn empty_frame() -> FrameModel {
    FrameModel { vars: Map::empty(), funcs: Map::empty() }
}

impl ScopesModel {
    /// `after` is a state this one can reach by evaluation at the same
    /// position: same base and depth, and the frames below the base untouched.
    pub open spec fn keeps(self, after: ScopesModel) -> bool {
        &&& after.wf()
        &&& after.base == self.base
        &&& after.locals.len() == self.locals.len()
        &&& forall|i: int| 0 <= i < self.base ==> after.locals[i] == self.locals[i]
    }

    pub open spec fn wf(self) -> bool {
        self.base <= self.locals.len()
    }

    /// Number of frames a lookup visits, the global one included.
    pub open spec fn depth(self) -> int {
        self.locals.len() - self.base + 1
    }

    /// The value of a variable: from the innermost frame that has it, searching
    /// the visible frames below position `k` and then the global frame.
    pub open spec fn var_from(self, name: Seq<char>, k: int) -> Option<ValueModel>
        decreases k,
    {
        if self.base < k <= self.locals.len() {
            if self.locals[k - 1].vars.contains_key(name) {
                Some(self.locals[k - 1].vars[name])
            } else {
                self.var_from(name, k - 1)
            }
        } else if self.global.vars.contains_key(name) {
            Some(self.global.vars[name])
        } else {
            None
        }
    }

    pub open spec fn var(self, name: Seq<char>) -> Option<ValueModel> {
        self.var_from(name, self.locals.len() as int)
    }

    pub open spec fn func_from(self, name: Seq<char>, k: int) -> Option<Func>
        decreases k,
    {
        if self.base < k <= self.locals.len() {
            if self.locals[k - 1].funcs.contains_key(name) {
                Some(self.locals[k - 1].funcs[name])
            } else {
                self.func_from(name, k - 1)
            }
        } else if self.global.funcs.contains_key(name) {
            Some(self.global.funcs[name])
        } else {
            None
        }
    }

    /// The function a call of `name` reaches.
    pub open spec fn func(self, name: Seq<char>) -> Option<Func> {
        self.func_from(name, self.locals.len() as int)
    }

    /// The chain a script-defined function starts with: a fresh frame above
    /// which only the global frame is visible.
    pub open spec fn call_entry(self) -> ScopesModel {
        ScopesModel { locals: self.locals.push(empty_frame()), base: self.locals.len(), ..self }
    }

    /// The chain with a fresh innermost frame.
    pub open spec fn push_frame(self) -> ScopesModel {
        ScopesModel { locals: self.locals.push(empty_frame()), ..self }
    }

    /// The chain after a call ends: its frame gone and the caller's base back.
    pub open spec fn leave(self, saved: nat) -> ScopesModel {
        ScopesModel { locals: self.locals.drop_last(), base: saved, ..self }
    }

    /// The chain without its innermost frame.
    pub open spec fn pop_frame(self) -> ScopesModel {
        ScopesModel { locals: self.locals.drop_last(), ..self }
    }

    /// The chain after `name` is bound to the function `f` in the innermost frame.
    pub open spec fn define_func(self, name: Seq<char>, f: Func) -> ScopesModel {
        if self.base < self.locals.len() {
            let top = (self.locals.len() - 1) as int;
            ScopesModel {
                locals: self.locals.update(
                    top,
                    FrameModel { funcs: self.locals[top].funcs.insert(name, f), ..self.locals[top] },
                ),
                ..self
            }
        } else {
            ScopesModel {
                global: FrameModel { funcs: self.global.funcs.insert(name, f), ..self.global },
                ..self
            }
        }
    }

    /// The chain after `name` is bound to `v` in the innermost frame.
    pub open spec fn define(self, name: Seq<char>, v: ValueModel) -> ScopesModel {
        if self.base < self.locals.len() {
            let top = (self.locals.len() - 1) as int;
            ScopesModel {
                locals: self.locals.update(
                    top,
                    FrameModel { vars: self.locals[top].vars.insert(name, v), ..self.locals[top] },
                ),
                ..self
            }
        } else {
            ScopesModel {
                global: FrameModel { vars: self.global.vars.insert(name, v), ..self.global },
                ..self
            }
        }
    }

    /// The chain after an assignment searched from position `k`: the innermost
    /// frame that has `name` gets `v`; where none has it, nothing changes.
    pub open spec fn assign_from(self, name: Seq<char>, v: ValueModel, k: int) -> ScopesModel
        decreases k,
    {
        if self.base < k <= self.locals.len() {
            if self.locals[k - 1].vars.contains_key(name) {
                ScopesModel {
                    locals: self.locals.update(
                        k - 1,
                        FrameModel { vars: self.locals[k - 1].vars.insert(name, v), ..self.locals[k - 1] },
                    ),
                    ..self
                }
            } else {
                self.assign_from(name, v, k - 1)
            }
        } else if self.global.vars.contains_key(name) {
            ScopesModel {
                global: FrameModel { vars: self.global.vars.insert(name, v), ..self.global },
                ..self
            }
        } else {
            self
        }
    }

    pub open spec fn assign(self, name: Seq<char>, v: ValueModel) -> ScopesModel {
        self.assign_from(name, v, self.locals.len() as int)
    }
}

/// An assignment changes no frame below the base, nor the shape of the chain.
proof fn lemma_assign_keeps(m: ScopesModel, name: Seq<char>, v: ValueModel, k: int)
    requires
        m.wf(),
        k <= m.locals.len(),
    ensures
        m.keeps(m.assign_from(name, v, k)),
    decreases k,
{
    if m.base < k <= m.locals.len() && !m.locals[k - 1].vars.contains_key(name) {
        lemma_assign_keeps(m, name, v, k - 1);
    }
}

/// At the start of a call, a read of any name finds the global binding or
/// nothing: no variable of the caller's blocks is visible, whatever it is named.
pub proof fn lemma_call_sees_only_global(m: ScopesModel, name: Seq<char>)
    requires
        m.wf(),
    ensures
        m.call_entry().wf(),
        m.call_entry().var(name) == (if m.global.vars.contains_key(name) {
            Some(m.global.vars[name])
        } else {
            None
        }),
{
    let c = m.call_entry();
    assert(c.locals[c.locals.len() - 1] == empty_frame());
    assert(c.var_from(name, c.locals.len() - 1) == c.var_from(name, c.base as int));
}

proof fn lemma_assign_unbound(m: ScopesModel, name: Seq<char>, v: ValueModel, k: int)
    requires
        m.wf(),
        k <= m.locals.len(),
        m.var_from(name, k) is None,
    ensures
        m.assign_from(name, v, k) == m,
    decreases k,
{
    if m.base < k <= m.locals.len() {
        lemma_assign_unbound(m, name, v, k - 1);
    }
}

/// Reading a name that no visible frame binds gives nothing. Assigning to it
/// changes nothing; defining it afterwards, in the innermost frame, makes a
/// read give the defined value.
pub proof fn lemma_assign_undefined_then_define(
    m: ScopesModel,
    name: Seq<char>,
    v1: ValueModel,
    v2: ValueModel,
)
    requires
        m.wf(),
        m.var(name) is None,
    ensures
        m.assign(name, v1) == m,
        m.assign(name, v1).define(name, v2).var(name) == Some(v2),
{
    lemma_assign_unbound(m, name, v1, m.locals.len() as int);
    let d = m.define(name, v2);
    if m.base < m.locals.len() {
        assert(d.locals[m.locals.len() - 1].vars.contains_key(name));
    }
}

impl Scopes {
    /// A chain of the global frame alone.
    pub fn new(global: Scope) -> (r: Scopes)
        ensures
            r@.global == global@,
            r@.locals.len() == 0,
            r@.base == 0,
    {
        let r = Scopes { global, locals: Vec::new(), base: 0 };
        assert(r@.locals =~= Seq::<FrameModel>::empty());
        r
    }

    pub fn is_top_level(&self) -> (r: bool)
        ensures
            r == (self@.wf() && self@.locals.len() == 0 && self@.base == 0),
    {
        self.locals.len() == 0 && self.base == 0
    }

    pub fn global(&self) -> (r: &Scope)
        ensures
            r@ == self@.global,
    {
        &self.global
    }

    /// Binds `name` in the innermost frame, shadowing outer bindings.
    pub fn add_variable(&mut self, name: String, val: Value)
        requires
            old(self)@.wf(),
        ensures
            final(self)@ == old(self)@.define(name@, val@),
            old(self)@.keeps(final(self)@),
    {
        let ghost key = name@;
        let ghost m = val@;
        if self.base < self.locals.len() {
            let top = self.locals.len() - 1;
            self.locals[top].add_variable(name, val);
        } else {
            self.global.add_variable(name, val);
        }
        assert(self@.locals =~= old(self)@.define(key, m).locals);
    }

    /// The value of the innermost visible binding of `name`, if any.
    pub fn get_variable(&self, name: &str) -> (r: Option<Value>)
        requires
            self@.wf(),
        ensures
            r matches Some(v) ==> self@.var(name@) == Some(v@),
            r is None ==> self@.var(name@) is None,
    {
        let mut k = self.locals.len();
        while k > self.base
            invariant
                self.base <= k <= self.locals@.len(),
                self@.var(name@) == self@.var_from(name@, k as int),
            decreases k,
        {
            assert(self@.locals[k - 1] == self.locals@[k - 1]@);
            match self.locals[k - 1].get_variable(name) {
                Some(v) => {
                    return Some(v.clone_value());
                },
                None => {},
            }
            k = k - 1;
        }
        match self.global.get_variable(name) {
            Some(v) => Some(v.clone_value()),
            None => None,
        }
    }

    /// Replaces the innermost visible binding of `name`; where there is none,
    /// nothing changes.
    pub fn modify_variable(&mut self, name: &str, new_value: Value)
        requires
            old(self)@.wf(),
        ensures
            final(self)@ == old(self)@.assign(name@, new_value@),
            old(self)@.keeps(final(self)@),
    {
        proof {
            lemma_assign_keeps(old(self)@, name@, new_value@, old(self)@.locals.len() as int);
        }
        let ghost m = new_value@;
        let mut k = self.locals.len();
        while k > self.base
            invariant
                self.base <= k <= self.locals@.len(),
                self.base == old(self).base,
                self.locals@.len() == old(self).locals@.len(),
                *self == *old(self),
                m == new_value@,
                old(self)@.assign(name@, m) == old(self)@.assign_from(name@, m, k as int),
            decreases k,
        {
            assert(self@.locals[k - 1] == self.locals@[k - 1]@);
            if self.locals[k - 1].get_variable(name).is_some() {
                assert(old(self)@.locals[k - 1].vars.contains_key(name@));
                let ghost target = old(self)@.assign_from(name@, m, k as int);
                let i = k - 1;
                let changed = self.locals[i].modify_variable(name, new_value);
                assert(changed);
                assert(self@.locals[k - 1] == target.locals[k - 1]);
                assert(self@.locals =~= target.locals);
                return;
            }
            k = k - 1;
        }
        self.global.modify_variable(name, new_value);
        assert(self@.global =~= old(self)@.assign(name@, m).global);
        assert(self@.locals =~= old(self)@.assign(name@, m).locals);
    }

    /// Registers a host function in the innermost frame.
    pub fn add_native_function(&mut self, name: String, id: usize)
        requires
            old(self)@.wf(),
        ensures
            final(self)@ == old(self)@.define_func(name@, Func::NativeFunc(id)),
            final(self)@.func(name@) == Some(Func::NativeFunc(id)),
    {
        let ghost key = name@;
        if self.base < self.locals.len() {
            let top = self.locals.len() - 1;
            self.locals[top].add_native_function(name, id);
            assert(self@.locals[top as int] == self.locals@[top as int]@);
        } else {
            self.global.add_native_function(name, id);
        }
        assert(self@.locals =~= old(self)@.define_func(key, Func::NativeFunc(id)).locals);
    }

    /// Registers a script-defined function in the innermost frame.
    pub fn add_code_function(&mut self, def: ast::FuncDef)
        requires
            old(self)@.wf(),
        ensures
            final(self)@ == old(self)@.define_func(def.name.0@, Func::CodeFunc(Rc::new(def))),
            final(self)@.func(def.name.0@) == Some(Func::CodeFunc(Rc::new(def))),
    {
        let ghost key = def.name.0@;
        let ghost f = Func::CodeFunc(Rc::new(def));
        if self.base < self.locals.len() {
            let top = self.locals.len() - 1;
            self.locals[top].add_code_function(def);
            assert(self@.locals[top as int] == self.locals@[top as int]@);
        } else {
            self.global.add_code_function(def);
        }
        assert(self@.locals =~= old(self)@.define_func(key, f).locals);
    }

    /// The function a call of `name` reaches, if any.
    pub fn find_function(&self, name: &str) -> (r: Option<Func>)
        requires
            self@.wf(),
        ensures
            r == self@.func(name@),
    {
        let mut k = self.locals.len();
        while k > self.base
            invariant
                self.base <= k <= self.locals@.len(),
                self@.func(name@) == self@.func_from(name@, k as int),
            decreases k,
        {
            assert(self@.locals[k - 1] == self.locals@[k - 1]@);
            match self.locals[k - 1].get_function(name) {
                Some(f) => {
                    return Some(f.share());
                },
                None => {},
            }
            k = k - 1;
        }
        match self.global.get_function(name) {
            Some(f) => Some(f.share()),
            None => None,
        }
    }

    /// Opens a fresh innermost frame, for the body of a block.
    pub fn new_sub(&mut self)
        requires
            old(self)@.wf(),
        ensures
            final(self)@.wf(),
            final(self)@ == old(self)@.push_frame(),
    {
        let f = Scope::new();
        proof {
            assert(f@ =~= empty_frame());
        }
        self.locals.push(f);
        assert(self@.locals =~= old(self)@.locals.push(empty_frame()));
    }

    /// Closes the innermost frame opened by `new_sub`.
    pub fn drop_sub(&mut self)
        requires
            old(self)@.wf(),
            old(self)@.base < old(self)@.locals.len(),
        ensures
            final(self)@.wf(),
            final(self)@ == old(self)@.pop_frame(),
    {
        self.locals.pop();
        assert(self@.locals =~= old(self)@.locals.drop_last());
    }

    /// Starts the chain of a script-defined call: a fresh frame above which
    /// only the global frame is visible. Returns the base to restore.
    pub fn enter_call(&mut self) -> (saved: usize)
        requires
            old(self)@.wf(),
        ensures
            saved == old(self)@.base,
            final(self)@.wf(),
            final(self)@ == old(self)@.call_entry(),
    {
        let saved = self.base;
        self.base = self.locals.len();
        self.new_sub();
        saved
    }

    /// Ends the chain started by `enter_call`.
    pub fn leave_call(&mut self, saved: usize)
        requires
            old(self)@.wf(),
            old(self)@.base + 1 == old(self)@.locals.len(),
            saved <= old(self)@.base,
        ensures
            final(self)@.wf(),
            final(self)@ == old(self)@.leave(saved as nat),
    {
        self.drop_sub();
        self.base = saved;
    }

    /// Runs a native function of the host on the global frame.
    pub fn call_native<H: Host>(&mut self, host: &mut H, id: usize, args: &[Value]) -> (r: Value)
        ensures
            ({
                let (h, g, v) = old(host).native_of(id, old(self)@.global, args@.map_values(|a: Value| a@));
                *final(host) == h && final(self)@ == ScopesModel { global: g, ..old(self)@ } && r@ == v
            }),
    {
        host.call_native(id, &mut self.global, args)
    }
}

} // verus!
