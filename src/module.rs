use vstd::prelude::*;

use crate::function::FunctionValue;
use crate::statements::Global;
use crate::text::same_text;

verus! {

/// The index of the first function named `name`, or -1.
pub open spec fn function_index(fs: Seq<FunctionValue>, name: Seq<char>) -> int
    decreases fs.len(),
{
    if fs.len() == 0 {
        -1
    } else {
        let k = function_index(fs.drop_last(), name);
        if k >= 0 {
            k
        } else if fs.last().name@ == name {
            fs.len() - 1
        } else {
            -1
        }
    }
}

/// The index of the first global named `name`, or -1.
pub open spec fn global_index(gs: Seq<Global>, name: Seq<char>) -> int
    decreases gs.len(),
{
    if gs.len() == 0 {
        -1
    } else {
        let k = global_index(gs.drop_last(), name);
        if k >= 0 {
            k
        } else if gs.last().name@ == name {
            gs.len() - 1
        } else {
            -1
        }
    }
}

pub proof fn lemma_function_index(fs: Seq<FunctionValue>, name: Seq<char>)
    ensures
        function_index(fs, name) == -1 <==> (forall|j: int| 0 <= j < fs.len() ==> fs[j].name@ != name),
        function_index(fs, name) >= 0 ==> {
            &&& function_index(fs, name) < fs.len()
            &&& fs[function_index(fs, name)].name@ == name
            &&& forall|j: int| 0 <= j < function_index(fs, name) ==> fs[j].name@ != name
        },
        function_index(fs, name) >= -1,
    decreases fs.len(),
{
    if fs.len() > 0 {
        let d = fs.drop_last();
        lemma_function_index(d, name);
        assert(forall|j: int| 0 <= j < d.len() ==> d[j] == fs[j]);
        if function_index(fs, name) == -1 {
            assert forall|j: int| 0 <= j < fs.len() implies fs[j].name@ != name by {
                if j < d.len() {
                    assert(d[j] == fs[j]);
                }
            }
        }
    }
}

pub proof fn lemma_global_index(gs: Seq<Global>, name: Seq<char>)
    ensures
        global_index(gs, name) == -1 <==> (forall|j: int| 0 <= j < gs.len() ==> gs[j].name@ != name),
        global_index(gs, name) >= 0 ==> {
            &&& global_index(gs, name) < gs.len()
            &&& gs[global_index(gs, name)].name@ == name
            &&& forall|j: int| 0 <= j < global_index(gs, name) ==> gs[j].name@ != name
        },
        global_index(gs, name) >= -1,
    decreases gs.len(),
{
    if gs.len() > 0 {
        let d = gs.drop_last();
        lemma_global_index(d, name);
        assert(forall|j: int| 0 <= j < d.len() ==> d[j] == gs[j]);
        if global_index(gs, name) == -1 {
            assert forall|j: int| 0 <= j < gs.len() implies gs[j].name@ != name by {
                if j < d.len() {
                    assert(d[j] == gs[j]);
                }
            }
        }
    }
}

/// The symbol table: the functions and globals declared so far, in order.
#[derive(Debug)]
pub struct Module {
    pub name: String,
    pub functions: Vec<FunctionValue>,
    pub globals: Vec<Global>,
}

impl Module {
    pub fn new(name: String) -> (r: Self)
        ensures
            r.name == name,
            r.functions@ == Seq::<FunctionValue>::empty(),
            r.globals@ == Seq::<Global>::empty(),
    {
        Self { name, functions: Vec::new(), globals: Vec::new() }
    }

    pub fn add_function(&mut self, function: FunctionValue)
        ensures
            final(self).name == old(self).name,
            final(self).functions@ == old(self).functions@.push(function),
            final(self).globals == old(self).globals,
    {
        self.functions.push(function);
    }

    pub fn add_global(&mut self, global: Global)
        ensures
            final(self).name == old(self).name,
            final(self).functions == old(self).functions,
            final(self).globals@ == old(self).globals@.push(global),
    {
        self.globals.push(global);
    }

    /// The first function named `name`.
    pub fn get_function(&self, name: &str) -> (r: Option<&FunctionValue>)
        ensures
            r is None <==> function_index(self.functions@, name@) == -1,
            r is Some ==> *r->0 == self.functions@[function_index(self.functions@, name@)],
    {
        let mut i: usize = 0;
        while i < self.functions.len()
            invariant
                i <= self.functions@.len(),
                forall|j: int| 0 <= j < i ==> self.functions@[j].name@ != name@,
            decreases self.functions@.len() - i,
        {
            if same_text(self.functions[i].name.as_str(), name) {
                proof {
                    lemma_function_index(self.functions@, name@);
                }
                return Some(&self.functions[i]);
            }
            i = i + 1;
        }
        proof {
            lemma_function_index(self.functions@, name@);
        }
        None
    }

    /// The first function named `name`, to change it in place.
    pub fn get_function_mut(&mut self, name: &str) -> (r: Option<&mut FunctionValue>)
        ensures
            r is None <==> function_index(old(self).functions@, name@) == -1,
            r is None ==> *final(self) == *old(self),
            r is Some ==> {
                let k = function_index(old(self).functions@, name@);
                &&& *r->0 == old(self).functions@[k]
                &&& final(self).name == old(self).name
                &&& final(self).globals == old(self).globals
                &&& final(self).functions@ == old(self).functions@.update(k, *final(r->0))
            },
    {
        let i = self.function_position(name);
        if i == self.functions.len() {
            return None;
        }
        Some(&mut self.functions[i])
    }

    /// The position of the first function named `name`, or the number of functions.
    fn function_position(&self, name: &str) -> (r: usize)
        ensures
            r <= self.functions@.len(),
            r == self.functions@.len() <==> function_index(self.functions@, name@) == -1,
            r < self.functions@.len() ==> r == function_index(self.functions@, name@),
    {
        let mut i: usize = 0;
        while i < self.functions.len()
            invariant
                i <= self.functions@.len(),
                forall|j: int| 0 <= j < i ==> self.functions@[j].name@ != name@,
            decreases self.functions@.len() - i,
        {
            if same_text(self.functions[i].name.as_str(), name) {
                proof {
                    lemma_function_index(self.functions@, name@);
                }
                return i;
            }
            i = i + 1;
        }
        proof {
            lemma_function_index(self.functions@, name@);
        }
        i
    }

    /// The first global named `name`.
    pub fn get_global(&self, name: &str) -> (r: Option<&Global>)
        ensures
            r is None <==> global_index(self.globals@, name@) == -1,
            r is Some ==> *r->0 == self.globals@[global_index(self.globals@, name@)],
    {
        let mut i: usize = 0;
        while i < self.globals.len()
            invariant
                i <= self.globals@.len(),
                forall|j: int| 0 <= j < i ==> self.globals@[j].name@ != name@,
            decreases self.globals@.len() - i,
        {
            if same_text(self.globals[i].name.as_str(), name) {
                proof {
                    lemma_global_index(self.globals@, name@);
                }
                return Some(&self.globals[i]);
            }
            i = i + 1;
        }
        proof {
            lemma_global_index(self.globals@, name@);
        }
        None
    }

    /// A copy of this module; the functions and globals are copied in order.
    pub fn duplicate(&self) -> (r: Self)
        ensures
            r.name == self.name,
            r.functions@.len() == self.functions@.len(),
            forall|i: int| 0 <= i < self.functions@.len() ==> #[trigger] r.functions@[i]@ == self.functions@[i]@,
            r.globals@.len() == self.globals@.len(),
            forall|i: int| 0 <= i < self.globals@.len() ==> #[trigger] r.globals@[i]@ == self.globals@[i]@,
    {
        let mut functions: Vec<FunctionValue> = Vec::new();
        let mut i: usize = 0;
        while i < self.functions.len()
            invariant
                i <= self.functions@.len(),
                functions@.len() == i,
                forall|j: int| 0 <= j < i ==> #[trigger] functions@[j]@ == self.functions@[j]@,
            decreases self.functions@.len() - i,
        {
            functions.push(self.functions[i].duplicate());
            i = i + 1;
        }
        let mut globals: Vec<Global> = Vec::new();
        let mut k: usize = 0;
        while k < self.globals.len()
            invariant
                k <= self.globals@.len(),
                globals@.len() == k,
                forall|j: int| 0 <= j < k ==> #[trigger] globals@[j]@ == self.globals@[j]@,
            decreases self.globals@.len() - k,
        {
            globals.push(self.globals[k].duplicate());
            k = k + 1;
        }
        Module { name: self.name.clone(), functions, globals }
    }
}

impl Clone for Module {
    fn clone(&self) -> (r: Self)
        ensures
            r.name == self.name,
            r.functions@.len() == self.functions@.len(),
            forall|i: int| 0 <= i < self.functions@.len() ==> #[trigger] r.functions@[i]@ == self.functions@[i]@,
            r.globals@.len() == self.globals@.len(),
            forall|i: int| 0 <= i < self.globals@.len() ==> #[trigger] r.globals@[i]@ == self.globals@[i]@,
    {
        self.duplicate()
    }
}

} // verus!
