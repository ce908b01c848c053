use vstd::prelude::*;
use vstd::string::*;

use crate::label::{Label, LabelModel};
use crate::stringify::Stringify;
use crate::text::{join, lemma_join_all, lemma_join_step};
use crate::types::{duplicate_types, lemma_types_view, type_texts, types_view, MirageTypeEnum, TypeModel};
use crate::values::{MirageValueEnum, RegisterModel, RegisterType, RegisterValue, ValueModel};

verus! {

/// The mathematical model of a function type.
pub struct FunctionTypeModel {
    pub args: Seq<TypeModel>,
    pub ret: TypeModel,
    pub is_var_arg: bool,
}

impl FunctionTypeModel {
    /// The text of a function type: `(args) -> ret`, with `...` for further arguments.
    pub open spec fn text(self) -> Seq<char> {
        "("@ + join(type_texts(self.args), ", "@) + (if self.is_var_arg {
            if self.args.len() > 0 { ", "@ + "..."@ } else { "..."@ }
        } else {
            Seq::empty()
        }) + ") -> "@ + self.ret.text()
    }
}

/// The type of a function: its argument types, its return type, and whether it takes more.
#[derive(Debug, PartialEq)]
pub struct FunctionType {
    pub args: Vec<MirageTypeEnum>,
    pub ret: MirageTypeEnum,
    pub is_var_arg: bool,
}

impl View for FunctionType {
    type V = FunctionTypeModel;

    open spec fn view(&self) -> FunctionTypeModel {
        FunctionTypeModel { args: types_view(self.args@), ret: self.ret@, is_var_arg: self.is_var_arg }
    }
}

impl FunctionType {
    pub fn new(args: Vec<MirageTypeEnum>, ret: MirageTypeEnum) -> (r: Self)
        ensures
            r.args == args,
            r.ret == ret,
            !r.is_var_arg,
    {
        Self { args, ret, is_var_arg: false }
    }

    /// A function type that takes further arguments after `args`.
    pub fn new_var_arg(args: Vec<MirageTypeEnum>, ret: MirageTypeEnum) -> (r: Self)
        ensures
            r.args == args,
            r.ret == ret,
            r.is_var_arg,
    {
        Self { args, ret, is_var_arg: true }
    }

    pub fn get_ret(&self) -> (r: &MirageTypeEnum)
        ensures
            *r == self.ret,
    {
        &self.ret
    }

    pub fn get_args(&self) -> (r: &Vec<MirageTypeEnum>)
        ensures
            *r == self.args,
    {
        &self.args
    }

    /// A function of this type, without any block yet.
    pub fn fn_value(&self, name: String) -> (r: FunctionValue)
        ensures
            r@ == (FunctionModel { name: name@, ty: self@, labels: Seq::empty() }),
    {
        FunctionValue::new(name, self.duplicate())
    }

    pub fn duplicate(&self) -> (r: Self)
        ensures
            r@ == self@,
    {
        FunctionType { args: duplicate_types(&self.args), ret: self.ret.duplicate(), is_var_arg: self.is_var_arg }
    }

    pub fn print_to_string(&self) -> (r: String)
        ensures
            r@ == self@.text(),
    {
        let ghost texts = type_texts(types_view(self.args@));
        proof {
            lemma_types_view(self.args@);
        }
        let mut s = String::from_str("(");
        let mut i: usize = 0;
        while i < self.args.len()
            invariant
                i <= self.args@.len(),
                texts == type_texts(types_view(self.args@)),
                types_view(self.args@).len() == self.args@.len(),
                forall|j: int| 0 <= j < self.args@.len() ==> #[trigger] types_view(self.args@)[j] == self.args@[j]@,
                s@ == "("@ + join(texts.take(i as int), ", "@),
            decreases self.args@.len() - i,
        {
            proof {
                lemma_join_step(texts, ", "@, i as int);
            }
            if i > 0 {
                s.append(", ");
            }
            s.append(self.args[i].print_to_string().as_str());
            proof {
                assert(s@ =~= "("@ + join(texts.take(i + 1), ", "@));
            }
            i = i + 1;
        }
        proof {
            lemma_join_all(texts, ", "@);
        }
        if self.is_var_arg {
            if self.args.len() > 0 {
                s.append(", ");
            }
            s.append("...");
        }
        s.append(") -> ");
        s.append(self.ret.print_to_string().as_str());
        assert(s@ =~= self@.text());
        s
    }
}

impl Clone for FunctionType {
    fn clone(&self) -> (r: Self)
        ensures
            r@ == self@,
    {
        self.duplicate()
    }
}

/// The mathematical model of a function.
pub struct FunctionModel {
    pub name: Seq<char>,
    pub ty: FunctionTypeModel,
    pub labels: Seq<LabelModel>,
}

impl FunctionModel {
    /// The text of a function: name and type, then its blocks, one after another.
    pub open spec fn text(self) -> Seq<char> {
        self.name + self.ty.text() + "\n"@ + join(self.labels.map_values(|l: LabelModel| l.text()), "\n"@)
    }
}

/// The models of a sequence of blocks.
pub open spec fn labels_view(ls: Seq<Label>) -> Seq<LabelModel> {
    ls.map_values(|l: Label| l@)
}

/// A function: its name, its type, and its blocks in order.
#[derive(Debug, PartialEq)]
pub struct FunctionValue {
    pub name: String,
    pub ty: FunctionType,
    pub labels: Vec<Label>,
}

impl View for FunctionValue {
    type V = FunctionModel;

    open spec fn view(&self) -> FunctionModel {
        FunctionModel { name: self.name@, ty: self.ty@, labels: labels_view(self.labels@) }
    }
}

/// The index of the first block named `name`, or -1.
pub open spec fn label_index(ls: Seq<Label>, name: Seq<char>) -> int
    decreases ls.len(),
{
    if ls.len() == 0 {
        -1
    } else {
        let k = label_index(ls.drop_last(), name);
        if k >= 0 {
            k
        } else if ls.last().name@ == name {
            ls.len() - 1
        } else {
            -1
        }
    }
}

proof fn lemma_label_index(ls: Seq<Label>, name: Seq<char>)
    ensures
        label_index(ls, name) == -1 <==> (forall|j: int| 0 <= j < ls.len() ==> ls[j].name@ != name),
        label_index(ls, name) >= 0 ==> {
            &&& label_index(ls, name) < ls.len()
            &&& ls[label_index(ls, name)].name@ == name
            &&& forall|j: int| 0 <= j < label_index(ls, name) ==> ls[j].name@ != name
        },
        label_index(ls, name) >= -1,
    decreases ls.len(),
{
    if ls.len() > 0 {
        let d = ls.drop_last();
        lemma_label_index(d, name);
        assert(forall|j: int| 0 <= j < d.len() ==> d[j] == ls[j]);
        if label_index(ls, name) == -1 {
            assert forall|j: int| 0 <= j < ls.len() implies ls[j].name@ != name by {
                if j < d.len() {
                    assert(d[j] == ls[j]);
                }
            }
        }
    }
}

impl FunctionValue {
    pub fn new(name: String, ty: FunctionType) -> (r: Self)
        ensures
            r.name == name,
            r.ty == ty,
            r.labels@ == Seq::<Label>::empty(),
            r@ == (FunctionModel { name: name@, ty: ty@, labels: Seq::empty() }),
    {
        let r = Self { name, ty, labels: Vec::new() };
        assert(labels_view(r.labels@) =~= Seq::empty());
        r
    }

    pub fn get_name(&self) -> (r: &String)
        ensures
            *r == self.name,
    {
        &self.name
    }

    pub fn get_type(&self) -> (r: &FunctionType)
        ensures
            *r == self.ty,
    {
        &self.ty
    }

    /// The `n`-th argument, as a register of class `Argument` typed as the argument.
    pub fn get_nth_arg(&self, n: usize) -> (r: Option<MirageValueEnum>)
        ensures
            n >= self.ty.args@.len() ==> r is None,
            n < self.ty.args@.len() ==> r is Some && r->0@ == ValueModel::Register(RegisterModel {
                index: n,
                class: RegisterType::Argument,
                ty: self.ty.args@[n as int]@,
                flags: Seq::empty(),
            }),
    {
        if n >= self.ty.args.len() {
            return None;
        }
        Some(MirageValueEnum::Register(RegisterValue::new(n, RegisterType::Argument, self.ty.args[n].duplicate())))
    }

    pub fn len_labels(&self) -> (r: usize)
        ensures
            r == self.labels@.len(),
    {
        self.labels.len()
    }

    /// The first block named `name`.
    pub fn get_label(&self, name: &str) -> (r: Option<&Label>)
        ensures
            r is None <==> label_index(self.labels@, name@) == -1,
            r is Some ==> *r->0 == self.labels@[label_index(self.labels@, name@)],
    {
        let mut i: usize = 0;
        while i < self.labels.len()
            invariant
                i <= self.labels@.len(),
                forall|j: int| 0 <= j < i ==> self.labels@[j].name@ != name@,
            decreases self.labels@.len() - i,
        {
            if crate::text::same_text(self.labels[i].name.as_str(), name) {
                proof {
                    lemma_label_index(self.labels@, name@);
                }
                return Some(&self.labels[i]);
            }
            i = i + 1;
        }
        proof {
            lemma_label_index(self.labels@, name@);
        }
        None
    }

    pub fn get_nth_label(&self, n: usize) -> (r: Option<&Label>)
        ensures
            n >= self.labels@.len() ==> r is None,
            n < self.labels@.len() ==> r == Some(&self.labels@[n as int]),
    {
        if n >= self.labels.len() {
            return None;
        }
        Some(&self.labels[n])
    }

    pub fn get_nth_label_mut(&mut self, n: usize) -> (r: Option<&mut Label>)
        ensures
            n >= old(self).labels@.len() ==> r is None && *final(self) == *old(self),
            n < old(self).labels@.len() ==> r is Some && *r->0 == old(self).labels@[n as int]
                && final(self).name == old(self).name && final(self).ty == old(self).ty
                && final(self).labels@ == old(self).labels@.update(n as int, *final(r->0)),
    {
        if n >= self.labels.len() {
            return None;
        }
        Some(&mut self.labels[n])
    }

    pub fn get_labels_mut(&mut self) -> (r: &mut Vec<Label>)
        ensures
            *r == old(self).labels,
            final(self).name == old(self).name,
            final(self).ty == old(self).ty,
            final(self).labels == *final(r),
    {
        &mut self.labels
    }

    pub fn get_labels(&self) -> (r: &Vec<Label>)
        ensures
            *r == self.labels,
    {
        &self.labels
    }

    pub fn add_label(&mut self, label: Label)
        ensures
            final(self).name == old(self).name,
            final(self).ty == old(self).ty,
            final(self).labels@ == old(self).labels@.push(label),
    {
        self.labels.push(label);
    }

    pub fn duplicate(&self) -> (r: Self)
        ensures
            r@ == self@,
    {
        let mut labels: Vec<Label> = Vec::new();
        let mut i: usize = 0;
        while i < self.labels.len()
            invariant
                i <= self.labels@.len(),
                labels@.len() == i,
                forall|j: int| 0 <= j < i ==> #[trigger] labels@[j]@ == self.labels@[j]@,
            decreases self.labels@.len() - i,
        {
            labels.push(self.labels[i].duplicate());
            i = i + 1;
        }
        assert(labels_view(labels@) =~= labels_view(self.labels@));
        FunctionValue { name: self.name.clone(), ty: self.ty.duplicate(), labels }
    }

    pub fn print_to_string(&self) -> (r: String)
        ensures
            r@ == self@.text(),
    {
        let ghost texts = labels_view(self.labels@).map_values(|l: LabelModel| l.text());
        let mut s = self.name.clone();
        s.append(self.ty.print_to_string().as_str());
        s.append("\n");
        let ghost head = s@;
        let mut i: usize = 0;
        while i < self.labels.len()
            invariant
                i <= self.labels@.len(),
                texts == labels_view(self.labels@).map_values(|l: LabelModel| l.text()),
                s@ == head + join(texts.take(i as int), "\n"@),
            decreases self.labels@.len() - i,
        {
            proof {
                lemma_join_step(texts, "\n"@, i as int);
            }
            if i > 0 {
                s.append("\n");
            }
            s.append(self.labels[i].print_to_string().as_str());
            proof {
                assert(s@ =~= head + join(texts.take(i + 1), "\n"@));
            }
            i = i + 1;
        }
        proof {
            lemma_join_all(texts, "\n"@);
        }
        s
    }
}

impl Clone for FunctionValue {
    fn clone(&self) -> (r: Self)
        ensures
            r@ == self@,
    {
        self.duplicate()
    }
}

} // verus!
