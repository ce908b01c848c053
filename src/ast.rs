use vstd::prelude::*;
use vstd::string::*;

use crate::function::{FunctionType, FunctionValue};
use crate::statements::Target;
use crate::stringify::Stringify;
use crate::types::{types_view, MirageTypeEnum, TypeModel};
use crate::values::{MirageValueEnum, RegisterValue};

verus! {

/// An identifier of the textual front end.
#[derive(Debug, Clone, PartialEq)]
pub struct Ident {
    pub inner: String,
}

impl Ident {
    pub fn new(inner: String) -> (r: Self)
        ensures
            r.inner == inner,
    {
        Self { inner }
    }

    /// The text of this identifier.
    pub fn into_string(self) -> (r: String)
        ensures
            r == self.inner,
    {
        self.inner
    }
}

impl Stringify for Ident {
    fn to_string(&self) -> (r: String) {
        self.inner.clone()
    }
}

/// Flags written after a name.
#[derive(Debug, Clone, PartialEq)]
pub struct Flags {
    pub inner: Vec<Flag>,
}

impl Flags {
    pub fn new(inner: Vec<Flag>) -> (r: Self)
        ensures
            r.inner == inner,
    {
        Self { inner }
    }
}

impl Stringify for Flags {
    fn to_string(&self) -> (r: String) {
        let mut s = String::new();
        let mut i: usize = 0;
        while i < self.inner.len()
            invariant
                i <= self.inner@.len(),
            decreases self.inner@.len() - i,
        {
            s.append(self.inner[i].to_string().as_str());
            s.append(" ");
            i = i + 1;
        }
        s
    }
}

/// A flag, written `#name`.
#[derive(Debug, Clone, PartialEq)]
pub struct Flag {
    pub name: Ident,
}

impl Flag {
    pub fn new(name: Ident) -> (r: Self)
        ensures
            r.name == name,
    {
        Self { name }
    }
}

impl Stringify for Flag {
    fn to_string(&self) -> (r: String) {
        let mut s = String::from_str("#");
        s.append(self.name.inner.as_str());
        s
    }
}

/// A list of items, written `{ items... }`.
#[derive(Debug, Clone, PartialEq)]
pub struct List<T> {
    pub inner: Vec<T>,
}

impl<T> List<T> {
    pub fn new() -> (r: Self)
        ensures
            r.inner@ == Seq::<T>::empty(),
    {
        Self { inner: Vec::new() }
    }

    pub fn push(&mut self, item: T)
        ensures
            final(self).inner@ == old(self).inner@.push(item),
    {
        self.inner.push(item);
    }

    pub fn pop(&mut self) -> (r: Option<T>)
        ensures
            old(self).inner@.len() == 0 ==> r is None && final(self).inner@ == old(self).inner@,
            old(self).inner@.len() > 0 ==> r == Some(old(self).inner@.last())
                && final(self).inner@ == old(self).inner@.drop_last(),
    {
        self.inner.pop()
    }

    pub fn len(&self) -> (r: usize)
        ensures
            r == self.inner@.len(),
    {
        self.inner.len()
    }
}

impl<T: Stringify> Stringify for List<T> {
    fn to_string(&self) -> (r: String) {
        let mut items = String::from_str("{");
        let mut i: usize = 0;
        while i < self.inner.len()
            invariant
                i <= self.inner@.len(),
            decreases self.inner@.len() - i,
        {
            if i > 0 {
                items.append(",");
            }
            items.append(self.inner[i].to_string().as_str());
            i = i + 1;
        }
        items.append("}");
        items
    }
}

/// A constant: a value with its type.
#[derive(Debug, Clone, PartialEq)]
pub struct ConstValue {
    pub ty: MirageTypeEnum,
    pub val: MirageValueEnum,
}

impl ConstValue {
    /// A constant typed as its value.
    pub fn from(val: MirageValueEnum) -> (r: Self)
        ensures
            r.val == val,
            r.ty@ == val@.type_of(),
    {
        let ty = val.get_type();
        Self { ty, val }
    }

    pub fn new(ty: MirageTypeEnum, val: MirageValueEnum) -> (r: Self)
        ensures
            r.ty == ty,
            r.val == val,
    {
        Self { ty, val }
    }
}

impl Stringify for ConstValue {
    fn to_string(&self) -> (r: String) {
        self.val.print_to_string()
    }
}

/// A `const` instruction.
#[derive(Debug, Clone, PartialEq)]
pub struct ConstValueInstr {
    pub val: ConstValue,
}

impl ConstValueInstr {
    pub fn new(val: ConstValue) -> (r: Self)
        ensures
            r.val == val,
    {
        Self { val }
    }
}

impl Stringify for ConstValueInstr {
    fn to_string(&self) -> (r: String) {
        let mut s = String::from_str("const ");
        s.append(self.val.to_string().as_str());
        s
    }
}

/// A module declaration, written `module <name>;`.
#[derive(Debug, Clone, PartialEq)]
pub struct Module {
    pub name: Ident,
}

impl Module {
    pub fn new(name: Ident) -> (r: Self)
        ensures
            r.name == name,
    {
        Self { name }
    }
}

impl Stringify for Module {
    fn to_string(&self) -> (r: String) {
        let mut s = String::from_str("module ");
        s.append(self.name.inner.as_str());
        s.append(";");
        s
    }
}

/// A global variable, written `global <name> = <value>`.
#[derive(Debug, Clone, PartialEq)]
pub struct Global {
    pub name: Ident,
    pub value: ConstValue,
}

impl Global {
    pub fn new(name: Ident, value: ConstValue) -> (r: Self)
        ensures
            r.name == name,
            r.value == value,
    {
        Self { name, value }
    }
}

impl Stringify for Global {
    fn to_string(&self) -> (r: String) {
        let mut s = String::from_str("global ");
        s.append(self.name.inner.as_str());
        s.append(" = ");
        s.append(self.value.to_string().as_str());
        s
    }
}

/// A named struct layout, written `type <name> = { fields... };`.
#[derive(Debug, Clone, PartialEq)]
pub struct TypeDef {
    pub name: Ident,
    pub ty: List<MirageTypeEnum>,
}

impl TypeDef {
    pub fn new(name: Ident, ty: List<MirageTypeEnum>) -> (r: Self)
        ensures
            r.name == name,
            r.ty == ty,
    {
        Self { name, ty }
    }
}

impl Stringify for TypeDef {
    fn to_string(&self) -> (r: String) {
        let mut s = String::from_str("type ");
        s.append(self.name.inner.as_str());
        s.append(" = ");
        s.append(self.ty.to_string().as_str());
        s.append(";");
        s
    }
}

/// An argument position of an external function: a type, or any further arguments.
#[derive(Debug, Clone, PartialEq)]
pub enum ExternalArgumentsType {
    Simple(MirageTypeEnum),
    Infinite,
}

impl Stringify for ExternalArgumentsType {
    fn to_string(&self) -> (r: String) {
        match self {
            ExternalArgumentsType::Simple(ty) => ty.print_to_string(),
            ExternalArgumentsType::Infinite => String::from_str("..."),
        }
    }
}

/// The arguments of an external function, written `[types...]`.
#[derive(Debug, Clone, PartialEq)]
pub struct ExternalArguments(pub Vec<ExternalArgumentsType>);

impl ExternalArguments {
    pub fn new(args: Vec<ExternalArgumentsType>) -> (r: Self)
        ensures
            r.0 == args,
    {
        Self(args)
    }
}

impl Stringify for ExternalArguments {
    fn to_string(&self) -> (r: String) {
        let mut args = String::from_str("[");
        let mut i: usize = 0;
        while i < self.0.len()
            invariant
                i <= self.0@.len(),
            decreases self.0@.len() - i,
        {
            if i > 0 {
                args.append(", ");
            }
            args.append(self.0[i].to_string().as_str());
            i = i + 1;
        }
        args.append("]");
        args
    }
}

/// The type of an external function, written `args[types...] ret[type]`.
#[derive(Debug, Clone, PartialEq)]
pub struct ExternalFunctionType {
    pub args: ExternalArguments,
    pub ret: MirageTypeEnum,
}

impl ExternalFunctionType {
    pub fn new(args: ExternalArguments, ret: MirageTypeEnum) -> (r: Self)
        ensures
            r.args == args,
            r.ret == ret,
    {
        Self { args, ret }
    }
}

impl Stringify for ExternalFunctionType {
    fn to_string(&self) -> (r: String) {
        let mut s = String::from_str("args ");
        s.append(self.args.to_string().as_str());
        s.append(" ret[");
        s.append(self.ret.print_to_string().as_str());
        s.append("]");
        s
    }
}

/// The type of an external variable.
#[derive(Debug, Clone, PartialEq)]
pub struct ExternalVariableType {
    pub ty: MirageTypeEnum,
}

impl ExternalVariableType {
    pub fn new(ty: MirageTypeEnum) -> (r: Self)
        ensures
            r.ty == ty,
    {
        Self { ty }
    }
}

impl Stringify for ExternalVariableType {
    fn to_string(&self) -> (r: String) {
        self.ty.print_to_string()
    }
}

/// What an external declaration declares.
#[derive(Debug, Clone, PartialEq)]
pub enum ExternalType {
    Function(ExternalFunctionType),
    Variable(ExternalVariableType),
}

impl Stringify for ExternalType {
    fn to_string(&self) -> (r: String) {
        match self {
            ExternalType::Function(func) => func.to_string(),
            ExternalType::Variable(var) => var.to_string(),
        }
    }
}

/// An external declaration, written `extern <name> : <type>;`.
#[derive(Debug, Clone, PartialEq)]
pub struct External {
    pub name: Ident,
    pub ty: ExternalType,
}

/// Every argument position is a plain type.
pub open spec fn simple_args(args: Seq<ExternalArgumentsType>) -> bool {
    forall|i: int| 0 <= i < args.len() ==> (#[trigger] args[i]) is Simple
}

impl External {
    pub fn new(name: Ident, ty: ExternalType) -> (r: Self)
        ensures
            r.name == name,
            r.ty == ty,
    {
        Self { name, ty }
    }

    /// The function this declares; `None` for a variable or for further arguments (`...`).
    pub fn into_function_value(self) -> (r: Option<FunctionValue>)
        ensures
            r is Some <==> (self.ty is Function && simple_args(self.ty->Function_0.args.0@)),
            r is Some ==> {
                let f = r->0;
                let args = self.ty->Function_0.args.0@;
                &&& f.name == self.name.inner
                &&& f.labels@.len() == 0
                &&& !f.ty.is_var_arg
                &&& f.ty.ret == self.ty->Function_0.ret
                &&& f.ty.args@.len() == args.len()
                &&& forall|i: int| 0 <= i < args.len() ==> #[trigger] f.ty.args@[i]@ == args[i]->Simple_0@
            },
    {
        match self.ty {
            ExternalType::Function(func) => {
                let items = &func.args.0;
                let mut types: Vec<MirageTypeEnum> = Vec::new();
                let mut i: usize = 0;
                while i < items.len()
                    invariant
                        i <= items@.len(),
                        items@ == self.ty->Function_0.args.0@,
                        types@.len() == i,
                        forall|j: int| 0 <= j < i ==> (#[trigger] items@[j]) is Simple,
                        forall|j: int| 0 <= j < i ==> #[trigger] types@[j]@ == items@[j]->Simple_0@,
                    decreases items@.len() - i,
                {
                    match &items[i] {
                        ExternalArgumentsType::Simple(ty) => {
                            types.push(ty.duplicate());
                        },
                        ExternalArgumentsType::Infinite => {
                            assert(!(items@[i as int] is Simple));
                            return None;
                        },
                    }
                    i = i + 1;
                }
                Some(FunctionValue::new(self.name.inner, FunctionType::new(types, func.ret)))
            },
            ExternalType::Variable(_) => None,
        }
    }

    /// The declaration of the function `f`.
    pub fn from_function_value(f: &FunctionValue) -> (r: External)
        ensures
            r.name.inner == f.name,
            r.ty is Function,
            r.ty->Function_0.ret@ == f.ty.ret@,
            r.ty->Function_0.args.0@.len() == f.ty.args@.len(),
            forall|i: int| 0 <= i < f.ty.args@.len() ==> (#[trigger] r.ty->Function_0.args.0@[i]) is Simple
                && r.ty->Function_0.args.0@[i]->Simple_0@ == f.ty.args@[i]@,
    {
        let mut args: Vec<ExternalArgumentsType> = Vec::new();
        let mut i: usize = 0;
        while i < f.ty.args.len()
            invariant
                i <= f.ty.args@.len(),
                args@.len() == i,
                forall|j: int| 0 <= j < i ==> (#[trigger] args@[j]) is Simple && args@[j]->Simple_0@ == f.ty.args@[j]@,
            decreases f.ty.args@.len() - i,
        {
            args.push(ExternalArgumentsType::Simple(f.ty.args[i].duplicate()));
            i = i + 1;
        }
        External {
            name: Ident { inner: f.name.clone() },
            ty: ExternalType::Function(ExternalFunctionType { args: ExternalArguments(args), ret: f.ty.ret.duplicate() }),
        }
    }
}

impl Stringify for External {
    fn to_string(&self) -> (r: String) {
        let mut s = String::from_str("extern ");
        s.append(self.name.inner.as_str());
        s.append(" : ");
        s.append(self.ty.to_string().as_str());
        s.append(";");
        s
    }
}

/// An operand of the textual form.
#[derive(Debug, PartialEq)]
pub enum Value {
    ConstValue(ConstValueInstr),
    Register(RegisterValue),
    List(List<Value>),
}

impl Value {
    /// The operand that stands for `v`.
    pub fn from_value(v: MirageValueEnum) -> (r: Value)
        ensures
            v is Register ==> r == Value::Register(v->Register_0),
            !(v is Register) ==> r is ConstValue && r->ConstValue_0.val.val == v,
    {
        match v {
            MirageValueEnum::Register(r) => Value::Register(r),
            e => Value::ConstValue(ConstValueInstr::new(ConstValue::from(e))),
        }
    }

    /// The value an operand carries; `None` for a list.
    pub fn into_value(self) -> (r: Option<MirageValueEnum>)
        ensures
            self is ConstValue ==> r == Some(self->ConstValue_0.val.val),
            self is Register ==> r == Some(MirageValueEnum::Register(self->Register_0)),
            self is List ==> r is None,
    {
        match self {
            Value::ConstValue(c) => Some(c.val.val),
            Value::Register(r) => Some(MirageValueEnum::Register(r)),
            Value::List(_) => None,
        }
    }
}

impl Stringify for Value {
    fn to_string(&self) -> (r: String)
        decreases self,
    {
        match self {
            Value::ConstValue(val) => val.to_string(),
            Value::Register(mem) => mem.print_to_string(),
            Value::List(l) => {
                let mut s = String::from_str("{");
                let mut i: usize = 0;
                while i < l.inner.len()
                    invariant
                        i <= l.inner@.len(),
                        *self == Value::List(*l),
                    decreases l.inner@.len() - i,
                {
                    proof {
                        assert(decreases_to!(*self => self->List_0));
                        assert(decreases_to!(self->List_0 => self->List_0.inner));
                        assert(decreases_to!(l.inner => l.inner[i as int]));
                    }
                    if i > 0 {
                        s.append(",");
                    }
                    s.append(l.inner[i].to_string().as_str());
                    i = i + 1;
                }
                s.append("}");
                s
            },
        }
    }
}

/// A command of the textual form.
#[derive(Debug, PartialEq)]
pub enum Command {
    Copy(Ident),
    New(Ident, List<Value>),
    Get(RegisterValue, usize),
    Const(ConstValueInstr),
    Free(Vec<RegisterValue>),
    Jump(Ident),
    Jeq(Ident, RegisterValue, Value),
    IncrInt8(RegisterValue),
    IncrInt16(RegisterValue),
    IncrInt32(RegisterValue),
    IncrInt64(RegisterValue),
    IncrFloat32(RegisterValue),
    IncrFloat64(RegisterValue),
    AddInt8(Value, Value),
    AddInt16(Value, Value),
    AddInt32(Value, Value),
    AddInt64(Value, Value),
    AddFloat32(Value, Value),
    AddFloat64(Value, Value),
}

fn render_values(vs: &Vec<Value>, sep: &str) -> (r: String) {
    let mut s = String::new();
    let mut i: usize = 0;
    while i < vs.len()
        invariant
            i <= vs@.len(),
        decreases vs@.len() - i,
    {
        if i > 0 {
            s.append(sep);
        }
        s.append(vs[i].to_string().as_str());
        i = i + 1;
    }
    s
}

impl Stringify for Command {
    fn to_string(&self) -> (r: String) {
        match self {
            Command::Copy(name) => {
                let mut s = String::from_str("copy ");
                s.append(name.inner.as_str());
                s
            },
            Command::New(name, args) => {
                let mut s = String::from_str("new ");
                s.append(name.inner.as_str());
                s.append(", ");
                s.append(args.to_string().as_str());
                s
            },
            Command::Get(mem, index) => {
                let mut s = String::from_str("get ");
                s.append(mem.print_to_string().as_str());
                s.append(", ");
                s.append(crate::text::usize_text(*index).as_str());
                s
            },
            Command::Free(mems) => {
                let mut s = String::from_str("free ");
                let mut i: usize = 0;
                while i < mems.len()
                    invariant
                        i <= mems@.len(),
                    decreases mems@.len() - i,
                {
                    if i > 0 {
                        s.append(", ");
                    }
                    s.append(mems[i].print_to_string().as_str());
                    i = i + 1;
                }
                s
            },
            Command::Jump(name) => {
                let mut s = String::from_str("jump ");
                s.append(name.inner.as_str());
                s
            },
            Command::Jeq(name, mem, val) => {
                let mut s = String::from_str("jeq ");
                s.append(name.inner.as_str());
                s.append(", ");
                s.append(mem.print_to_string().as_str());
                s.append(", ");
                s.append(val.to_string().as_str());
                s
            },
            Command::IncrInt8(mem) => {
                let mut s = String::from_str("incr.i8 ");
                s.append(mem.print_to_string().as_str());
                s
            },
            Command::IncrInt16(mem) => {
                let mut s = String::from_str("incr.i16 ");
                s.append(mem.print_to_string().as_str());
                s
            },
            Command::IncrInt32(mem) => {
                let mut s = String::from_str("incr.i32 ");
                s.append(mem.print_to_string().as_str());
                s
            },
            Command::IncrInt64(mem) => {
                let mut s = String::from_str("incr.i64 ");
                s.append(mem.print_to_string().as_str());
                s
            },
            Command::IncrFloat32(mem) => {
                let mut s = String::from_str("incr.f32 ");
                s.append(mem.print_to_string().as_str());
                s
            },
            Command::IncrFloat64(mem) => {
                let mut s = String::from_str("incr.f64 ");
                s.append(mem.print_to_string().as_str());
                s
            },
            Command::AddInt8(a, b) => {
                let mut s = String::from_str("add.i8 ");
                s.append(a.to_string().as_str());
                s.append(", ");
                s.append(b.to_string().as_str());
                s
            },
            Command::AddInt16(a, b) => {
                let mut s = String::from_str("add.i16 ");
                s.append(a.to_string().as_str());
                s.append(", ");
                s.append(b.to_string().as_str());
                s
            },
            Command::AddInt32(a, b) => {
                let mut s = String::from_str("add.i32 ");
                s.append(a.to_string().as_str());
                s.append(", ");
                s.append(b.to_string().as_str());
                s
            },
            Command::AddInt64(a, b) => {
                let mut s = String::from_str("add.i64 ");
                s.append(a.to_string().as_str());
                s.append(", ");
                s.append(b.to_string().as_str());
                s
            },
            Command::AddFloat32(a, b) => {
                let mut s = String::from_str("add.f32 ");
                s.append(a.to_string().as_str());
                s.append(", ");
                s.append(b.to_string().as_str());
                s
            },
            Command::AddFloat64(a, b) => {
                let mut s = String::from_str("add.f64 ");
                s.append(a.to_string().as_str());
                s.append(", ");
                s.append(b.to_string().as_str());
                s
            },
            Command::Const(val) => val.to_string(),
        }
    }
}

/// An instruction of the textual form.
#[derive(Debug, PartialEq)]
pub enum LabelBodyInstr {
    Assign(Value, Box<LabelBodyInstr>),
    Call(Ident, Vec<Value>),
    Command(Command),
}

impl Stringify for LabelBodyInstr {
    fn to_string(&self) -> (r: String)
        decreases self,
    {
        match self {
            LabelBodyInstr::Assign(mem, instr) => {
                let mut s = mem.to_string();
                s.append(" = ");
                s.append((**instr).to_string().as_str());
                s
            },
            LabelBodyInstr::Call(name, args) => {
                let mut s = name.inner.clone();
                s.append(" { ");
                s.append(render_values(args, ", ").as_str());
                s.append(" }");
                s
            },
            LabelBodyInstr::Command(command) => command.to_string(),
        }
    }
}

/// A block of the textual form.
#[derive(Debug, PartialEq)]
pub struct Label {
    pub name: Ident,
    pub flags: Flags,
    pub body: Vec<LabelBodyInstr>,
}

impl Label {
    pub fn new(name: Ident, flags: Flags, body: Vec<LabelBodyInstr>) -> (r: Self)
        ensures
            r.name == name,
            r.flags == flags,
            r.body == body,
    {
        Self { name, flags, body }
    }
}

impl Stringify for Label {
    fn to_string(&self) -> (r: String) {
        let mut s = self.name.inner.clone();
        s.append(self.flags.to_string().as_str());
        s.append(": \n");
        let mut i: usize = 0;
        while i < self.body.len()
            invariant
                i <= self.body@.len(),
            decreases self.body@.len() - i,
        {
            if i > 0 {
                s.append("\n");
            }
            s.append(self.body[i].to_string().as_str());
            i = i + 1;
        }
        s
    }
}

/// A function signature: name, parameter types, return type and flags.
#[derive(Debug, Clone, PartialEq)]
pub struct FunctionSignature {
    pub name: Ident,
    pub params: Vec<MirageTypeEnum>,
    pub ret: MirageTypeEnum,
    pub flags: Flags,
}

impl FunctionSignature {
    pub fn new(name: Ident, params: Vec<MirageTypeEnum>, ret: MirageTypeEnum, flags: Flags) -> (r: Self)
        ensures
            r.name == name,
            r.params == params,
            r.ret == ret,
            r.flags == flags,
    {
        Self { name, params, ret, flags }
    }

    /// The signature of `f`, without flags.
    pub fn from_function_value(f: &FunctionValue) -> (r: Self)
        ensures
            r.name.inner == f.name,
            types_view(r.params@) == types_view(f.ty.args@),
            r.ret@ == f.ty.ret@,
            r.flags.inner@.len() == 0,
    {
        FunctionSignature {
            name: Ident { inner: f.name.clone() },
            params: crate::types::duplicate_types(&f.ty.args),
            ret: f.ty.ret.duplicate(),
            flags: Flags { inner: Vec::new() },
        }
    }
}

impl Stringify for FunctionSignature {
    fn to_string(&self) -> (r: String) {
        let mut s = self.name.inner.clone();
        s.append("(");
        let mut i: usize = 0;
        while i < self.params.len()
            invariant
                i <= self.params@.len(),
            decreases self.params@.len() - i,
        {
            if i > 0 {
                s.append(", ");
            }
            s.append(self.params[i].print_to_string().as_str());
            i = i + 1;
        }
        s.append(") ");
        s.append(self.ret.print_to_string().as_str());
        s.append(" ");
        s.append(self.flags.to_string().as_str());
        s
    }
}

/// The blocks of a function.
#[derive(Debug, PartialEq)]
pub struct FunctionBody {
    pub inner: Vec<Label>,
}

impl FunctionBody {
    pub fn new(inner: Vec<Label>) -> (r: Self)
        ensures
            r.inner == inner,
    {
        Self { inner }
    }

    pub fn push(&mut self, label: Label)
        ensures
            final(self).inner@ == old(self).inner@.push(label),
    {
        self.inner.push(label);
    }
}

impl Stringify for FunctionBody {
    fn to_string(&self) -> (r: String) {
        let mut s = String::from_str("{\n");
        let mut i: usize = 0;
        while i < self.inner.len()
            invariant
                i <= self.inner@.len(),
            decreases self.inner@.len() - i,
        {
            s.append(self.inner[i].to_string().as_str());
            s.append("\n");
            i = i + 1;
        }
        s.append("}");
        s
    }
}

/// A function of the textual form.
#[derive(Debug, PartialEq)]
pub struct Function {
    pub signature: FunctionSignature,
    pub body: FunctionBody,
}

impl Function {
    pub fn new(signature: FunctionSignature, body: FunctionBody) -> (r: Self)
        ensures
            r.signature == signature,
            r.body == body,
    {
        Self { signature, body }
    }
}

impl Stringify for Function {
    fn to_string(&self) -> (r: String) {
        let mut s = self.signature.to_string();
        s.append(" ");
        s.append(self.body.to_string().as_str());
        s
    }
}

/// A top-level item of the textual form.
#[derive(Debug, PartialEq)]
pub enum Statement {
    Module(Module),
    Target(Target),
    Global(Global),
    Function(Function),
    External(External),
    Typedef(TypeDef),
}

impl Statement {
    pub fn is_module(&self) -> (r: bool)
        ensures
            r == self is Module,
    {
        match self {
            Statement::Module(_) => true,
            _ => false,
        }
    }

    pub fn is_target(&self) -> (r: bool)
        ensures
            r == self is Target,
    {
        match self {
            Statement::Target(_) => true,
            _ => false,
        }
    }

    pub fn is_global(&self) -> (r: bool)
        ensures
            r == self is Global,
    {
        match self {
            Statement::Global(_) => true,
            _ => false,
        }
    }

    pub fn is_function(&self) -> (r: bool)
        ensures
            r == self is Function,
    {
        match self {
            Statement::Function(_) => true,
            _ => false,
        }
    }

    pub fn is_external(&self) -> (r: bool)
        ensures
            r == self is External,
    {
        match self {
            Statement::External(_) => true,
            _ => false,
        }
    }

    pub fn is_typedef(&self) -> (r: bool)
        ensures
            r == self is Typedef,
    {
        match self {
            Statement::Typedef(_) => true,
            _ => false,
        }
    }
}

impl Stringify for Statement {
    fn to_string(&self) -> (r: String) {
        match self {
            Statement::Global(global) => global.to_string(),
            Statement::Function(function) => function.to_string(),
            Statement::External(external) => external.to_string(),
            Statement::Typedef(typedef) => typedef.to_string(),
            Statement::Module(module) => module.to_string(),
            Statement::Target(target) => target.print_to_string(),
        }
    }
}

} // verus!
