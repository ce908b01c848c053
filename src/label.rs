use vstd::prelude::*;
use vstd::string::*;

use crate::meta::{flags_text, Flags};
use crate::text::{decimal, join, lemma_join_all, lemma_join_step};
use crate::stringify::Stringify;
use crate::types::{MirageTypeEnum, TypeModel};
use crate::util::List;
use crate::values::{
    IntValue, MirageObject, MirageValueEnum, ObjectModel, RegisterModel, RegisterValue, ValueModel,
};

verus! {

broadcast use vstd::std_specs::vec::axiom_vec_index_decreases;

/// The mathematical model of an operand.
pub enum OperandModel {
    ConstValue(ObjectModel),
    Register(RegisterModel),
    List(Seq<OperandModel>),
}

/// The operand that stands for a value: the register itself, or the value as a constant.
pub open spec fn operand_of(v: ValueModel) -> OperandModel {
    match v {
        ValueModel::Register(r) => OperandModel::Register(r),
        _ => OperandModel::ConstValue(ObjectModel { value: v, ty: v.type_of() }),
    }
}

/// The texts of a sequence of operands.
pub open spec fn operand_texts(vs: Seq<OperandModel>) -> Seq<Seq<char>>
    decreases vs,
{
    Seq::new(vs.len(), |i: int| if 0 <= i < vs.len() { vs[i].text() } else { Seq::empty() })
}

/// The texts of a sequence of registers.
pub open spec fn register_texts(rs: Seq<RegisterModel>) -> Seq<Seq<char>> {
    rs.map_values(|r: RegisterModel| r.text())
}

impl OperandModel {
    /// The text of an operand.
    pub open spec fn text(self) -> Seq<char>
        decreases self,
    {
        match self {
            OperandModel::ConstValue(o) => o.value.text(),
            OperandModel::Register(r) => r.text(),
            OperandModel::List(items) => "{"@ + join(operand_texts(items), ","@) + "}"@,
        }
    }
}

impl CommandModel {
    /// The text of a command.
    pub open spec fn text(self) -> Seq<char> {
        match self {
            CommandModel::Store(x0, x1) => "store "@ + x0.text() + ", "@ + x1.text(),
            CommandModel::New(x0, x1) => "new "@ + x0 + ", "@ + "{"@ + join(operand_texts(x1), ","@) + "}"@,
            CommandModel::Get(x0, x1) => "get "@ + x0.text() + ", "@ + decimal(x1 as nat),
            CommandModel::Const(x0) => x0.value.text(),
            CommandModel::Free(x0) => "free "@ + join(register_texts(x0), ", "@),
            CommandModel::Ret(x0) => "ret "@ + x0.text(),
            CommandModel::Jump(x0) => "jump "@ + x0,
            CommandModel::Jeq(x0, x1, x2) => "jeq "@ + x0 + ", "@ + x1.text() + ", "@ + x2.text(),
            CommandModel::IncrInt8(x0) => "incr_i8 "@ + x0.text(),
            CommandModel::IncrInt16(x0) => "incr_i16 "@ + x0.text(),
            CommandModel::IncrInt32(x0) => "incr_i32 "@ + x0.text(),
            CommandModel::IncrInt64(x0) => "incr_i64 "@ + x0.text(),
            CommandModel::IncrFloat32(x0) => "incr_f32 "@ + x0.text(),
            CommandModel::IncrFloat64(x0) => "incr_f64 "@ + x0.text(),
            CommandModel::AddInt8(x0, x1) => "add_i8 "@ + x0.text() + ", "@ + x1.text(),
            CommandModel::AddInt16(x0, x1) => "add_i16 "@ + x0.text() + ", "@ + x1.text(),
            CommandModel::AddInt32(x0, x1) => "add_i32 "@ + x0.text() + ", "@ + x1.text(),
            CommandModel::AddInt64(x0, x1) => "add_i64 "@ + x0.text() + ", "@ + x1.text(),
            CommandModel::AddFloat32(x0, x1) => "add_f32 "@ + x0.text() + ", "@ + x1.text(),
            CommandModel::AddFloat64(x0, x1) => "add_f64 "@ + x0.text() + ", "@ + x1.text(),
            CommandModel::SubInt8(x0, x1) => "sub_i8 "@ + x0.text() + ", "@ + x1.text(),
            CommandModel::SubInt16(x0, x1) => "sub_i16 "@ + x0.text() + ", "@ + x1.text(),
            CommandModel::SubInt32(x0, x1) => "sub_i32 "@ + x0.text() + ", "@ + x1.text(),
            CommandModel::SubInt64(x0, x1) => "sub_i64 "@ + x0.text() + ", "@ + x1.text(),
            CommandModel::SubFloat32(x0, x1) => "sub_f32 "@ + x0.text() + ", "@ + x1.text(),
            CommandModel::SubFloat64(x0, x1) => "sub_f64 "@ + x0.text() + ", "@ + x1.text(),
            CommandModel::Ref(x0) => "ref "@ + x0.text(),
            CommandModel::Load(x0, x1) => "load "@ + x0.text() + ", "@ + x1.text(),
            CommandModel::GetElementPtr(x0, x1, x2) => "getelementptr "@ + x0.text() + ", "@ + x1.text() + ", "@ + join(operand_texts(x2), ", "@),
            CommandModel::Copy(x0) => "copy "@ + x0,
        }
    }
}

impl InstrModel {
    /// The text of an instruction.
    pub open spec fn text(self) -> Seq<char>
        decreases self,
    {
        match self {
            InstrModel::Assign(r, i) => r.text() + " = "@ + i.text(),
            InstrModel::Call(n, args) => n + " { "@ + join(operand_texts(args), ", "@) + " }"@,
            InstrModel::Command(c) => c.text(),
        }
    }
}

/// The lines of a block's instructions, each after a tab.
pub open spec fn instr_lines(is: Seq<InstrModel>) -> Seq<Seq<char>> {
    is.map_values(|i: InstrModel| "\t"@ + i.text())
}

impl LabelModel {
    /// The text of a block: its name and flags, then one line per instruction.
    pub open spec fn text(self) -> Seq<char> {
        self.name + flags_text(self.flags) + ": \n"@ + join(instr_lines(self.body), "\n"@)
    }
}

/// An operand of an instruction.
#[derive(Debug, PartialEq)]
pub enum Value {
    ConstValue(MirageObject),
    Register(RegisterValue),
    List(List<Value>),
}

impl View for Value {
    type V = OperandModel;

    open spec fn view(&self) -> OperandModel {
        self.model()
    }
}

/// The models of a sequence of operands.
pub open spec fn operands_view(vs: Seq<Value>) -> Seq<OperandModel> {
    Seq::new(vs.len(), |i: int| if 0 <= i < vs.len() { vs[i]@ } else { OperandModel::List(Seq::empty()) })
}

/// The models of a sequence of registers.
pub open spec fn registers_view(rs: Seq<RegisterValue>) -> Seq<RegisterModel> {
    rs.map_values(|r: RegisterValue| r@)
}

pub proof fn lemma_operands_view(vs: Seq<Value>)
    ensures
        operands_view(vs).len() == vs.len(),
        forall|i: int| 0 <= i < vs.len() ==> #[trigger] operands_view(vs)[i] == vs[i]@,
{
}

pub proof fn lemma_list_view(v: Value)
    requires
        v is List,
    ensures
        v@ == OperandModel::List(operands_view(v->List_0.inner@)),
{
    if let OperandModel::List(x) = v@ {
        assert(x =~= operands_view(v->List_0.inner@));
    }
}

impl Value {
    /// The model of this operand.
    pub open spec fn model(&self) -> OperandModel
        decreases self,
    {
        match self {
            Value::ConstValue(o) => OperandModel::ConstValue(o@),
            Value::Register(r) => OperandModel::Register(r@),
            Value::List(l) => OperandModel::List(
                Seq::new(l.inner@.len(), |i: int| if 0 <= i < l.inner@.len() { l.inner@[i].model() } else { OperandModel::List(Seq::empty()) }),
            ),
        }
    }

    /// The operand that stands for `v`.
    pub fn from_value(v: MirageValueEnum) -> (r: Value)
        ensures
            r@ == operand_of(v@),
    {
        match v {
            MirageValueEnum::Register(r) => Value::Register(r),
            e => Value::ConstValue(MirageObject::from(e)),
        }
    }

    /// The value an operand carries; `None` for a list.
    pub fn into_value(self) -> (r: Option<MirageValueEnum>)
        ensures
            r is Some <==> !(self@ is List),
            self@ is ConstValue ==> r->0@ == self@->ConstValue_0.value,
            self@ is Register ==> r->0@ == ValueModel::Register(self@->Register_0),
    {
        match self {
            Value::ConstValue(o) => Some(o.value),
            Value::Register(r) => Some(MirageValueEnum::Register(r)),
            Value::List(_) => None,
        }
    }

    /// The type of a constant or register operand.
    pub fn get_type(&self) -> (r: MirageTypeEnum)
        requires
            !(self@ is List),
        ensures
            self@ is ConstValue ==> r@ == self@->ConstValue_0.ty,
            self@ is Register ==> r@ == self@->Register_0.ty,
    {
        match self {
            Value::ConstValue(val) => val.get_type(),
            Value::Register(mem) => mem.get_type(),
            Value::List(_) => MirageTypeEnum::Int8(crate::types::Int8Type {}),
        }
    }

    /// A copy of this operand.
    pub fn duplicate(&self) -> (r: Value)
        ensures
            r@ == self@,
        decreases self,
    {
        match self {
            Value::ConstValue(o) => Value::ConstValue(o.duplicate()),
            Value::Register(r) => Value::Register(r.duplicate()),
            Value::List(l) => {
                let mut items: Vec<Value> = Vec::new();
                let mut i: usize = 0;
                while i < l.inner.len()
                    invariant
                        i <= l.inner@.len(),
                        *self == Value::List(*l),
                        items@.len() == i,
                        forall|j: int| 0 <= j < i ==> #[trigger] items@[j]@ == l.inner@[j]@,
                    decreases l.inner@.len() - i,
                {
                    proof {
                        assert(decreases_to!(*self => self->List_0));
                        assert(decreases_to!(self->List_0 => self->List_0.inner));
                        assert(decreases_to!(l.inner => l.inner[i as int]));
                    }
                    items.push(l.inner[i].duplicate());
                    i = i + 1;
                }
                assert(operands_view(items@) =~= operands_view(l.inner@));
                let r = Value::List(List { inner: items });
                proof {
                    lemma_list_view(r);
                    lemma_list_view(*self);
                }
                r
            },
        }
    }
}

impl Clone for Value {
    fn clone(&self) -> (r: Self)
        ensures
            r@ == self@,
    {
        self.duplicate()
    }
}

/// Copies a sequence of operands.
pub fn duplicate_operands(vs: &Vec<Value>) -> (r: Vec<Value>)
    ensures
        operands_view(r@) == operands_view(vs@),
{
    let mut r: Vec<Value> = Vec::new();
    let mut i: usize = 0;
    while i < vs.len()
        invariant
            i <= vs@.len(),
            r@.len() == i,
            forall|j: int| 0 <= j < i ==> #[trigger] r@[j]@ == vs@[j]@,
        decreases vs@.len() - i,
    {
        r.push(vs[i].duplicate());
        i = i + 1;
    }
    assert(operands_view(r@) =~= operands_view(vs@));
    r
}

/// Copies a sequence of registers.
pub fn duplicate_registers(rs: &Vec<RegisterValue>) -> (r: Vec<RegisterValue>)
    ensures
        registers_view(r@) == registers_view(rs@),
{
    let mut r: Vec<RegisterValue> = Vec::new();
    let mut i: usize = 0;
    while i < rs.len()
        invariant
            i <= rs@.len(),
            r@.len() == i,
            forall|j: int| 0 <= j < i ==> #[trigger] r@[j]@ == rs@[j]@,
        decreases rs@.len() - i,
    {
        r.push(rs[i].duplicate());
        i = i + 1;
    }
    assert(registers_view(r@) =~= registers_view(rs@));
    r
}

fn render_operands(vs: &Vec<Value>) -> (r: String)
    ensures
        r@ == join(operand_texts(operands_view(vs@)), ", "@),
{
    let ghost texts = operand_texts(operands_view(vs@));
    proof {
        lemma_operands_view(vs@);
    }
    let mut s = String::new();
    let mut i: usize = 0;
    while i < vs.len()
        invariant
            i <= vs@.len(),
            texts == operand_texts(operands_view(vs@)),
            operands_view(vs@).len() == vs@.len(),
            forall|j: int| 0 <= j < vs@.len() ==> #[trigger] operands_view(vs@)[j] == vs@[j]@,
            s@ == join(texts.take(i as int), ", "@),
        decreases vs@.len() - i,
    {
        proof {
            lemma_join_step(texts, ", "@, i as int);
        }
        if i > 0 {
            s.append(", ");
        }
        s.append(vs[i].print_to_string().as_str());
        proof {
            assert(s@ =~= join(texts.take(i + 1), ", "@));
        }
        i = i + 1;
    }
    proof {
        lemma_join_all(texts, ", "@);
    }
    s
}

fn render_list(vs: &Vec<Value>) -> (r: String)
    ensures
        r@ == "{"@ + join(operand_texts(operands_view(vs@)), ","@) + "}"@,
{
    let ghost texts = operand_texts(operands_view(vs@));
    proof {
        lemma_operands_view(vs@);
    }
    let mut s = String::from_str("{");
    let mut i: usize = 0;
    while i < vs.len()
        invariant
            i <= vs@.len(),
            texts == operand_texts(operands_view(vs@)),
            operands_view(vs@).len() == vs@.len(),
            forall|j: int| 0 <= j < vs@.len() ==> #[trigger] operands_view(vs@)[j] == vs@[j]@,
            s@ == "{"@ + join(texts.take(i as int), ","@),
        decreases vs@.len() - i,
    {
        proof {
            lemma_join_step(texts, ","@, i as int);
        }
        if i > 0 {
            s.append(",");
        }
        s.append(vs[i].print_to_string().as_str());
        proof {
            assert(s@ =~= "{"@ + join(texts.take(i + 1), ","@));
        }
        i = i + 1;
    }
    proof {
        lemma_join_all(texts, ","@);
    }
    s.append("}");
    s
}

fn render_registers(rs: &Vec<RegisterValue>) -> (r: String)
    ensures
        r@ == join(register_texts(registers_view(rs@)), ", "@),
{
    let ghost texts = register_texts(registers_view(rs@));
    let mut s = String::new();
    let mut i: usize = 0;
    while i < rs.len()
        invariant
            i <= rs@.len(),
            texts == register_texts(registers_view(rs@)),
            s@ == join(texts.take(i as int), ", "@),
        decreases rs@.len() - i,
    {
        proof {
            lemma_join_step(texts, ", "@, i as int);
        }
        if i > 0 {
            s.append(", ");
        }
        s.append(rs[i].print_to_string().as_str());
        proof {
            assert(s@ =~= join(texts.take(i + 1), ", "@));
        }
        i = i + 1;
    }
    proof {
        lemma_join_all(texts, ", "@);
    }
    s
}

impl Value {
    pub fn print_to_string(&self) -> (r: String)
        ensures
            r@ == self@.text(),
        decreases self,
    {
        match self {
            Value::ConstValue(val) => val.value.print_to_string(),
            Value::Register(mem) => mem.print_to_string(),
            Value::List(l) => {
                let ghost texts = operand_texts(operands_view(l.inner@));
                proof {
                    lemma_list_view(*self);
                    lemma_operands_view(l.inner@);
                }
                let mut s = String::from_str("{");
                let mut i: usize = 0;
                while i < l.inner.len()
                    invariant
                        i <= l.inner@.len(),
                        *self == Value::List(*l),
                        texts == operand_texts(operands_view(l.inner@)),
                        operands_view(l.inner@).len() == l.inner@.len(),
                        forall|j: int| 0 <= j < l.inner@.len() ==> #[trigger] operands_view(l.inner@)[j] == l.inner@[j]@,
                        s@ == "{"@ + join(texts.take(i as int), ","@),
                    decreases l.inner@.len() - i,
                {
                    proof {
                        assert(decreases_to!(*self => self->List_0));
                        assert(decreases_to!(self->List_0 => self->List_0.inner));
                        assert(decreases_to!(l.inner => l.inner[i as int]));
                        lemma_join_step(texts, ","@, i as int);
                    }
                    if i > 0 {
                        s.append(",");
                    }
                    s.append(l.inner[i].print_to_string().as_str());
                    proof {
                        assert(s@ =~= "{"@ + join(texts.take(i + 1), ","@));
                    }
                    i = i + 1;
                }
                proof {
                    lemma_join_all(texts, ","@);
                }
                s.append("}");
                s
            },
        }
    }
}

impl Stringify for Value {
    fn to_string(&self) -> (r: String) {
        self.print_to_string()
    }
}

/// The mathematical model of a command.
pub enum CommandModel {
    Store(RegisterModel, OperandModel),
    New(Seq<char>, Seq<OperandModel>),
    Get(RegisterModel, usize),
    Const(ObjectModel),
    Free(Seq<RegisterModel>),
    Ret(OperandModel),
    Jump(Seq<char>),
    Jeq(Seq<char>, OperandModel, OperandModel),
    IncrInt8(RegisterModel),
    IncrInt16(RegisterModel),
    IncrInt32(RegisterModel),
    IncrInt64(RegisterModel),
    IncrFloat32(RegisterModel),
    IncrFloat64(RegisterModel),
    AddInt8(OperandModel, OperandModel),
    AddInt16(OperandModel, OperandModel),
    AddInt32(OperandModel, OperandModel),
    AddInt64(OperandModel, OperandModel),
    AddFloat32(OperandModel, OperandModel),
    AddFloat64(OperandModel, OperandModel),
    SubInt8(OperandModel, OperandModel),
    SubInt16(OperandModel, OperandModel),
    SubInt32(OperandModel, OperandModel),
    SubInt64(OperandModel, OperandModel),
    SubFloat32(OperandModel, OperandModel),
    SubFloat64(OperandModel, OperandModel),
    Ref(OperandModel),
    Load(TypeModel, OperandModel),
    GetElementPtr(TypeModel, OperandModel, Seq<OperandModel>),
    Copy(Seq<char>),
}

/// A leaf operation of the IR.
#[derive(Debug, PartialEq)]
pub enum Command {
    Store(RegisterValue, Value),
    New(String, List<Value>),
    Get(RegisterValue, usize),
    Const(MirageObject),
    Free(Vec<RegisterValue>),
    Ret(Value),
    Jump(String),
    Jeq(String, Value, Value),
    IncrInt8(RegisterValue),
    IncrInt16(RegisterValue),
    IncrInt32(RegisterValue),
    IncrInt64(RegisterValue),
    IncrFloat32(RegisterValue),
    IncrFloat64(RegisterValue),
    AddInt8(Value, Value),
    AddInt16(Value, Value),
    AddInt32(Value, Value),
    AddInt64(Value, Value),
    AddFloat32(Value, Value),
    AddFloat64(Value, Value),
    SubInt8(Value, Value),
    SubInt16(Value, Value),
    SubInt32(Value, Value),
    SubInt64(Value, Value),
    SubFloat32(Value, Value),
    SubFloat64(Value, Value),
    Ref(Value),
    Load(MirageTypeEnum, Value),
    GetElementPtr(MirageTypeEnum, Value, Vec<Value>),
    Copy(String),
}

impl View for Command {
    type V = CommandModel;

    open spec fn view(&self) -> CommandModel {
        match self {
            Command::Store(x0, x1) => CommandModel::Store(x0@, x1.model()),
            Command::New(x0, x1) => CommandModel::New(x0@, operands_view(x1.inner@)),
            Command::Get(x0, x1) => CommandModel::Get(x0@, *x1),
            Command::Const(x0) => CommandModel::Const(x0@),
            Command::Free(x0) => CommandModel::Free(registers_view(x0@)),
            Command::Ret(x0) => CommandModel::Ret(x0.model()),
            Command::Jump(x0) => CommandModel::Jump(x0@),
            Command::Jeq(x0, x1, x2) => CommandModel::Jeq(x0@, x1.model(), x2.model()),
            Command::IncrInt8(x0) => CommandModel::IncrInt8(x0@),
            Command::IncrInt16(x0) => CommandModel::IncrInt16(x0@),
            Command::IncrInt32(x0) => CommandModel::IncrInt32(x0@),
            Command::IncrInt64(x0) => CommandModel::IncrInt64(x0@),
            Command::IncrFloat32(x0) => CommandModel::IncrFloat32(x0@),
            Command::IncrFloat64(x0) => CommandModel::IncrFloat64(x0@),
            Command::AddInt8(x0, x1) => CommandModel::AddInt8(x0.model(), x1.model()),
            Command::AddInt16(x0, x1) => CommandModel::AddInt16(x0.model(), x1.model()),
            Command::AddInt32(x0, x1) => CommandModel::AddInt32(x0.model(), x1.model()),
            Command::AddInt64(x0, x1) => CommandModel::AddInt64(x0.model(), x1.model()),
            Command::AddFloat32(x0, x1) => CommandModel::AddFloat32(x0.model(), x1.model()),
            Command::AddFloat64(x0, x1) => CommandModel::AddFloat64(x0.model(), x1.model()),
            Command::SubInt8(x0, x1) => CommandModel::SubInt8(x0.model(), x1.model()),
            Command::SubInt16(x0, x1) => CommandModel::SubInt16(x0.model(), x1.model()),
            Command::SubInt32(x0, x1) => CommandModel::SubInt32(x0.model(), x1.model()),
            Command::SubInt64(x0, x1) => CommandModel::SubInt64(x0.model(), x1.model()),
            Command::SubFloat32(x0, x1) => CommandModel::SubFloat32(x0.model(), x1.model()),
            Command::SubFloat64(x0, x1) => CommandModel::SubFloat64(x0.model(), x1.model()),
            Command::Ref(x0) => CommandModel::Ref(x0.model()),
            Command::Load(x0, x1) => CommandModel::Load(x0@, x1.model()),
            Command::GetElementPtr(x0, x1, x2) => CommandModel::GetElementPtr(x0@, x1.model(), operands_view(x2@)),
            Command::Copy(x0) => CommandModel::Copy(x0@),
        }
    }
}

impl Command {
    /// A copy of this command.
    pub fn duplicate(&self) -> (r: Command)
        ensures
            r@ == self@,
    {
        match self {
            Command::Store(x0, x1) => Command::Store(x0.duplicate(), x1.duplicate()),
            Command::New(x0, x1) => Command::New(x0.clone(), List { inner: duplicate_operands(&x1.inner) }),
            Command::Get(x0, x1) => Command::Get(x0.duplicate(), *x1),
            Command::Const(x0) => Command::Const(x0.duplicate()),
            Command::Free(x0) => Command::Free(duplicate_registers(x0)),
            Command::Ret(x0) => Command::Ret(x0.duplicate()),
            Command::Jump(x0) => Command::Jump(x0.clone()),
            Command::Jeq(x0, x1, x2) => Command::Jeq(x0.clone(), x1.duplicate(), x2.duplicate()),
            Command::IncrInt8(x0) => Command::IncrInt8(x0.duplicate()),
            Command::IncrInt16(x0) => Command::IncrInt16(x0.duplicate()),
            Command::IncrInt32(x0) => Command::IncrInt32(x0.duplicate()),
            Command::IncrInt64(x0) => Command::IncrInt64(x0.duplicate()),
            Command::IncrFloat32(x0) => Command::IncrFloat32(x0.duplicate()),
            Command::IncrFloat64(x0) => Command::IncrFloat64(x0.duplicate()),
            Command::AddInt8(x0, x1) => Command::AddInt8(x0.duplicate(), x1.duplicate()),
            Command::AddInt16(x0, x1) => Command::AddInt16(x0.duplicate(), x1.duplicate()),
            Command::AddInt32(x0, x1) => Command::AddInt32(x0.duplicate(), x1.duplicate()),
            Command::AddInt64(x0, x1) => Command::AddInt64(x0.duplicate(), x1.duplicate()),
            Command::AddFloat32(x0, x1) => Command::AddFloat32(x0.duplicate(), x1.duplicate()),
            Command::AddFloat64(x0, x1) => Command::AddFloat64(x0.duplicate(), x1.duplicate()),
            Command::SubInt8(x0, x1) => Command::SubInt8(x0.duplicate(), x1.duplicate()),
            Command::SubInt16(x0, x1) => Command::SubInt16(x0.duplicate(), x1.duplicate()),
            Command::SubInt32(x0, x1) => Command::SubInt32(x0.duplicate(), x1.duplicate()),
            Command::SubInt64(x0, x1) => Command::SubInt64(x0.duplicate(), x1.duplicate()),
            Command::SubFloat32(x0, x1) => Command::SubFloat32(x0.duplicate(), x1.duplicate()),
            Command::SubFloat64(x0, x1) => Command::SubFloat64(x0.duplicate(), x1.duplicate()),
            Command::Ref(x0) => Command::Ref(x0.duplicate()),
            Command::Load(x0, x1) => Command::Load(x0.duplicate(), x1.duplicate()),
            Command::GetElementPtr(x0, x1, x2) => Command::GetElementPtr(x0.duplicate(), x1.duplicate(), duplicate_operands(x2)),
            Command::Copy(x0) => Command::Copy(x0.clone()),
        }
    }
}

impl Clone for Command {
    fn clone(&self) -> (r: Self)
        ensures
            r@ == self@,
    {
        self.duplicate()
    }
}

impl Command {
    pub fn print_to_string(&self) -> (r: String)
        ensures
            r@ == self@.text(),
    {
        match self {
            Command::Store(x0, x1) => {
                let mut s = String::from_str("store ");
                s.append(x0.print_to_string().as_str());
                s.append(", ");
                s.append(x1.print_to_string().as_str());
                s
            },
            Command::New(x0, x1) => {
                let mut s = String::from_str("new ");
                s.append(x0.clone().as_str());
                s.append(", ");
                s.append(render_list(&x1.inner).as_str());
                s
            },
            Command::Get(x0, x1) => {
                let mut s = String::from_str("get ");
                s.append(x0.print_to_string().as_str());
                s.append(", ");
                s.append(crate::text::usize_text(*x1).as_str());
                s
            },
            Command::Const(x0) => x0.value.print_to_string(),
            Command::Free(x0) => {
                let mut s = String::from_str("free ");
                s.append(render_registers(x0).as_str());
                s
            },
            Command::Ret(x0) => {
                let mut s = String::from_str("ret ");
                s.append(x0.print_to_string().as_str());
                s
            },
            Command::Jump(x0) => {
                let mut s = String::from_str("jump ");
                s.append(x0.clone().as_str());
                s
            },
            Command::Jeq(x0, x1, x2) => {
                let mut s = String::from_str("jeq ");
                s.append(x0.clone().as_str());
                s.append(", ");
                s.append(x1.print_to_string().as_str());
                s.append(", ");
                s.append(x2.print_to_string().as_str());
                s
            },
            Command::IncrInt8(x0) => {
                let mut s = String::from_str("incr_i8 ");
                s.append(x0.print_to_string().as_str());
                s
            },
            Command::IncrInt16(x0) => {
                let mut s = String::from_str("incr_i16 ");
                s.append(x0.print_to_string().as_str());
                s
            },
            Command::IncrInt32(x0) => {
                let mut s = String::from_str("incr_i32 ");
                s.append(x0.print_to_string().as_str());
                s
            },
            Command::IncrInt64(x0) => {
                let mut s = String::from_str("incr_i64 ");
                s.append(x0.print_to_string().as_str());
                s
            },
            Command::IncrFloat32(x0) => {
                let mut s = String::from_str("incr_f32 ");
                s.append(x0.print_to_string().as_str());
                s
            },
            Command::IncrFloat64(x0) => {
                let mut s = String::from_str("incr_f64 ");
                s.append(x0.print_to_string().as_str());
                s
            },
            Command::AddInt8(x0, x1) => {
                let mut s = String::from_str("add_i8 ");
                s.append(x0.print_to_string().as_str());
                s.append(", ");
                s.append(x1.print_to_string().as_str());
                s
            },
            Command::AddInt16(x0, x1) => {
                let mut s = String::from_str("add_i16 ");
                s.append(x0.print_to_string().as_str());
                s.append(", ");
                s.append(x1.print_to_string().as_str());
                s
            },
            Command::AddInt32(x0, x1) => {
                let mut s = String::from_str("add_i32 ");
                s.append(x0.print_to_string().as_str());
                s.append(", ");
                s.append(x1.print_to_string().as_str());
                s
            },
            Command::AddInt64(x0, x1) => {
                let mut s = String::from_str("add_i64 ");
                s.append(x0.print_to_string().as_str());
                s.append(", ");
                s.append(x1.print_to_string().as_str());
                s
            },
            Command::AddFloat32(x0, x1) => {
                let mut s = String::from_str("add_f32 ");
                s.append(x0.print_to_string().as_str());
                s.append(", ");
                s.append(x1.print_to_string().as_str());
                s
            },
            Command::AddFloat64(x0, x1) => {
                let mut s = String::from_str("add_f64 ");
                s.append(x0.print_to_string().as_str());
                s.append(", ");
                s.append(x1.print_to_string().as_str());
                s
            },
            Command::SubInt8(x0, x1) => {
                let mut s = String::from_str("sub_i8 ");
                s.append(x0.print_to_string().as_str());
                s.append(", ");
                s.append(x1.print_to_string().as_str());
                s
            },
            Command::SubInt16(x0, x1) => {
                let mut s = String::from_str("sub_i16 ");
                s.append(x0.print_to_string().as_str());
                s.append(", ");
                s.append(x1.print_to_string().as_str());
                s
            },
            Command::SubInt32(x0, x1) => {
                let mut s = String::from_str("sub_i32 ");
                s.append(x0.print_to_string().as_str());
                s.append(", ");
                s.append(x1.print_to_string().as_str());
                s
            },
            Command::SubInt64(x0, x1) => {
                let mut s = String::from_str("sub_i64 ");
                s.append(x0.print_to_string().as_str());
                s.append(", ");
                s.append(x1.print_to_string().as_str());
                s
            },
            Command::SubFloat32(x0, x1) => {
                let mut s = String::from_str("sub_f32 ");
                s.append(x0.print_to_string().as_str());
                s.append(", ");
                s.append(x1.print_to_string().as_str());
                s
            },
            Command::SubFloat64(x0, x1) => {
                let mut s = String::from_str("sub_f64 ");
                s.append(x0.print_to_string().as_str());
                s.append(", ");
                s.append(x1.print_to_string().as_str());
                s
            },
            Command::Ref(x0) => {
                let mut s = String::from_str("ref ");
                s.append(x0.print_to_string().as_str());
                s
            },
            Command::Load(x0, x1) => {
                let mut s = String::from_str("load ");
                s.append(x0.print_to_string().as_str());
                s.append(", ");
                s.append(x1.print_to_string().as_str());
                s
            },
            Command::GetElementPtr(x0, x1, x2) => {
                let mut s = String::from_str("getelementptr ");
                s.append(x0.print_to_string().as_str());
                s.append(", ");
                s.append(x1.print_to_string().as_str());
                s.append(", ");
                s.append(render_operands(x2).as_str());
                s
            },
            Command::Copy(x0) => {
                let mut s = String::from_str("copy ");
                s.append(x0.clone().as_str());
                s
            },
        }
    }
}

impl Stringify for Command {
    fn to_string(&self) -> (r: String) {
        self.print_to_string()
    }
}

/// The mathematical model of an instruction.
pub enum InstrModel {
    Assign(RegisterModel, Box<InstrModel>),
    Call(Seq<char>, Seq<OperandModel>),
    Command(CommandModel),
}

/// An instruction of a basic block; an assignment binds the result of a nested instruction.
#[derive(Debug, PartialEq)]
pub enum LabelBodyInstr {
    Assign(RegisterValue, Box<LabelBodyInstr>),
    Call(String, Vec<Value>),
    Command(Command),
}

impl View for LabelBodyInstr {
    type V = InstrModel;

    open spec fn view(&self) -> InstrModel {
        self.model()
    }
}

impl LabelBodyInstr {
    /// The model of this instruction.
    pub open spec fn model(&self) -> InstrModel
        decreases self,
    {
        match self {
            LabelBodyInstr::Assign(r, i) => InstrModel::Assign(r@, Box::new((**i).model())),
            LabelBodyInstr::Call(n, args) => InstrModel::Call(n@, operands_view(args@)),
            LabelBodyInstr::Command(c) => InstrModel::Command(c@),
        }
    }

    /// A copy of this instruction.
    pub fn duplicate(&self) -> (r: LabelBodyInstr)
        ensures
            r@ == self@,
        decreases self,
    {
        match self {
            LabelBodyInstr::Assign(r, i) => LabelBodyInstr::Assign(r.duplicate(), Box::new((**i).duplicate())),
            LabelBodyInstr::Call(n, args) => LabelBodyInstr::Call(n.clone(), duplicate_operands(args)),
            LabelBodyInstr::Command(c) => LabelBodyInstr::Command(c.duplicate()),
        }
    }
}

impl Clone for LabelBodyInstr {
    fn clone(&self) -> (r: Self)
        ensures
            r@ == self@,
    {
        self.duplicate()
    }
}

impl LabelBodyInstr {
    pub fn print_to_string(&self) -> (r: String)
        ensures
            r@ == self@.text(),
        decreases self,
    {
        match self {
            LabelBodyInstr::Assign(mem, instr) => {
                let mut s = mem.print_to_string();
                s.append(" = ");
                s.append((**instr).print_to_string().as_str());
                s
            },
            LabelBodyInstr::Call(name, args) => {
                let mut s = name.clone();
                s.append(" { ");
                s.append(render_operands(args).as_str());
                s.append(" }");
                s
            },
            LabelBodyInstr::Command(command) => command.print_to_string(),
        }
    }
}

impl Stringify for LabelBodyInstr {
    fn to_string(&self) -> (r: String) {
        self.print_to_string()
    }
}

/// The models of a sequence of instructions.
pub open spec fn instrs_view(is: Seq<LabelBodyInstr>) -> Seq<InstrModel> {
    is.map_values(|i: LabelBodyInstr| i@)
}

/// Copies a sequence of instructions.
pub fn duplicate_instrs(is: &Vec<LabelBodyInstr>) -> (r: Vec<LabelBodyInstr>)
    ensures
        instrs_view(r@) == instrs_view(is@),
{
    let mut r: Vec<LabelBodyInstr> = Vec::new();
    let mut i: usize = 0;
    while i < is.len()
        invariant
            i <= is@.len(),
            r@.len() == i,
            forall|j: int| 0 <= j < i ==> #[trigger] r@[j]@ == is@[j]@,
        decreases is@.len() - i,
    {
        r.push(is[i].duplicate());
        i = i + 1;
    }
    assert(instrs_view(r@) =~= instrs_view(is@));
    r
}

/// The mathematical model of a basic block.
pub struct LabelModel {
    pub name: Seq<char>,
    pub flags: Seq<Seq<char>>,
    pub body: Seq<InstrModel>,
}

/// A basic block: a name, flags, and its instructions in order.
#[derive(Debug, PartialEq)]
pub struct Label {
    pub name: String,
    pub flags: Flags,
    pub body: Vec<LabelBodyInstr>,
}

impl View for Label {
    type V = LabelModel;

    open spec fn view(&self) -> LabelModel {
        LabelModel { name: self.name@, flags: self.flags@, body: instrs_view(self.body@) }
    }
}

impl Label {
    pub fn new(name: String, flags: Flags, body: Vec<LabelBodyInstr>) -> (r: Self)
        ensures
            r.name == name,
            r.flags == flags,
            r.body == body,
    {
        Self { name, flags, body }
    }

    /// A copy of this block.
    pub fn duplicate(&self) -> (r: Label)
        ensures
            r@ == self@,
    {
        Label { name: self.name.clone(), flags: self.flags.duplicate(), body: duplicate_instrs(&self.body) }
    }
}

impl Clone for Label {
    fn clone(&self) -> (r: Self)
        ensures
            r@ == self@,
    {
        self.duplicate()
    }
}

impl Label {
    pub fn print_to_string(&self) -> (r: String)
        ensures
            r@ == self@.text(),
    {
        let ghost lines = instr_lines(instrs_view(self.body@));
        let mut s = self.name.clone();
        s.append(self.flags.print_to_string().as_str());
        s.append(": \n");
        let ghost head = s@;
        let mut i: usize = 0;
        while i < self.body.len()
            invariant
                i <= self.body@.len(),
                lines == instr_lines(instrs_view(self.body@)),
                s@ == head + join(lines.take(i as int), "\n"@),
            decreases self.body@.len() - i,
        {
            proof {
                lemma_join_step(lines, "\n"@, i as int);
            }
            if i > 0 {
                s.append("\n");
            }
            let mut line = String::from_str("\t");
            line.append(self.body[i].print_to_string().as_str());
            s.append(line.as_str());
            proof {
                assert(s@ =~= head + join(lines.take(i + 1), "\n"@));
            }
            i = i + 1;
        }
        proof {
            lemma_join_all(lines, "\n"@);
        }
        s
    }
}

impl Stringify for Label {
    fn to_string(&self) -> (r: String) {
        self.print_to_string()
    }
}

/// The width-specific addition of two integer operands of one width.
pub fn add(lhs: IntValue, rhs: IntValue) -> (r: Command)
    requires
        lhs.well_sized(),
        lhs.bits() == rhs.bits(),
        lhs.bits() == 8 || lhs.bits() == 16 || lhs.bits() == 32 || lhs.bits() == 64,
    ensures
        lhs.bits() == 8 ==> r@ == CommandModel::AddInt8(operand_of(lhs@), operand_of(rhs@)),
        lhs.bits() == 16 ==> r@ == CommandModel::AddInt16(operand_of(lhs@), operand_of(rhs@)),
        lhs.bits() == 32 ==> r@ == CommandModel::AddInt32(operand_of(lhs@), operand_of(rhs@)),
        lhs.bits() == 64 ==> r@ == CommandModel::AddInt64(operand_of(lhs@), operand_of(rhs@)),
{
    let bits = lhs.get_max_bits();
    let l = Value::from_value(lhs.into_mirage_value());
    let r = Value::from_value(rhs.into_mirage_value());
    if bits == 8 {
        Command::AddInt8(l, r)
    } else if bits == 16 {
        Command::AddInt16(l, r)
    } else if bits == 32 {
        Command::AddInt32(l, r)
    } else {
        Command::AddInt64(l, r)
    }
}

/// The increment of a register, chosen by the width and kind of its type.
pub fn incr(val: RegisterValue) -> (r: Command)
    requires
        val.ty@.fits(),
        val.ty@.is_float() || 8 * val.ty@.byte_size() == 8 || 8 * val.ty@.byte_size() == 16
            || 8 * val.ty@.byte_size() == 32 || 8 * val.ty@.byte_size() == 64,
    ensures
        val.ty@ == TypeModel::Float32 ==> r@ == CommandModel::IncrFloat32(val@),
        val.ty@ == TypeModel::Float64 ==> r@ == CommandModel::IncrFloat64(val@),
        !val.ty@.is_float() && 8 * val.ty@.byte_size() == 8 ==> r@ == CommandModel::IncrInt8(val@),
        !val.ty@.is_float() && 8 * val.ty@.byte_size() == 16 ==> r@ == CommandModel::IncrInt16(val@),
        !val.ty@.is_float() && 8 * val.ty@.byte_size() == 32 ==> r@ == CommandModel::IncrInt32(val@),
        !val.ty@.is_float() && 8 * val.ty@.byte_size() == 64 ==> r@ == CommandModel::IncrInt64(val@),
{
    let is_float = val.ty.is_float();
    let bits = val.ty.get_max_bits();
    if is_float {
        if bits == 32 {
            Command::IncrFloat32(val)
        } else {
            Command::IncrFloat64(val)
        }
    } else if bits == 8 {
        Command::IncrInt8(val)
    } else if bits == 16 {
        Command::IncrInt16(val)
    } else if bits == 32 {
        Command::IncrInt32(val)
    } else {
        Command::IncrInt64(val)
    }
}

pub fn jump(name: &str) -> (r: Command)
    ensures
        r@ == CommandModel::Jump(name@),
{
    Command::Jump(String::from_str(name))
}

/// A conditional jump to `name` when two values of one type are equal.
pub fn jeq(name: &str, lhs: MirageValueEnum, rhs: MirageValueEnum) -> (r: Command)
    requires
        lhs@.type_of() == rhs@.type_of(),
    ensures
        r@ == CommandModel::Jeq(name@, operand_of(lhs@), operand_of(rhs@)),
{
    Command::Jeq(String::from_str(name), Value::from_value(lhs), Value::from_value(rhs))
}

} // verus!
