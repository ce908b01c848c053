use vstd::prelude::*;
use vstd::string::*;

use crate::function::{labels_view, FunctionModel, FunctionValue};
use crate::label::{
    instrs_view, operands_view, Command, CommandModel, InstrModel, Label, LabelBodyInstr,
    LabelModel, OperandModel, Value,
};
use crate::meta::Flag;
use crate::statements::{statements_view, Statement, StatementModel};
use crate::util::List;
use crate::types::TypeModel;
use crate::values::{
    Int16Value, Int32Value, Int64Value, Int8Value, MirageObject, MirageValueEnum, ObjectModel,
    RegisterModel, RegisterType, ValueModel,
};

verus! {

broadcast use vstd::std_specs::vec::axiom_vec_index_decreases;

/// An optimization level.
#[derive(Debug, Clone, Copy, PartialEq, Eq, Structural)]
pub enum OptiLevel {
    /// No optimizations, also the default
    O0,
    /// Local constant propagation
    O1,
    /// Optimize for speed instead of size
    O2,
    /// Optimize more for speed
    O3,
    /// Like O2 with size optimizations
    Os,
    /// Like O2 with more size optimizations
    Oz,
}

impl OptiLevel {
    pub open spec fn name(self) -> Seq<char> {
        match self {
            OptiLevel::O0 => "O0"@,
            OptiLevel::O1 => "O1"@,
            OptiLevel::O2 => "O2"@,
            OptiLevel::O3 => "O3"@,
            OptiLevel::Os => "Os"@,
            OptiLevel::Oz => "Oz"@,
        }
    }

    pub fn as_str(&self) -> (r: &'static str)
        ensures
            r@ == self.name(),
    {
        match self {
            OptiLevel::O0 => "O0",
            OptiLevel::O1 => "O1",
            OptiLevel::O2 => "O2",
            OptiLevel::O3 => "O3",
            OptiLevel::Os => "Os",
            OptiLevel::Oz => "Oz",
        }
    }
}

/// A pass over a whole program.
pub trait Optimize {
    /// The level this pass implements.
    fn optimize_level() -> OptiLevel;

    fn optimize(&mut self, stmts: Vec<Statement>) -> Vec<Statement>;
}

// ---------------------------------------------------------------------------
// What constant propagation computes.
// ---------------------------------------------------------------------------

/// One entry of the log of register bindings: the register became known to hold
/// `value`, or (`None`) stopped being known.
pub struct BindingModel {
    pub index: usize,
    pub class: RegisterType,
    pub value: Option<ValueModel>,
}

/// One entry of the log of global bindings.
pub struct GlobalBindingModel {
    pub name: Seq<char>,
    pub value: Option<ValueModel>,
}

/// What the latest entry for a register says it holds.
pub open spec fn lookup(bs: Seq<BindingModel>, index: usize, class: RegisterType) -> Option<ValueModel>
    decreases bs.len(),
{
    if bs.len() == 0 {
        None
    } else if bs.last().index == index && bs.last().class == class {
        bs.last().value
    } else {
        lookup(bs.drop_last(), index, class)
    }
}

/// What the latest entry for a global says it holds.
pub open spec fn lookup_global(gs: Seq<GlobalBindingModel>, name: Seq<char>) -> Option<ValueModel>
    decreases gs.len(),
{
    if gs.len() == 0 {
        None
    } else if gs.last().name == name {
        gs.last().value
    } else {
        lookup_global(gs.drop_last(), name)
    }
}

/// The object holding a known constant.
pub open spec fn known_object(v: ValueModel) -> ObjectModel {
    ObjectModel { value: v, ty: v.type_of() }
}

/// A constant object whose value is a known register becomes that register's value.
pub open spec fn fold_object(o: ObjectModel, bs: Seq<BindingModel>) -> ObjectModel {
    match o.value {
        ValueModel::Register(r) => match lookup(bs, r.index, r.class) {
            Some(v) => known_object(v),
            None => o,
        },
        _ => o,
    }
}

/// A use of a known register becomes its constant; lists are folded item by item.
pub open spec fn fold_operand(v: OperandModel, bs: Seq<BindingModel>) -> OperandModel
    decreases v,
{
    match v {
        OperandModel::ConstValue(o) => OperandModel::ConstValue(fold_object(o, bs)),
        OperandModel::Register(r) => match lookup(bs, r.index, r.class) {
            Some(c) => OperandModel::ConstValue(known_object(c)),
            None => OperandModel::Register(r),
        },
        OperandModel::List(items) => OperandModel::List(
            Seq::new(items.len(), |i: int| if 0 <= i < items.len() { fold_operand(items[i], bs) } else { v }),
        ),
    }
}

pub open spec fn fold_operands(vs: Seq<OperandModel>, bs: Seq<BindingModel>) -> Seq<OperandModel> {
    vs.map_values(|v: OperandModel| fold_operand(v, bs))
}

/// Substituting in a command: constants, the operands of arithmetic and of a return, and
/// reads of known globals.
pub open spec fn substitute_command(c: CommandModel, bs: Seq<BindingModel>, gs: Seq<GlobalBindingModel>) -> CommandModel {
    match c {
        CommandModel::Const(o) => CommandModel::Const(fold_object(o, bs)),
        CommandModel::Ret(v) => CommandModel::Ret(fold_operand(v, bs)),
        CommandModel::AddInt8(l, r) => CommandModel::AddInt8(fold_operand(l, bs), fold_operand(r, bs)),
        CommandModel::AddInt16(l, r) => CommandModel::AddInt16(fold_operand(l, bs), fold_operand(r, bs)),
        CommandModel::AddInt32(l, r) => CommandModel::AddInt32(fold_operand(l, bs), fold_operand(r, bs)),
        CommandModel::AddInt64(l, r) => CommandModel::AddInt64(fold_operand(l, bs), fold_operand(r, bs)),
        CommandModel::AddFloat32(l, r) => CommandModel::AddFloat32(fold_operand(l, bs), fold_operand(r, bs)),
        CommandModel::AddFloat64(l, r) => CommandModel::AddFloat64(fold_operand(l, bs), fold_operand(r, bs)),
        CommandModel::SubInt8(l, r) => CommandModel::SubInt8(fold_operand(l, bs), fold_operand(r, bs)),
        CommandModel::SubInt16(l, r) => CommandModel::SubInt16(fold_operand(l, bs), fold_operand(r, bs)),
        CommandModel::SubInt32(l, r) => CommandModel::SubInt32(fold_operand(l, bs), fold_operand(r, bs)),
        CommandModel::SubInt64(l, r) => CommandModel::SubInt64(fold_operand(l, bs), fold_operand(r, bs)),
        CommandModel::SubFloat32(l, r) => CommandModel::SubFloat32(fold_operand(l, bs), fold_operand(r, bs)),
        CommandModel::SubFloat64(l, r) => CommandModel::SubFloat64(fold_operand(l, bs), fold_operand(r, bs)),
        CommandModel::Copy(n) => match lookup_global(gs, n) {
            Some(v) => CommandModel::Const(known_object(v)),
            None => CommandModel::Copy(n),
        },
        _ => c,
    }
}

/// The payload of an operand that is a `Int8` literal.
pub open spec fn literal_i8(o: OperandModel) -> Option<i8> {
    match o {
        OperandModel::ConstValue(obj) => match obj.value {
            ValueModel::Int8(x) => Some(x),
            _ => None,
        },
        _ => None,
    }
}

/// The payload of an operand that is a `Int16` literal.
pub open spec fn literal_i16(o: OperandModel) -> Option<i16> {
    match o {
        OperandModel::ConstValue(obj) => match obj.value {
            ValueModel::Int16(x) => Some(x),
            _ => None,
        },
        _ => None,
    }
}

/// The payload of an operand that is a `Int32` literal.
pub open spec fn literal_i32(o: OperandModel) -> Option<i32> {
    match o {
        OperandModel::ConstValue(obj) => match obj.value {
            ValueModel::Int32(x) => Some(x),
            _ => None,
        },
        _ => None,
    }
}

/// The payload of an operand that is a `Int64` literal.
pub open spec fn literal_i64(o: OperandModel) -> Option<i64> {
    match o {
        OperandModel::ConstValue(obj) => match obj.value {
            ValueModel::Int64(x) => Some(x),
            _ => None,
        },
        _ => None,
    }
}

/// The value of an integer addition or subtraction of two literals, when it fits its width.
pub open spec fn evaluate(c: CommandModel) -> Option<ValueModel> {
    match c {
        CommandModel::AddInt8(l, r) => if literal_i8(l) is Some && literal_i8(r) is Some
            && i8::MIN <= literal_i8(l)->0 + literal_i8(r)->0 <= i8::MAX {
            Some(ValueModel::Int8((literal_i8(l)->0 + literal_i8(r)->0) as i8))
        } else {
            None
        },
        CommandModel::SubInt8(l, r) => if literal_i8(l) is Some && literal_i8(r) is Some
            && i8::MIN <= literal_i8(l)->0 - literal_i8(r)->0 <= i8::MAX {
            Some(ValueModel::Int8((literal_i8(l)->0 - literal_i8(r)->0) as i8))
        } else {
            None
        },
        CommandModel::AddInt16(l, r) => if literal_i16(l) is Some && literal_i16(r) is Some
            && i16::MIN <= literal_i16(l)->0 + literal_i16(r)->0 <= i16::MAX {
            Some(ValueModel::Int16((literal_i16(l)->0 + literal_i16(r)->0) as i16))
        } else {
            None
        },
        CommandModel::SubInt16(l, r) => if literal_i16(l) is Some && literal_i16(r) is Some
            && i16::MIN <= literal_i16(l)->0 - literal_i16(r)->0 <= i16::MAX {
            Some(ValueModel::Int16((literal_i16(l)->0 - literal_i16(r)->0) as i16))
        } else {
            None
        },
        CommandModel::AddInt32(l, r) => if literal_i32(l) is Some && literal_i32(r) is Some
            && i32::MIN <= literal_i32(l)->0 + literal_i32(r)->0 <= i32::MAX {
            Some(ValueModel::Int32((literal_i32(l)->0 + literal_i32(r)->0) as i32))
        } else {
            None
        },
        CommandModel::SubInt32(l, r) => if literal_i32(l) is Some && literal_i32(r) is Some
            && i32::MIN <= literal_i32(l)->0 - literal_i32(r)->0 <= i32::MAX {
            Some(ValueModel::Int32((literal_i32(l)->0 - literal_i32(r)->0) as i32))
        } else {
            None
        },
        CommandModel::AddInt64(l, r) => if literal_i64(l) is Some && literal_i64(r) is Some
            && i64::MIN <= literal_i64(l)->0 + literal_i64(r)->0 <= i64::MAX {
            Some(ValueModel::Int64((literal_i64(l)->0 + literal_i64(r)->0) as i64))
        } else {
            None
        },
        CommandModel::SubInt64(l, r) => if literal_i64(l) is Some && literal_i64(r) is Some
            && i64::MIN <= literal_i64(l)->0 - literal_i64(r)->0 <= i64::MAX {
            Some(ValueModel::Int64((literal_i64(l)->0 - literal_i64(r)->0) as i64))
        } else {
            None
        },
        _ => None,
    }
}

/// Folding a command: substituting known constants into it, then evaluating an integer
/// addition or subtraction whose operands have both become literals.
pub open spec fn fold_command(c: CommandModel, bs: Seq<BindingModel>, gs: Seq<GlobalBindingModel>) -> CommandModel {
    let d = substitute_command(c, bs, gs);
    match evaluate(d) {
        Some(v) => CommandModel::Const(known_object(v)),
        None => d,
    }
}

/// The binding log after an assignment to `r` of the folded instruction `i`.
pub open spec fn bind(bs: Seq<BindingModel>, index: usize, class: RegisterType, i: InstrModel) -> Seq<BindingModel> {
    if i is Command && i->Command_0 is Const && i->Command_0->Const_0.value.is_constant() {
        bs.push(BindingModel { index, class, value: Some(i->Command_0->Const_0.value) })
    } else {
        bs.push(BindingModel { index, class, value: None })
    }
}

/// Folds one instruction; returns it with the binding log after it.
pub open spec fn fold_instr(i: InstrModel, bs: Seq<BindingModel>, gs: Seq<GlobalBindingModel>) -> (InstrModel, Seq<BindingModel>)
    decreases i,
{
    match i {
        InstrModel::Assign(r, inner) => {
            let (x, bs2) = fold_instr(*inner, bs, gs);
            (InstrModel::Assign(r, Box::new(x)), bind(bs2, r.index, r.class, x))
        },
        InstrModel::Call(n, args) => (InstrModel::Call(n, fold_operands(args, bs)), bs),
        InstrModel::Command(c) => (InstrModel::Command(fold_command(c, bs, gs)), bs),
    }
}

/// Folds a sequence of instructions in order.
pub open spec fn fold_instrs(is: Seq<InstrModel>, bs: Seq<BindingModel>, gs: Seq<GlobalBindingModel>) -> (Seq<InstrModel>, Seq<BindingModel>)
    decreases is.len(),
{
    if is.len() == 0 {
        (Seq::empty(), bs)
    } else {
        let (out, bs1) = fold_instrs(is.drop_last(), bs, gs);
        let (x, bs2) = fold_instr(is.last(), bs1, gs);
        (out.push(x), bs2)
    }
}

/// Folds the blocks of a function in order, the bindings flowing from one block to the next.
pub open spec fn fold_labels(ls: Seq<LabelModel>, bs: Seq<BindingModel>, gs: Seq<GlobalBindingModel>) -> (Seq<LabelModel>, Seq<BindingModel>)
    decreases ls.len(),
{
    if ls.len() == 0 {
        (Seq::empty(), bs)
    } else {
        let (out, bs1) = fold_labels(ls.drop_last(), bs, gs);
        let l = ls.last();
        let (body, bs2) = fold_instrs(l.body, bs1, gs);
        (out.push(LabelModel { name: l.name, flags: l.flags, body }), bs2)
    }
}

/// The blocks of a function after tagging a lone block `inline`.
pub open spec fn tag_inline(ls: Seq<LabelModel>) -> Seq<LabelModel> {
    if ls.len() == 1 && !ls[0].flags.contains("inline"@) {
        ls.update(0, LabelModel { flags: ls[0].flags.push("inline"@), ..ls[0] })
    } else {
        ls
    }
}

/// A function after constant propagation, which starts with nothing known of its registers.
pub open spec fn fold_function(f: FunctionModel, gs: Seq<GlobalBindingModel>) -> FunctionModel {
    FunctionModel { labels: fold_labels(tag_inline(f.labels), Seq::empty(), gs).0, ..f }
}

/// Folds a program in order; globals become known as their declarations are passed.
pub open spec fn fold_statements(ss: Seq<StatementModel>) -> (Seq<StatementModel>, Seq<GlobalBindingModel>)
    decreases ss.len(),
{
    if ss.len() == 0 {
        (Seq::empty(), Seq::empty())
    } else {
        let (out, gs) = fold_statements(ss.drop_last());
        match ss.last() {
            StatementModel::Global(g) => {
                let v = if g.value.value.is_constant() { Some(g.value.value) } else { None };
                (out.push(ss.last()), gs.push(GlobalBindingModel { name: g.name, value: v }))
            },
            StatementModel::Function(f) => (out.push(StatementModel::Function(fold_function(f, gs))), gs),
            s => (out.push(s), gs),
        }
    }
}

/// The program that `optimize` returns at `level`.
pub open spec fn optimized(level: OptiLevel, ss: Seq<StatementModel>) -> Seq<StatementModel> {
    if level == OptiLevel::O1 {
        fold_statements(ss).0
    } else {
        ss
    }
}

// ---------------------------------------------------------------------------
// The pass itself.
// ---------------------------------------------------------------------------

/// An entry of the register binding log.
pub struct Binding {
    pub index: usize,
    pub class: RegisterType,
    pub value: Option<MirageValueEnum>,
}

/// An entry of the global binding log.
pub struct GlobalBinding {
    pub name: String,
    pub value: Option<MirageValueEnum>,
}

pub open spec fn value_opt_view(v: Option<MirageValueEnum>) -> Option<ValueModel> {
    match v {
        Some(x) => Some(x@),
        None => None,
    }
}

pub open spec fn bindings_view(bs: Seq<Binding>) -> Seq<BindingModel> {
    bs.map_values(|b: Binding| BindingModel { index: b.index, class: b.class, value: value_opt_view(b.value) })
}

pub open spec fn global_bindings_view(gs: Seq<GlobalBinding>) -> Seq<GlobalBindingModel> {
    gs.map_values(|g: GlobalBinding| GlobalBindingModel { name: g.name@, value: value_opt_view(g.value) })
}

fn copy_opt(v: &Option<MirageValueEnum>) -> (r: Option<MirageValueEnum>)
    ensures
        value_opt_view(r) == value_opt_view(*v),
{
    match v {
        Some(x) => Some(x.duplicate()),
        None => None,
    }
}

fn find_binding(bs: &Vec<Binding>, index: usize, class: RegisterType) -> (r: Option<MirageValueEnum>)
    ensures
        value_opt_view(r) == lookup(bindings_view(bs@), index, class),
{
    let ghost full = bindings_view(bs@);
    let mut i = bs.len();
    assert(full.take(i as int) =~= full);
    while i > 0
        invariant
            i <= bs@.len(),
            full == bindings_view(bs@),
            lookup(full, index, class) == lookup(full.take(i as int), index, class),
        decreases i,
    {
        proof {
            assert(full.take(i as int).drop_last() =~= full.take(i - 1));
        }
        i = i - 1;
        if bs[i].index == index && bs[i].class == class {
            return copy_opt(&bs[i].value);
        }
    }
    None
}

fn find_global(gs: &Vec<GlobalBinding>, name: &String) -> (r: Option<MirageValueEnum>)
    ensures
        value_opt_view(r) == lookup_global(global_bindings_view(gs@), name@),
{
    let ghost full = global_bindings_view(gs@);
    let mut i = gs.len();
    assert(full.take(i as int) =~= full);
    while i > 0
        invariant
            i <= gs@.len(),
            full == global_bindings_view(gs@),
            lookup_global(full, name@) == lookup_global(full.take(i as int), name@),
        decreases i,
    {
        proof {
            assert(full.take(i as int).drop_last() =~= full.take(i - 1));
        }
        i = i - 1;
        if gs[i].name == *name {
            return copy_opt(&gs[i].value);
        }
    }
    None
}

fn known(v: MirageValueEnum) -> (r: MirageObject)
    ensures
        r@ == known_object(v@),
{
    MirageObject::from(v)
}

fn fold_object_exec(o: &MirageObject, bs: &Vec<Binding>) -> (r: MirageObject)
    ensures
        r@ == fold_object(o@, bindings_view(bs@)),
{
    if let MirageValueEnum::Register(reg) = &o.value {
        match find_binding(bs, reg.index, reg.register_type) {
            Some(v) => {
                return known(v);
            },
            None => {},
        }
    }
    o.duplicate()
}

fn fold_operand_exec(v: &Value, bs: &Vec<Binding>) -> (r: Value)
    ensures
        r@ == fold_operand(v@, bindings_view(bs@)),
    decreases v,
{
    match v {
        Value::ConstValue(o) => Value::ConstValue(fold_object_exec(o, bs)),
        Value::Register(reg) => match find_binding(bs, reg.index, reg.register_type) {
            Some(c) => Value::ConstValue(known(c)),
            None => Value::Register(reg.duplicate()),
        },
        Value::List(l) => {
            let mut items: Vec<Value> = Vec::new();
            let mut i: usize = 0;
            while i < l.inner.len()
                invariant
                    i <= l.inner@.len(),
                    *v == Value::List(*l),
                    items@.len() == i,
                    forall|j: int| 0 <= j < i ==> #[trigger] items@[j]@ == fold_operand(l.inner@[j]@, bindings_view(bs@)),
                decreases l.inner@.len() - i,
            {
                proof {
                    assert(decreases_to!(*v => v->List_0));
                    assert(decreases_to!(v->List_0 => v->List_0.inner));
                    assert(decreases_to!(l.inner => l.inner[i as int]));
                }
                items.push(fold_operand_exec(&l.inner[i], bs));
                i = i + 1;
            }
            let r = Value::List(List { inner: items });
            proof {
                crate::label::lemma_list_view(r);
                crate::label::lemma_list_view(*v);
                crate::label::lemma_operands_view(items@);
                crate::label::lemma_operands_view(l.inner@);
                if let OperandModel::List(x) = fold_operand(v@, bindings_view(bs@)) {
                    assert(operands_view(items@) =~= x);
                }
            }
            r
        },
    }
}

fn fold_operands_exec(vs: &Vec<Value>, bs: &Vec<Binding>) -> (r: Vec<Value>)
    ensures
        operands_view(r@) == fold_operands(operands_view(vs@), bindings_view(bs@)),
{
    let mut r: Vec<Value> = Vec::new();
    let mut i: usize = 0;
    while i < vs.len()
        invariant
            i <= vs@.len(),
            r@.len() == i,
            forall|j: int| 0 <= j < i ==> #[trigger] r@[j]@ == fold_operand(vs@[j]@, bindings_view(bs@)),
        decreases vs@.len() - i,
    {
        r.push(fold_operand_exec(&vs[i], bs));
        i = i + 1;
    }
    proof {
        crate::label::lemma_operands_view(r@);
        crate::label::lemma_operands_view(vs@);
        assert(operands_view(r@) =~= fold_operands(operands_view(vs@), bindings_view(bs@)));
    }
    r
}

fn substitute_command_exec(c: &Command, bs: &Vec<Binding>, gs: &Vec<GlobalBinding>) -> (r: Command)
    ensures
        r@ == substitute_command(c@, bindings_view(bs@), global_bindings_view(gs@)),
{
    match c {
        Command::Const(o) => Command::Const(fold_object_exec(o, bs)),
        Command::Ret(v) => Command::Ret(fold_operand_exec(v, bs)),
        Command::AddInt8(l, r) => Command::AddInt8(fold_operand_exec(l, bs), fold_operand_exec(r, bs)),
        Command::AddInt16(l, r) => Command::AddInt16(fold_operand_exec(l, bs), fold_operand_exec(r, bs)),
        Command::AddInt32(l, r) => Command::AddInt32(fold_operand_exec(l, bs), fold_operand_exec(r, bs)),
        Command::AddInt64(l, r) => Command::AddInt64(fold_operand_exec(l, bs), fold_operand_exec(r, bs)),
        Command::AddFloat32(l, r) => Command::AddFloat32(fold_operand_exec(l, bs), fold_operand_exec(r, bs)),
        Command::AddFloat64(l, r) => Command::AddFloat64(fold_operand_exec(l, bs), fold_operand_exec(r, bs)),
        Command::SubInt8(l, r) => Command::SubInt8(fold_operand_exec(l, bs), fold_operand_exec(r, bs)),
        Command::SubInt16(l, r) => Command::SubInt16(fold_operand_exec(l, bs), fold_operand_exec(r, bs)),
        Command::SubInt32(l, r) => Command::SubInt32(fold_operand_exec(l, bs), fold_operand_exec(r, bs)),
        Command::SubInt64(l, r) => Command::SubInt64(fold_operand_exec(l, bs), fold_operand_exec(r, bs)),
        Command::SubFloat32(l, r) => Command::SubFloat32(fold_operand_exec(l, bs), fold_operand_exec(r, bs)),
        Command::SubFloat64(l, r) => Command::SubFloat64(fold_operand_exec(l, bs), fold_operand_exec(r, bs)),
        Command::Copy(n) => match find_global(gs, n) {
            Some(v) => Command::Const(known(v)),
            None => Command::Copy(n.clone()),
        },
        _ => c.duplicate(),
    }
}

fn literal_i8_exec(v: &Value) -> (r: Option<i8>)
    ensures
        r == literal_i8(v@),
{
    match v {
        Value::ConstValue(o) => match &o.value {
            MirageValueEnum::Int8(x) => Some(x.value),
            _ => None,
        },
        _ => None,
    }
}

fn literal_i16_exec(v: &Value) -> (r: Option<i16>)
    ensures
        r == literal_i16(v@),
{
    match v {
        Value::ConstValue(o) => match &o.value {
            MirageValueEnum::Int16(x) => Some(x.value),
            _ => None,
        },
        _ => None,
    }
}

fn literal_i32_exec(v: &Value) -> (r: Option<i32>)
    ensures
        r == literal_i32(v@),
{
    match v {
        Value::ConstValue(o) => match &o.value {
            MirageValueEnum::Int32(x) => Some(x.value),
            _ => None,
        },
        _ => None,
    }
}

fn literal_i64_exec(v: &Value) -> (r: Option<i64>)
    ensures
        r == literal_i64(v@),
{
    match v {
        Value::ConstValue(o) => match &o.value {
            MirageValueEnum::Int64(x) => Some(x.value),
            _ => None,
        },
        _ => None,
    }
}

fn evaluate_exec(c: &Command) -> (r: Option<MirageValueEnum>)
    ensures
        value_opt_view(r) == evaluate(c@),
{
    match c {
        Command::AddInt8(l, r) => match (literal_i8_exec(l), literal_i8_exec(r)) {
            (Some(x), Some(y)) => match x.checked_add(y) {
                Some(z) => Some(MirageValueEnum::Int8(Int8Value::new(z))),
                None => None,
            },
            _ => None,
        },
        Command::SubInt8(l, r) => match (literal_i8_exec(l), literal_i8_exec(r)) {
            (Some(x), Some(y)) => match x.checked_sub(y) {
                Some(z) => Some(MirageValueEnum::Int8(Int8Value::new(z))),
                None => None,
            },
            _ => None,
        },
        Command::AddInt16(l, r) => match (literal_i16_exec(l), literal_i16_exec(r)) {
            (Some(x), Some(y)) => match x.checked_add(y) {
                Some(z) => Some(MirageValueEnum::Int16(Int16Value::new(z))),
                None => None,
            },
            _ => None,
        },
        Command::SubInt16(l, r) => match (literal_i16_exec(l), literal_i16_exec(r)) {
            (Some(x), Some(y)) => match x.checked_sub(y) {
                Some(z) => Some(MirageValueEnum::Int16(Int16Value::new(z))),
                None => None,
            },
            _ => None,
        },
        Command::AddInt32(l, r) => match (literal_i32_exec(l), literal_i32_exec(r)) {
            (Some(x), Some(y)) => match x.checked_add(y) {
                Some(z) => Some(MirageValueEnum::Int32(Int32Value::new(z))),
                None => None,
            },
            _ => None,
        },
        Command::SubInt32(l, r) => match (literal_i32_exec(l), literal_i32_exec(r)) {
            (Some(x), Some(y)) => match x.checked_sub(y) {
                Some(z) => Some(MirageValueEnum::Int32(Int32Value::new(z))),
                None => None,
            },
            _ => None,
        },
        Command::AddInt64(l, r) => match (literal_i64_exec(l), literal_i64_exec(r)) {
            (Some(x), Some(y)) => match x.checked_add(y) {
                Some(z) => Some(MirageValueEnum::Int64(Int64Value::new(z))),
                None => None,
            },
            _ => None,
        },
        Command::SubInt64(l, r) => match (literal_i64_exec(l), literal_i64_exec(r)) {
            (Some(x), Some(y)) => match x.checked_sub(y) {
                Some(z) => Some(MirageValueEnum::Int64(Int64Value::new(z))),
                None => None,
            },
            _ => None,
        },
        _ => None,
    }
}

fn fold_command_exec(c: &Command, bs: &Vec<Binding>, gs: &Vec<GlobalBinding>) -> (r: Command)
    ensures
        r@ == fold_command(c@, bindings_view(bs@), global_bindings_view(gs@)),
{
    let d = substitute_command_exec(c, bs, gs);
    match evaluate_exec(&d) {
        Some(v) => Command::Const(known(v)),
        None => d,
    }
}

fn fold_instr_exec(i: &LabelBodyInstr, bs: &mut Vec<Binding>, gs: &Vec<GlobalBinding>) -> (r: LabelBodyInstr)
    ensures
        (r@, bindings_view(final(bs)@)) == fold_instr(i@, bindings_view(old(bs)@), global_bindings_view(gs@)),
    decreases i,
{
    match i {
        LabelBodyInstr::Assign(reg, inner) => {
            let x = fold_instr_exec(&**inner, bs, gs);
            let ghost before = bindings_view(bs@);
            let value = match &x {
                LabelBodyInstr::Command(Command::Const(o)) => {
                    if o.value.is_const() {
                        Some(o.value.duplicate())
                    } else {
                        None
                    }
                },
                _ => None,
            };
            bs.push(Binding { index: reg.index, class: reg.register_type, value });
            proof {
                assert(bindings_view(bs@) =~= bind(before, reg.index, reg.register_type, x@));
            }
            LabelBodyInstr::Assign(reg.duplicate(), Box::new(x))
        },
        LabelBodyInstr::Call(n, args) => LabelBodyInstr::Call(n.clone(), fold_operands_exec(args, bs)),
        LabelBodyInstr::Command(c) => LabelBodyInstr::Command(fold_command_exec(c, bs, gs)),
    }
}

fn fold_instrs_exec(is: &Vec<LabelBodyInstr>, bs: &mut Vec<Binding>, gs: &Vec<GlobalBinding>) -> (r: Vec<LabelBodyInstr>)
    ensures
        (instrs_view(r@), bindings_view(final(bs)@)) == fold_instrs(instrs_view(is@), bindings_view(old(bs)@), global_bindings_view(gs@)),
{
    let ghost start = bindings_view(bs@);
    let ghost g = global_bindings_view(gs@);
    let mut r: Vec<LabelBodyInstr> = Vec::new();
    let mut i: usize = 0;
    while i < is.len()
        invariant
            i <= is@.len(),
            g == global_bindings_view(gs@),
            (instrs_view(r@), bindings_view(bs@)) == fold_instrs(instrs_view(is@).take(i as int), start, g),
        decreases is@.len() - i,
    {
        proof {
            assert(instrs_view(is@).take(i + 1).drop_last() =~= instrs_view(is@).take(i as int));
            assert(instrs_view(is@).take(i + 1).last() == is@[i as int]@);
        }
        let ghost prev = r@;
        let x = fold_instr_exec(&is[i], bs, gs);
        r.push(x);
        proof {
            assert(instrs_view(r@) =~= instrs_view(prev).push(x@));
        }
        i = i + 1;
    }
    proof {
        assert(instrs_view(is@).take(i as int) =~= instrs_view(is@));
    }
    r
}

fn fold_labels_exec(ls: &Vec<Label>, bs: &mut Vec<Binding>, gs: &Vec<GlobalBinding>) -> (r: Vec<Label>)
    ensures
        (labels_view(r@), bindings_view(final(bs)@)) == fold_labels(labels_view(ls@), bindings_view(old(bs)@), global_bindings_view(gs@)),
{
    let ghost start = bindings_view(bs@);
    let ghost g = global_bindings_view(gs@);
    let mut r: Vec<Label> = Vec::new();
    let mut i: usize = 0;
    while i < ls.len()
        invariant
            i <= ls@.len(),
            g == global_bindings_view(gs@),
            (labels_view(r@), bindings_view(bs@)) == fold_labels(labels_view(ls@).take(i as int), start, g),
        decreases ls@.len() - i,
    {
        proof {
            assert(labels_view(ls@).take(i + 1).drop_last() =~= labels_view(ls@).take(i as int));
            assert(labels_view(ls@).take(i + 1).last() == ls@[i as int]@);
        }
        let ghost prev = r@;
        let body = fold_instrs_exec(&ls[i].body, bs, gs);
        let l = Label { name: ls[i].name.clone(), flags: ls[i].flags.duplicate(), body };
        r.push(l);
        proof {
            assert(labels_view(r@) =~= labels_view(prev).push(l@));
        }
        i = i + 1;
    }
    proof {
        assert(labels_view(ls@).take(i as int) =~= labels_view(ls@));
    }
    r
}

fn fold_function_exec(f: &FunctionValue, gs: &Vec<GlobalBinding>) -> (r: FunctionValue)
    ensures
        r@ == fold_function(f@, global_bindings_view(gs@)),
{
    let mut labels: Vec<Label> = Vec::new();
    let mut i: usize = 0;
    while i < f.labels.len()
        invariant
            i <= f.labels@.len(),
            labels@.len() == i,
            forall|j: int| 0 <= j < i ==> #[trigger] labels@[j]@ == f.labels@[j]@,
        decreases f.labels@.len() - i,
    {
        labels.push(f.labels[i].duplicate());
        i = i + 1;
    }
    assert(labels_view(labels@) =~= labels_view(f.labels@));
    if labels.len() == 1 {
        let inline = Flag::new(String::from_str("inline"));
        if !labels[0].flags.contains(&inline) {
            let mut first = labels.pop().unwrap();
            first.flags.push(inline);
            labels.push(first);
            proof {
                assert(labels_view(labels@) =~= tag_inline(labels_view(f.labels@)));
            }
        }
    }
    assert(labels_view(labels@) == tag_inline(labels_view(f.labels@)));
    let mut bs: Vec<Binding> = Vec::new();
    proof {
        assert(bindings_view(bs@) =~= Seq::<BindingModel>::empty());
    }
    let folded = fold_labels_exec(&labels, &mut bs, gs);
    FunctionValue { name: f.name.clone(), ty: f.ty.duplicate(), labels: folded }
}

/// Local constant propagation over a whole program.
pub fn fold_program(stmts: &Vec<Statement>) -> (r: Vec<Statement>)
    ensures
        statements_view(r@) == fold_statements(statements_view(stmts@)).0,
{
    let mut gs: Vec<GlobalBinding> = Vec::new();
    let mut r: Vec<Statement> = Vec::new();
    let mut i: usize = 0;
    proof {
        assert(statements_view(stmts@).take(0) =~= Seq::<StatementModel>::empty());
        assert(global_bindings_view(gs@) =~= Seq::<GlobalBindingModel>::empty());
        assert(statements_view(r@) =~= Seq::<StatementModel>::empty());
    }
    while i < stmts.len()
        invariant
            i <= stmts@.len(),
            (statements_view(r@), global_bindings_view(gs@)) == fold_statements(statements_view(stmts@).take(i as int)),
        decreases stmts@.len() - i,
    {
        proof {
            assert(statements_view(stmts@).take(i + 1).drop_last() =~= statements_view(stmts@).take(i as int));
            assert(statements_view(stmts@).take(i + 1).last() == stmts@[i as int]@);
        }
        let ghost prev = r@;
        let ghost prev_gs = gs@;
        match &stmts[i] {
            Statement::Global(g) => {
                let value = if g.value.value.is_const() {
                    Some(g.value.value.duplicate())
                } else {
                    None
                };
                gs.push(GlobalBinding { name: g.name.clone(), value });
                r.push(stmts[i].duplicate());
                proof {
                    assert(global_bindings_view(gs@) =~= global_bindings_view(prev_gs).push(
                        GlobalBindingModel { name: g.name@, value: value_opt_view(value) },
                    ));
                }
            },
            Statement::Function(f) => {
                r.push(Statement::Function(fold_function_exec(f, &gs)));
            },
            s => {
                r.push(s.duplicate());
            },
        }
        proof {
            assert(statements_view(r@) =~= statements_view(prev).push(r@.last()@));
        }
        i = i + 1;
    }
    proof {
        assert(statements_view(stmts@).take(i as int) =~= statements_view(stmts@));
    }
    r
}

/// Optimizes a program at `level`. Only `O1` changes it; the other levels leave it as it is.
pub fn optimize(level: OptiLevel, stmts: Vec<Statement>) -> (r: Vec<Statement>)
    ensures
        statements_view(r@) == optimized(level, statements_view(stmts@)),
{
    match level {
        OptiLevel::O1 => fold_program(&stmts),
        _ => stmts,
    }
}

/// The pass that leaves a program as it is.
pub struct OptiZero {
    stmts: Vec<Statement>,
}

impl OptiZero {
    pub fn new(stmts: Vec<Statement>) -> (r: Self) {
        Self { stmts }
    }
}

impl Optimize for OptiZero {
    fn optimize_level() -> OptiLevel {
        OptiLevel::O0
    }

    fn optimize(&mut self, stmts: Vec<Statement>) -> (r: Vec<Statement>)
        ensures
            r == stmts,
    {
        stmts
    }
}

/// The local constant propagation pass.
pub struct OptiOne {
    stmts: Vec<Statement>,
}

impl OptiOne {
    pub fn new(stmts: Vec<Statement>) -> (r: Self) {
        Self { stmts }
    }
}

impl Optimize for OptiOne {
    fn optimize_level() -> OptiLevel {
        OptiLevel::O1
    }

    fn optimize(&mut self, stmts: Vec<Statement>) -> (r: Vec<Statement>)
        ensures
            statements_view(r@) == optimized(OptiLevel::O1, statements_view(stmts@)),
    {
        fold_program(&stmts)
    }
}

// ---------------------------------------------------------------------------
// Running the pass twice gives what running it once gives.
// ---------------------------------------------------------------------------

/// Every register the log knows holds a constant.
pub open spec fn all_constant(bs: Seq<BindingModel>) -> bool {
    forall|i: int| 0 <= i < bs.len() && (#[trigger] bs[i]).value is Some ==> bs[i].value->0.is_constant()
}

/// Every global the log knows holds a constant.
pub open spec fn all_constant_globals(gs: Seq<GlobalBindingModel>) -> bool {
    forall|i: int| 0 <= i < gs.len() && (#[trigger] gs[i]).value is Some ==> gs[i].value->0.is_constant()
}

proof fn lemma_lookup_constant(bs: Seq<BindingModel>, index: usize, class: RegisterType)
    requires
        all_constant(bs),
    ensures
        lookup(bs, index, class) is Some ==> lookup(bs, index, class)->0.is_constant(),
    decreases bs.len(),
{
    if bs.len() > 0 {
        let d = bs.drop_last();
        assert(forall|i: int| 0 <= i < d.len() ==> d[i] == bs[i]);
        assert(all_constant(d));
        assert(bs.last() == bs[bs.len() - 1]);
        lemma_lookup_constant(d, index, class);
    }
}

proof fn lemma_lookup_global_constant(gs: Seq<GlobalBindingModel>, name: Seq<char>)
    requires
        all_constant_globals(gs),
    ensures
        lookup_global(gs, name) is Some ==> lookup_global(gs, name)->0.is_constant(),
    decreases gs.len(),
{
    if gs.len() > 0 {
        let d = gs.drop_last();
        assert(forall|i: int| 0 <= i < d.len() ==> d[i] == gs[i]);
        assert(all_constant_globals(d));
        assert(gs.last() == gs[gs.len() - 1]);
        lemma_lookup_global_constant(d, name);
    }
}

proof fn lemma_fold_object_twice(o: ObjectModel, bs: Seq<BindingModel>)
    requires
        all_constant(bs),
    ensures
        fold_object(fold_object(o, bs), bs) == fold_object(o, bs),
{
    if let ValueModel::Register(r) = o.value {
        lemma_lookup_constant(bs, r.index, r.class);
    }
}

proof fn lemma_fold_operand_twice(v: OperandModel, bs: Seq<BindingModel>)
    requires
        all_constant(bs),
    ensures
        fold_operand(fold_operand(v, bs), bs) == fold_operand(v, bs),
    decreases v,
{
    match v {
        OperandModel::ConstValue(o) => {
            lemma_fold_object_twice(o, bs);
        },
        OperandModel::Register(r) => {
            lemma_lookup_constant(bs, r.index, r.class);
        },
        OperandModel::List(items) => {
            let once = fold_operand(v, bs);
            if let OperandModel::List(xs) = once {
                assert forall|i: int| 0 <= i < items.len() implies fold_operand(xs[i], bs) == xs[i] by {
                    lemma_fold_operand_twice(items[i], bs);
                }
                if let OperandModel::List(ys) = fold_operand(once, bs) {
                    assert(ys =~= xs);
                }
            }
        },
    }
}

proof fn lemma_fold_operands_twice(vs: Seq<OperandModel>, bs: Seq<BindingModel>)
    requires
        all_constant(bs),
    ensures
        fold_operands(fold_operands(vs, bs), bs) == fold_operands(vs, bs),
{
    assert forall|i: int| 0 <= i < vs.len() implies fold_operand(fold_operand(vs[i], bs), bs) == fold_operand(vs[i], bs) by {
        lemma_fold_operand_twice(vs[i], bs);
    }
    assert(fold_operands(fold_operands(vs, bs), bs) =~= fold_operands(vs, bs));
}

proof fn lemma_fold_command_twice(c: CommandModel, bs: Seq<BindingModel>, gs: Seq<GlobalBindingModel>)
    requires
        all_constant(bs),
        all_constant_globals(gs),
    ensures
        fold_command(fold_command(c, bs, gs), bs, gs) == fold_command(c, bs, gs),
{
    lemma_substitute_command_twice(c, bs, gs);
}

proof fn lemma_substitute_command_twice(c: CommandModel, bs: Seq<BindingModel>, gs: Seq<GlobalBindingModel>)
    requires
        all_constant(bs),
        all_constant_globals(gs),
    ensures
        substitute_command(substitute_command(c, bs, gs), bs, gs) == substitute_command(c, bs, gs),
{
    match c {
        CommandModel::Const(o) => {
            lemma_fold_object_twice(o, bs);
        },
        CommandModel::Ret(v) => {
            lemma_fold_operand_twice(v, bs);
        },
        CommandModel::AddInt8(l, r) => {
            lemma_fold_operand_twice(l, bs);
            lemma_fold_operand_twice(r, bs);
        },
        CommandModel::AddInt16(l, r) => {
            lemma_fold_operand_twice(l, bs);
            lemma_fold_operand_twice(r, bs);
        },
        CommandModel::AddInt32(l, r) => {
            lemma_fold_operand_twice(l, bs);
            lemma_fold_operand_twice(r, bs);
        },
        CommandModel::AddInt64(l, r) => {
            lemma_fold_operand_twice(l, bs);
            lemma_fold_operand_twice(r, bs);
        },
        CommandModel::AddFloat32(l, r) => {
            lemma_fold_operand_twice(l, bs);
            lemma_fold_operand_twice(r, bs);
        },
        CommandModel::AddFloat64(l, r) => {
            lemma_fold_operand_twice(l, bs);
            lemma_fold_operand_twice(r, bs);
        },
        CommandModel::SubInt8(l, r) => {
            lemma_fold_operand_twice(l, bs);
            lemma_fold_operand_twice(r, bs);
        },
        CommandModel::SubInt16(l, r) => {
            lemma_fold_operand_twice(l, bs);
            lemma_fold_operand_twice(r, bs);
        },
        CommandModel::SubInt32(l, r) => {
            lemma_fold_operand_twice(l, bs);
            lemma_fold_operand_twice(r, bs);
        },
        CommandModel::SubInt64(l, r) => {
            lemma_fold_operand_twice(l, bs);
            lemma_fold_operand_twice(r, bs);
        },
        CommandModel::SubFloat32(l, r) => {
            lemma_fold_operand_twice(l, bs);
            lemma_fold_operand_twice(r, bs);
        },
        CommandModel::SubFloat64(l, r) => {
            lemma_fold_operand_twice(l, bs);
            lemma_fold_operand_twice(r, bs);
        },
        CommandModel::Copy(n) => {
            lemma_lookup_global_constant(gs, n);
        },
        _ => {},
    }
}

proof fn lemma_bind_constant(bs: Seq<BindingModel>, index: usize, class: RegisterType, i: InstrModel)
    requires
        all_constant(bs),
    ensures
        all_constant(bind(bs, index, class, i)),
{
    let b = bind(bs, index, class, i);
    assert forall|k: int| 0 <= k < b.len() && (#[trigger] b[k]).value is Some implies b[k].value->0.is_constant() by {
        if k < bs.len() {
            assert(b[k] == bs[k]);
        }
    }
}

proof fn lemma_fold_instr_twice(i: InstrModel, bs: Seq<BindingModel>, gs: Seq<GlobalBindingModel>)
    requires
        all_constant(bs),
        all_constant_globals(gs),
    ensures
        fold_instr(fold_instr(i, bs, gs).0, bs, gs) == fold_instr(i, bs, gs),
        all_constant(fold_instr(i, bs, gs).1),
    decreases i,
{
    match i {
        InstrModel::Assign(r, inner) => {
            lemma_fold_instr_twice(*inner, bs, gs);
            let (x, bs2) = fold_instr(*inner, bs, gs);
            lemma_bind_constant(bs2, r.index, r.class, x);
        },
        InstrModel::Call(n, args) => {
            lemma_fold_operands_twice(args, bs);
        },
        InstrModel::Command(c) => {
            lemma_fold_command_twice(c, bs, gs);
        },
    }
}

proof fn lemma_fold_instrs_twice(is: Seq<InstrModel>, bs: Seq<BindingModel>, gs: Seq<GlobalBindingModel>)
    requires
        all_constant(bs),
        all_constant_globals(gs),
    ensures
        fold_instrs(fold_instrs(is, bs, gs).0, bs, gs) == fold_instrs(is, bs, gs),
        all_constant(fold_instrs(is, bs, gs).1),
        fold_instrs(is, bs, gs).0.len() == is.len(),
    decreases is.len(),
{
    if is.len() > 0 {
        lemma_fold_instrs_twice(is.drop_last(), bs, gs);
        let (out, bs1) = fold_instrs(is.drop_last(), bs, gs);
        lemma_fold_instr_twice(is.last(), bs1, gs);
        let (x, bs2) = fold_instr(is.last(), bs1, gs);
        assert(out.push(x).drop_last() =~= out);
    }
}

proof fn lemma_fold_labels_twice(ls: Seq<LabelModel>, bs: Seq<BindingModel>, gs: Seq<GlobalBindingModel>)
    requires
        all_constant(bs),
        all_constant_globals(gs),
    ensures
        fold_labels(fold_labels(ls, bs, gs).0, bs, gs) == fold_labels(ls, bs, gs),
        all_constant(fold_labels(ls, bs, gs).1),
        fold_labels(ls, bs, gs).0.len() == ls.len(),
        forall|k: int| 0 <= k < ls.len() ==> (#[trigger] fold_labels(ls, bs, gs).0[k]).flags == ls[k].flags,
    decreases ls.len(),
{
    if ls.len() > 0 {
        lemma_fold_labels_twice(ls.drop_last(), bs, gs);
        let (out, bs1) = fold_labels(ls.drop_last(), bs, gs);
        let l = ls.last();
        lemma_fold_instrs_twice(l.body, bs1, gs);
        let (body, bs2) = fold_instrs(l.body, bs1, gs);
        let x = LabelModel { name: l.name, flags: l.flags, body };
        assert(out.push(x).drop_last() =~= out);
        assert forall|k: int| 0 <= k < ls.len() implies (#[trigger] fold_labels(ls, bs, gs).0[k]).flags == ls[k].flags by {
            if k < ls.len() - 1 {
                assert(fold_labels(ls, bs, gs).0[k] == out[k]);
                assert(ls.drop_last()[k] == ls[k]);
            }
        }
    }
}

proof fn lemma_fold_function_twice(f: FunctionModel, gs: Seq<GlobalBindingModel>)
    requires
        all_constant_globals(gs),
    ensures
        fold_function(fold_function(f, gs), gs) == fold_function(f, gs),
{
    let tagged = tag_inline(f.labels);
    let empty = Seq::<BindingModel>::empty();
    lemma_fold_labels_twice(tagged, empty, gs);
    let once = fold_labels(tagged, empty, gs).0;
    if once.len() == 1 {
        assert(once[0].flags == tagged[0].flags);
        if f.labels.len() == 1 && !f.labels[0].flags.contains("inline"@) {
            assert(tagged[0].flags == f.labels[0].flags.push("inline"@));
            assert(tagged[0].flags[f.labels[0].flags.len() as int] == "inline"@);
        }
        assert(once[0].flags.contains("inline"@));
    }
    assert(tag_inline(once) == once);
}

/// Folding through a chain: after `r0` is known to hold the constant `v`, the assignment
/// `r1 = const r0` becomes `r1 = const v` and makes `r1` known to hold `v`; a following
/// `ret r1` then folds to `ret v`, exactly what a directly written `ret v` folds to.
pub proof fn lemma_constant_chain(
    r0: RegisterModel,
    r1: RegisterModel,
    ty: TypeModel,
    v: ValueModel,
    bs: Seq<BindingModel>,
    gs: Seq<GlobalBindingModel>,
)
    requires
        all_constant(bs),
        lookup(bs, r0.index, r0.class) == Some(v),
    ensures
        ({
            let def = InstrModel::Assign(
                r1,
                Box::new(InstrModel::Command(CommandModel::Const(ObjectModel { value: ValueModel::Register(r0), ty }))),
            );
            let (x, bs2) = fold_instr(def, bs, gs);
            let ret_reg = InstrModel::Command(CommandModel::Ret(OperandModel::Register(r1)));
            let ret_const = InstrModel::Command(CommandModel::Ret(OperandModel::ConstValue(known_object(v))));
            &&& x == InstrModel::Assign(r1, Box::new(InstrModel::Command(CommandModel::Const(known_object(v)))))
            &&& lookup(bs2, r1.index, r1.class) == Some(v)
            &&& fold_instr(ret_reg, bs2, gs).0 == ret_const
            &&& fold_instr(ret_const, bs2, gs).0 == ret_const
        }),
{
    lemma_lookup_constant(bs, r0.index, r0.class);
    let def = InstrModel::Assign(
        r1,
        Box::new(InstrModel::Command(CommandModel::Const(ObjectModel { value: ValueModel::Register(r0), ty }))),
    );
    let o = ObjectModel { value: ValueModel::Register(r0), ty };
    assert(fold_object(o, bs) == known_object(v));
    let c = CommandModel::Const(known_object(v));
    assert(substitute_command(CommandModel::Const(o), bs, gs) == c);
    assert(evaluate(c) is None);
    assert(fold_command(CommandModel::Const(o), bs, gs) == c);
    let inner = InstrModel::Command(CommandModel::Const(o));
    assert(fold_instr(inner, bs, gs) == (InstrModel::Command(c), bs));
    let bs2 = bind(bs, r1.index, r1.class, InstrModel::Command(c));
    assert(v.is_constant());
    assert(bs2 == bs.push(BindingModel { index: r1.index, class: r1.class, value: Some(v) }));
    assert(fold_instr(def, bs, gs) == (InstrModel::Assign(r1, Box::new(InstrModel::Command(c))), bs2));
    assert(lookup(bs2, r1.index, r1.class) == Some(v));
    assert(fold_object(known_object(v), bs2) == known_object(v));
}

/// Constant propagation is idempotent: optimizing at `O1` a program that was
/// already optimized at `O1` changes nothing.
pub proof fn lemma_optimize_idempotent(ss: Seq<StatementModel>)
    ensures
        optimized(OptiLevel::O1, optimized(OptiLevel::O1, ss)) == optimized(OptiLevel::O1, ss),
{
    lemma_fold_statements_twice(ss);
}

proof fn lemma_fold_statements_twice(ss: Seq<StatementModel>)
    ensures
        fold_statements(fold_statements(ss).0) == fold_statements(ss),
        all_constant_globals(fold_statements(ss).1),
    decreases ss.len(),
{
    if ss.len() > 0 {
        lemma_fold_statements_twice(ss.drop_last());
        let (out, gs) = fold_statements(ss.drop_last());
        let once = fold_statements(ss).0;
        match ss.last() {
            StatementModel::Global(g) => {
                assert(once.drop_last() =~= out);
                let gs2 = fold_statements(ss).1;
                assert forall|i: int| 0 <= i < gs2.len() && (#[trigger] gs2[i]).value is Some implies gs2[i].value->0.is_constant() by {
                    if i < gs.len() {
                        assert(gs2[i] == gs[i]);
                    }
                }
            },
            StatementModel::Function(f) => {
                lemma_fold_function_twice(f, gs);
                assert(once.drop_last() =~= out);
            },
            _ => {
                assert(once.drop_last() =~= out);
            },
        }
    }
}

} // verus!
