use vstd::prelude::*;
use vstd::string::*;

use crate::function::{FunctionType, FunctionValue};
use crate::label::{
    instrs_view, operand_of, operands_view, Command, CommandModel, InstrModel, Label, LabelBodyInstr,
    LabelModel, OperandModel, Value,
};
use crate::meta::{flags_text, Flags};
use crate::module::{function_index, lemma_function_index, Module};
use crate::statements::{
    arch_of, compiler_of, os_of, External, Global, ModuleDecl, Statement, StatementModel, Target,
    TargetType,
};
use crate::text::decimal;
use crate::types::{MirageTypeEnum, PointerType, TypeModel};
use crate::values::{
    IntValue, MirageObject, MirageValueEnum, ObjectModel, RegisterModel, RegisterType,
    RegisterValue, ValueModel,
};

verus! {

/// Why a builder operation was refused.
#[derive(Debug, PartialEq)]
pub enum BuilderError {
    NoCurrentBlock,
    GlobalNotFound(String),
    FunctionNotFound(String),
    BlockNotFound(String),
    ExpectConstValue,
    DifferentSize,
    InternalError(String),
    ReturnIsDefined,
}

/// The name under which the global of register index `index` is declared.
pub open spec fn global_name(index: usize) -> Seq<char> {
    "g"@ + decimal(index as nat)
}

/// Builds a program statement by statement.
#[derive(Debug)]
pub struct Builder {
    pub module: Module,
    pub asts: Vec<Statement>,
    pub index_g: usize,
}

impl Builder {
    /// The program starts with its module declaration.
    pub open spec fn wf(&self) -> bool {
        self.asts@.len() >= 1 && self.asts@[0] is Module
    }

    pub fn new(module: Module) -> (r: Self)
        ensures
            r.wf(),
            r.module == module,
            r.asts@.len() == 1,
            r.asts@[0]@ == StatementModel::Module(module.name@),
            r.index_g == 0,
    {
        let decl = ModuleDecl::new(module.name.clone());
        let mut asts: Vec<Statement> = Vec::new();
        asts.push(Statement::Module(decl));
        Self { module, asts, index_g: 0 }
    }

    pub fn add(&mut self, ast: Statement)
        ensures
            final(self).module == old(self).module,
            final(self).index_g == old(self).index_g,
            final(self).asts@ == old(self).asts@.push(ast),
    {
        self.asts.push(ast);
    }

    /// A new basic block that resolves calls against the functions declared so far.
    pub fn new_basic_block(&mut self, name: &str) -> (r: BasicBlock)
        ensures
            r.wf(),
            r.name() == name@,
            r.body() == Seq::<InstrModel>::empty(),
            !r.is_returned(),
            r.next_register() == 0,
            r.same_functions(old(self).module.functions@),
            *final(self) == *old(self),
    {
        BasicBlock::new(String::from_str(name), self.duplicate())
    }

    /// A copy of this builder, with a copy of its module.
    pub fn duplicate(&self) -> (r: Self)
        ensures
            r.index_g == self.index_g,
            r.asts@.len() == self.asts@.len(),
            forall|i: int| 0 <= i < self.asts@.len() ==> #[trigger] r.asts@[i]@ == self.asts@[i]@,
            r.module.functions@.len() == self.module.functions@.len(),
            forall|i: int| 0 <= i < self.module.functions@.len()
                ==> #[trigger] r.module.functions@[i]@ == self.module.functions@[i]@,
    {
        let mut asts: Vec<Statement> = Vec::new();
        let mut i: usize = 0;
        while i < self.asts.len()
            invariant
                i <= self.asts@.len(),
                asts@.len() == i,
                forall|j: int| 0 <= j < i ==> #[trigger] asts@[j]@ == self.asts@[j]@,
            decreases self.asts@.len() - i,
        {
            asts.push(self.asts[i].duplicate());
            i = i + 1;
        }
        Builder { module: self.module.duplicate(), asts, index_g: self.index_g }
    }

    /// The statements after placing `t` at position 1, in place of a target already there.
    pub open spec fn with_target(asts: Seq<Statement>, t: Statement) -> Seq<Statement> {
        if asts.len() > 1 && asts[1] is Target {
            asts.update(1, t)
        } else {
            asts.insert(1, t)
        }
    }

    /// Placing a target twice is placing it once.
    pub proof fn lemma_target_idempotent(asts: Seq<Statement>, t: Statement)
        requires
            asts.len() >= 1,
            t is Target,
        ensures
            Self::with_target(Self::with_target(asts, t), t) == Self::with_target(asts, t),
    {
        let once = Self::with_target(asts, t);
        assert(once[1] == t);
        assert(once.update(1, t) =~= once);
    }

    pub fn set_target_triple(&mut self, os: &str, arch: &str, compiler: &str)
        requires
            old(self).wf(),
        ensures
            final(self).wf(),
            final(self).module == old(self).module,
            final(self).index_g == old(self).index_g,
            final(self).asts@ == Self::with_target(
                old(self).asts@,
                Statement::Target(Target(TargetType {
                    os: os_of(os@),
                    arch: arch_of(arch@),
                    compiler: compiler_of(compiler@),
                })),
            ),
    {
        let t = Statement::Target(Target::from(os, arch, compiler));
        self.place_target(t);
    }

    pub fn set_target(&mut self, target: &str)
        requires
            old(self).wf(),
        ensures
            final(self).wf(),
            final(self).module == old(self).module,
            final(self).index_g == old(self).index_g,
            final(self).asts@ == Self::with_target(
                old(self).asts@,
                Statement::Target(Target(TargetType::parsed(target@))),
            ),
    {
        let t = Statement::Target(Target::parse(target));
        self.place_target(t);
    }

    fn place_target(&mut self, t: Statement)
        requires
            old(self).wf(),
            t is Target,
        ensures
            final(self).wf(),
            final(self).module == old(self).module,
            final(self).index_g == old(self).index_g,
            final(self).asts@ == Self::with_target(old(self).asts@, t),
    {
        if self.asts.len() > 1 && self.asts[1].is_target() {
            self.asts.set(1, t);
        } else {
            self.asts.insert(1, t);
        }
    }

    /// Declares an external function and registers it in the module.
    pub fn build_extern(&mut self, name: String, func: FunctionType)
        ensures
            final(self).index_g == old(self).index_g,
            final(self).module.name == old(self).module.name,
            final(self).module.globals == old(self).module.globals,
            final(self).module.functions@.len() == old(self).module.functions@.len() + 1,
            forall|i: int| 0 <= i < old(self).module.functions@.len()
                ==> #[trigger] final(self).module.functions@[i] == old(self).module.functions@[i],
            final(self).module.functions@.last().name@ == name@,
            final(self).module.functions@.last()@.ty == func@,
            final(self).module.functions@.last()@.labels == Seq::<LabelModel>::empty(),
            final(self).asts@ == old(self).asts@.push(Statement::External(External { name, ty: func })),
    {
        let f = func.fn_value(name.clone());
        self.module.add_function(f);
        self.asts.push(Statement::External(External::new(name, func)));
    }

    /// Declares a global holding `obj`, named after a fresh `Global` register, and returns that register.
    pub fn build_global(&mut self, obj: MirageObject) -> (r: MirageValueEnum)
        requires
            old(self).index_g < usize::MAX,
        ensures
            r@ == ValueModel::Register(RegisterModel {
                index: old(self).index_g,
                class: RegisterType::Global,
                ty: obj.ty@,
                flags: Seq::empty(),
            }),
            final(self).index_g == old(self).index_g + 1,
            final(self).module.name == old(self).module.name,
            final(self).module.functions == old(self).module.functions,
            final(self).module.globals@.len() == old(self).module.globals@.len() + 1,
            forall|i: int| 0 <= i < old(self).module.globals@.len()
                ==> #[trigger] final(self).module.globals@[i] == old(self).module.globals@[i],
            final(self).module.globals@.last()@.name == global_name(old(self).index_g),
            final(self).module.globals@.last()@.value == obj@,
            final(self).asts@.len() == old(self).asts@.len() + 1,
            forall|i: int| 0 <= i < old(self).asts@.len()
                ==> #[trigger] final(self).asts@[i] == old(self).asts@[i],
            final(self).asts@.last() == Statement::Global(Global {
                name: final(self).asts@.last()->Global_0.name,
                value: obj,
            }),
            final(self).asts@.last()->Global_0.name@ == global_name(old(self).index_g),
    {
        let reg = RegisterValue::new(self.index_g, RegisterType::Global, obj.get_type());
        let name = reg.print_to_string();
        proof {
            assert(reg.flags@ == Seq::<Seq<char>>::empty());
            assert(flags_text(reg.flags@) =~= Seq::<char>::empty());
            reveal_strlit("g");
            assert(name@ =~= global_name(self.index_g));
        }
        self.module.add_global(Global::new(name.clone(), obj.duplicate()));
        self.asts.push(Statement::Global(Global::new(name, obj)));
        self.index_g = self.index_g + 1;
        MirageValueEnum::Register(reg)
    }

    /// Adds a function to the program and registers it in the module.
    pub fn build_function(&mut self, func: FunctionValue)
        ensures
            final(self).index_g == old(self).index_g,
            final(self).module.name == old(self).module.name,
            final(self).module.globals == old(self).module.globals,
            final(self).module.functions@.len() == old(self).module.functions@.len() + 1,
            forall|i: int| 0 <= i < old(self).module.functions@.len()
                ==> #[trigger] final(self).module.functions@[i] == old(self).module.functions@[i],
            final(self).module.functions@.last()@ == func@,
            final(self).asts@ == old(self).asts@.push(Statement::Function(func)),
    {
        let copy = func.duplicate();
        self.module.add_function(copy);
        self.asts.push(Statement::Function(func));
    }

    /// Appends the block built so far to `f`.
    pub fn join_function(&mut self, f: &mut FunctionValue, basic_block: BasicBlock)
        requires
            basic_block.wf(),
        ensures
            *final(self) == *old(self),
            final(f).name == old(f).name,
            final(f).ty == old(f).ty,
            final(f).labels@.len() == old(f).labels@.len() + 1,
            forall|i: int| 0 <= i < old(f).labels@.len() ==> #[trigger] final(f).labels@[i] == old(f).labels@[i],
            final(f).labels@.last()@ == basic_block.block(),
            final(f).labels@.last()@.name == basic_block.name(),
            final(f).labels@.last()@.flags == Seq::<Seq<char>>::empty(),
            final(f).labels@.last()@.body == basic_block.body(),
    {
        f.add_label(basic_block.build());
    }
}

/// Whether an instruction is a return.
pub open spec fn is_ret(i: InstrModel) -> bool {
    i is Command && i->Command_0 is Ret
}

/// A block's instructions hold at most one return, as the last one, and a block that
/// ends in a return has its return latch set. The latch stays set once `build_ret`
/// succeeded, even if the return is later popped.
pub open spec fn terminated(body: Seq<InstrModel>, returned: bool) -> bool {
    &&& forall|i: int| 0 <= i < body.len() - 1 ==> !is_ret(#[trigger] body[i])
    &&& (body.len() > 0 && is_ret(body.last())) ==> returned
}

/// A basic block under construction.
#[derive(Debug)]
pub struct BasicBlock {
    inner: BasicBlockBuilder,
    name: String,
}

#[derive(Debug)]
struct BasicBlockBuilder {
    inner: Box<Builder>,
    index_v: usize,
    index_r: usize,
    block: Label,
    is_return: bool,
}

impl BasicBlock {
    /// The block's instructions so far.
    pub closed spec fn body(&self) -> Seq<InstrModel> {
        instrs_view(self.inner.block.body@)
    }

    /// The block as a label.
    pub closed spec fn block(&self) -> LabelModel {
        self.inner.block@
    }

    pub closed spec fn name(&self) -> Seq<char> {
        self.name@
    }

    /// Whether the block's return has been built.
    pub closed spec fn is_returned(&self) -> bool {
        self.inner.is_return
    }

    /// The index of the next `Register`-class result.
    pub closed spec fn next_register(&self) -> usize {
        self.inner.index_r
    }

    /// The functions that calls from this block resolve against.
    pub closed spec fn functions(&self) -> Seq<FunctionValue> {
        self.inner.inner.module.functions@
    }

    /// The functions of this block are, one for one, copies of `fs`.
    pub open spec fn same_functions(&self, fs: Seq<FunctionValue>) -> bool {
        &&& self.functions().len() == fs.len()
        &&& forall|i: int| 0 <= i < fs.len() ==> #[trigger] self.functions()[i]@ == fs[i]@
    }

    pub closed spec fn wf(&self) -> bool {
        &&& terminated(self.body(), self.is_returned())
        &&& self.inner.block.name == self.name
        &&& self.inner.block.flags@ == Seq::<Seq<char>>::empty()
    }

    /// The register that the next value-producing operation yields, of type `ty`.
    pub open spec fn fresh(&self, ty: TypeModel) -> RegisterModel {
        RegisterModel { index: self.next_register(), class: RegisterType::Register, ty, flags: Seq::empty() }
    }

    /// `new` is `old` after binding its fresh register of type `ty` to `producer`.
    pub open spec fn assigned(old: &BasicBlock, new: &BasicBlock, ty: TypeModel, producer: InstrModel) -> bool {
        &&& new.body() == old.body().push(InstrModel::Assign(old.fresh(ty), Box::new(producer)))
        &&& new.next_register() == old.next_register() + 1
        &&& new.is_returned() == old.is_returned()
        &&& new.name() == old.name()
        &&& new.functions() == old.functions()
        &&& new.wf()
    }

    /// The outcome of a value-producing operation that has passed its checks.
    pub open spec fn produced(
        old: &BasicBlock,
        new: &BasicBlock,
        r: Result<MirageValueEnum, BuilderError>,
        ty: TypeModel,
        producer: InstrModel,
    ) -> bool {
        &&& r is Ok
        &&& r->Ok_0@ == ValueModel::Register(old.fresh(ty))
        &&& BasicBlock::assigned(old, new, ty, producer)
    }

    /// The block refused the operation with `e` and did not change: no instruction was
    /// appended and no register index was consumed.
    pub open spec fn refused<T>(old: &BasicBlock, new: &BasicBlock, r: Result<T, BuilderError>, e: BuilderError) -> bool {
        &&& r == Err::<T, BuilderError>(e)
        &&& *new == *old
        &&& new.body() == old.body()
        &&& new.next_register() == old.next_register()
        &&& new.is_returned() == old.is_returned()
    }

    pub fn new(name: String, builder: Builder) -> (r: Self)
        ensures
            r.wf(),
            r.name() == name@,
            r.body() == Seq::<InstrModel>::empty(),
            !r.is_returned(),
            r.next_register() == 0,
            r.functions() == builder.module.functions@,
    {
        let label = Label::new(name.clone(), Flags::new(Vec::new()), Vec::new());
        proof {
            assert(label.flags@ =~= Seq::<Seq<char>>::empty());
            assert(instrs_view(label.body@) =~= Seq::<InstrModel>::empty());
        }
        Self {
            inner: BasicBlockBuilder {
                inner: Box::new(builder),
                index_v: 0,
                index_r: 0,
                block: label,
                is_return: false,
            },
            name,
        }
    }

    pub fn get_name(&self) -> (r: &str)
        ensures
            r@ == self.name(),
    {
        self.name.as_str()
    }

    proof fn lemma_push(&self, new: &BasicBlock, i: LabelBodyInstr)
        requires
            new.inner.block.body@ == self.inner.block.body@.push(i),
        ensures
            new.body() == self.body().push(i@),
    {
        assert(instrs_view(new.inner.block.body@) =~= instrs_view(self.inner.block.body@).push(i@));
    }

    /// Appends `instr`, which is no return, binding it to the fresh register of type `ty`.
    fn assign(&mut self, ty: MirageTypeEnum, instr: LabelBodyInstr) -> (r: Result<MirageValueEnum, BuilderError>)
        requires
            old(self).wf(),
            !old(self).is_returned(),
            old(self).next_register() < usize::MAX,
        ensures
            BasicBlock::produced(old(self), final(self), r, ty@, instr@),
    {
        let reg = RegisterValue::new(self.inner.index_r, RegisterType::Register, ty);
        let result = reg.duplicate();
        self.inner.index_r = self.inner.index_r + 1;
        let a = LabelBodyInstr::Assign(reg, Box::new(instr));
        let ghost before = *old(self);
        self.inner.block.body.push(a);
        proof {
            before.lemma_push(self, a);
            assert(!is_ret(a@));
        }
        Ok(MirageValueEnum::Register(result))
    }

    /// Stores the constant `value` in `reg`.
    pub fn build_store(&mut self, reg: RegisterValue, value: MirageObject) -> (r: Result<(), BuilderError>)
        requires
            old(self).wf(),
        ensures
            final(self).wf(),
            old(self).is_returned() ==> BasicBlock::refused(old(self), final(self), r, BuilderError::ReturnIsDefined),
            !old(self).is_returned() ==> {
                &&& r is Ok
                &&& final(self).body() == old(self).body().push(InstrModel::Command(
                    CommandModel::Store(reg@, OperandModel::ConstValue(value@)),
                ))
                &&& final(self).next_register() == old(self).next_register()
                &&& !final(self).is_returned()
                &&& final(self).name() == old(self).name()
                &&& final(self).functions() == old(self).functions()
            },
    {
        if self.inner.is_return {
            return Err(BuilderError::ReturnIsDefined);
        }
        let i = LabelBodyInstr::Command(Command::Store(reg, Value::ConstValue(value)));
        let ghost before = *old(self);
        self.inner.block.body.push(i);
        proof {
            before.lemma_push(self, i);
        }
        Ok(())
    }

    /// Binds a fresh register to the constant `val`.
    pub fn build_const(&mut self, val: MirageValueEnum) -> (r: Result<MirageValueEnum, BuilderError>)
        requires
            old(self).wf(),
            old(self).next_register() < usize::MAX,
        ensures
            final(self).wf(),
            old(self).is_returned() ==> BasicBlock::refused(old(self), final(self), r, BuilderError::ReturnIsDefined),
            !old(self).is_returned() && !val@.is_constant()
                ==> BasicBlock::refused(old(self), final(self), r, BuilderError::ExpectConstValue),
            !old(self).is_returned() && val@.is_constant() ==> BasicBlock::produced(
                old(self),
                final(self),
                r,
                val@.type_of(),
                InstrModel::Command(CommandModel::Const(ObjectModel { value: val@, ty: val@.type_of() })),
            ),
    {
        if self.inner.is_return {
            return Err(BuilderError::ReturnIsDefined);
        }
        if !val.is_const() {
            return Err(BuilderError::ExpectConstValue);
        }
        let ty = val.get_type();
        let obj = MirageObject::from(val);
        self.assign(ty, LabelBodyInstr::Command(Command::Const(obj)))
    }

    /// The operation of adding (`sub` false) or subtracting two operands of one width.
    fn int_arith(&mut self, lhs: IntValue, rhs: IntValue, sub: bool) -> (r: Result<MirageValueEnum, BuilderError>)
        requires
            old(self).wf(),
            old(self).next_register() < usize::MAX,
            lhs.well_sized(),
            rhs.well_sized(),
        ensures
            final(self).wf(),
            old(self).is_returned() ==> BasicBlock::refused(old(self), final(self), r, BuilderError::ReturnIsDefined),
            !old(self).is_returned() && !valid_widths(lhs, rhs)
                ==> BasicBlock::refused(old(self), final(self), r, BuilderError::DifferentSize),
            !old(self).is_returned() && valid_widths(lhs, rhs) ==> BasicBlock::produced(
                old(self),
                final(self),
                r,
                lhs@.type_of(),
                InstrModel::Command(arith_command(lhs.bits(), sub, operand_of(lhs@), operand_of(rhs@))),
            ),
    {
        if self.inner.is_return {
            return Err(BuilderError::ReturnIsDefined);
        }
        let lbits = lhs.get_max_bits();
        let rbits = rhs.get_max_bits();
        if lbits != rbits {
            return Err(BuilderError::DifferentSize);
        }
        if lbits != 8 && lbits != 16 && lbits != 32 && lbits != 64 {
            return Err(BuilderError::DifferentSize);
        }
        let lv = lhs.into_mirage_value();
        let ty = lv.get_type();
        let l = Value::from_value(lv);
        let r = Value::from_value(rhs.into_mirage_value());
        let command = if sub {
            if lbits == 8 {
                Command::SubInt8(l, r)
            } else if lbits == 16 {
                Command::SubInt16(l, r)
            } else if lbits == 32 {
                Command::SubInt32(l, r)
            } else {
                Command::SubInt64(l, r)
            }
        } else {
            if lbits == 8 {
                Command::AddInt8(l, r)
            } else if lbits == 16 {
                Command::AddInt16(l, r)
            } else if lbits == 32 {
                Command::AddInt32(l, r)
            } else {
                Command::AddInt64(l, r)
            }
        };
        self.assign(ty, LabelBodyInstr::Command(command))
    }

    /// Adds two integer operands of one width into a fresh register.
    pub fn build_int_add(&mut self, lhs: IntValue, rhs: IntValue) -> (r: Result<MirageValueEnum, BuilderError>)
        requires
            old(self).wf(),
            old(self).next_register() < usize::MAX,
            lhs.well_sized(),
            rhs.well_sized(),
        ensures
            final(self).wf(),
            old(self).is_returned() ==> BasicBlock::refused(old(self), final(self), r, BuilderError::ReturnIsDefined),
            !old(self).is_returned() && !valid_widths(lhs, rhs)
                ==> BasicBlock::refused(old(self), final(self), r, BuilderError::DifferentSize),
            !old(self).is_returned() && valid_widths(lhs, rhs) ==> BasicBlock::produced(
                old(self),
                final(self),
                r,
                lhs@.type_of(),
                InstrModel::Command(arith_command(lhs.bits(), false, operand_of(lhs@), operand_of(rhs@))),
            ),
    {
        self.int_arith(lhs, rhs, false)
    }

    /// Subtracts two integer operands of one width into a fresh register.
    pub fn build_int_sub(&mut self, lhs: IntValue, rhs: IntValue) -> (r: Result<MirageValueEnum, BuilderError>)
        requires
            old(self).wf(),
            old(self).next_register() < usize::MAX,
            lhs.well_sized(),
            rhs.well_sized(),
        ensures
            final(self).wf(),
            old(self).is_returned() ==> BasicBlock::refused(old(self), final(self), r, BuilderError::ReturnIsDefined),
            !old(self).is_returned() && !valid_widths(lhs, rhs)
                ==> BasicBlock::refused(old(self), final(self), r, BuilderError::DifferentSize),
            !old(self).is_returned() && valid_widths(lhs, rhs) ==> BasicBlock::produced(
                old(self),
                final(self),
                r,
                lhs@.type_of(),
                InstrModel::Command(arith_command(lhs.bits(), true, operand_of(lhs@), operand_of(rhs@))),
            ),
    {
        self.int_arith(lhs, rhs, true)
    }

    /// Calls the function `f_name` of the module. A result register is allocated, typed as
    /// the callee's return type, even where the callee returns nothing useful: a backend
    /// ignores such a result. Each argument is passed as a constant object holding the value.
    pub fn build_call(&mut self, f_name: String, args: Vec<MirageValueEnum>) -> (r: Result<MirageValueEnum, BuilderError>)
        requires
            old(self).wf(),
            old(self).next_register() < usize::MAX,
        ensures
            final(self).wf(),
            old(self).is_returned() ==> BasicBlock::refused(old(self), final(self), r, BuilderError::ReturnIsDefined),
            !old(self).is_returned() && function_index(old(self).functions(), f_name@) == -1
                ==> BasicBlock::refused(old(self), final(self), r, BuilderError::FunctionNotFound(f_name)),
            !old(self).is_returned() && function_index(old(self).functions(), f_name@) >= 0
                ==> BasicBlock::produced(
                old(self),
                final(self),
                r,
                old(self).functions()[function_index(old(self).functions(), f_name@)].ty.ret@,
                InstrModel::Call(f_name@, call_operands(args@)),
            ),
    {
        if self.inner.is_return {
            return Err(BuilderError::ReturnIsDefined);
        }
        let ret = match self.inner.inner.module.get_function(f_name.as_str()) {
            None => {
                return Err(BuilderError::FunctionNotFound(f_name));
            },
            Some(func) => func.ty.ret.duplicate(),
        };
        let ghost n = args@.len();
        let mut operands: Vec<Value> = Vec::new();
        let mut i: usize = 0;
        while i < args.len()
            invariant
                i <= n,
                n == args@.len(),
                operands@.len() == i,
                forall|j: int| 0 <= j < i ==> #[trigger] operands@[j]@ == const_operand(args@[j]@),
            decreases n - i,
        {
            let v = args[i].duplicate();
            operands.push(Value::ConstValue(MirageObject::from(v)));
            i = i + 1;
        }
        proof {
            assert(operands_view(operands@) =~= call_operands(args@));
        }
        self.assign(ret, LabelBodyInstr::Call(f_name, operands))
    }

    /// Ends the block by returning `val`.
    #[verifier::rlimit(50)]
    pub fn build_ret(&mut self, val: MirageValueEnum) -> (r: Result<(), BuilderError>)
        requires
            old(self).wf(),
        ensures
            final(self).wf(),
            old(self).is_returned() ==> BasicBlock::refused(old(self), final(self), r, BuilderError::ReturnIsDefined),
            !old(self).is_returned() ==> {
                &&& r is Ok
                &&& final(self).body() == old(self).body().push(InstrModel::Command(CommandModel::Ret(operand_of(val@))))
                &&& final(self).is_returned()
                &&& final(self).next_register() == old(self).next_register()
                &&& final(self).name() == old(self).name()
                &&& final(self).functions() == old(self).functions()
            },
    {
        if self.inner.is_return {
            return Err(BuilderError::ReturnIsDefined);
        }
        self.inner.is_return = true;
        let i = LabelBodyInstr::Command(Command::Ret(Value::from_value(val)));
        let ghost before = *old(self);
        self.inner.block.body.push(i);
        proof {
            before.lemma_push(self, i);
        }
        Ok(())
    }

    /// Takes the address of `val` into a fresh register of pointer type.
    pub fn build_ref(&mut self, val: MirageValueEnum) -> (r: Result<MirageValueEnum, BuilderError>)
        requires
            old(self).wf(),
            old(self).next_register() < usize::MAX,
        ensures
            final(self).wf(),
            old(self).is_returned() ==> BasicBlock::refused(old(self), final(self), r, BuilderError::ReturnIsDefined),
            !old(self).is_returned() ==> BasicBlock::produced(
                old(self),
                final(self),
                r,
                TypeModel::Pointer(Box::new(val@.type_of())),
                InstrModel::Command(CommandModel::Ref(operand_of(val@))),
            ),
    {
        if self.inner.is_return {
            return Err(BuilderError::ReturnIsDefined);
        }
        let ty = MirageTypeEnum::Pointer(MirageTypeEnum::type_ptr(val.get_type()));
        self.assign(ty, LabelBodyInstr::Command(Command::Ref(Value::from_value(val))))
    }

    /// Loads a value of type `ty` through `val` into a fresh register.
    pub fn build_load(&mut self, ty: MirageTypeEnum, val: MirageValueEnum) -> (r: Result<MirageValueEnum, BuilderError>)
        requires
            old(self).wf(),
            old(self).next_register() < usize::MAX,
        ensures
            final(self).wf(),
            old(self).is_returned() ==> BasicBlock::refused(old(self), final(self), r, BuilderError::ReturnIsDefined),
            !old(self).is_returned() ==> BasicBlock::produced(
                old(self),
                final(self),
                r,
                ty@,
                InstrModel::Command(CommandModel::Load(ty@, operand_of(val@))),
            ),
    {
        if self.inner.is_return {
            return Err(BuilderError::ReturnIsDefined);
        }
        let reg_ty = ty.duplicate();
        self.assign(reg_ty, LabelBodyInstr::Command(Command::Load(ty, Value::from_value(val))))
    }

    /// Computes the address of an element of `ptr`, of type `out`, into a fresh register of type `real_ty`.
    pub fn build_getelementptr(
        &mut self,
        real_ty: MirageTypeEnum,
        out: MirageTypeEnum,
        ptr: MirageValueEnum,
        indices: Vec<MirageValueEnum>,
    ) -> (r: Result<MirageValueEnum, BuilderError>)
        requires
            old(self).wf(),
            old(self).next_register() < usize::MAX,
        ensures
            final(self).wf(),
            old(self).is_returned() ==> BasicBlock::refused(old(self), final(self), r, BuilderError::ReturnIsDefined),
            !old(self).is_returned() ==> BasicBlock::produced(
                old(self),
                final(self),
                r,
                real_ty@,
                InstrModel::Command(CommandModel::GetElementPtr(out@, operand_of(ptr@), index_operands(indices@))),
            ),
    {
        if self.inner.is_return {
            return Err(BuilderError::ReturnIsDefined);
        }
        let n = indices.len();
        let ghost given = indices@;
        let mut operands: Vec<Value> = Vec::new();
        let mut i: usize = 0;
        while i < n
            invariant
                n == indices@.len(),
                given == indices@,
                i <= n,
                operands@.len() == i,
                forall|j: int| 0 <= j < i ==> #[trigger] operands@[j]@ == operand_of(given[j]@),
            decreases n - i,
        {
            operands.push(Value::from_value(indices[i].duplicate()));
            i = i + 1;
        }
        proof {
            assert(operands_view(operands@) =~= index_operands(given));
        }
        self.assign(real_ty, LabelBodyInstr::Command(Command::GetElementPtr(out, Value::from_value(ptr), operands)))
    }

    /// The block built so far.
    pub fn build(&self) -> (r: Label)
        requires
            self.wf(),
        ensures
            r@ == self.block(),
            r@.name == self.name(),
            r@.flags == Seq::<Seq<char>>::empty(),
            r@.body == self.body(),
    {
        self.inner.block.duplicate()
    }

    /// Removes the last instruction. The return latch is left as it is: once `build_ret`
    /// succeeded, the block accepts nothing more, even after its return is popped.
    pub fn pop_instr(&mut self) -> (r: Option<LabelBodyInstr>)
        requires
            old(self).wf(),
        ensures
            final(self).wf(),
            old(self).body().len() == 0 ==> r is None && *final(self) == *old(self),
            old(self).body().len() > 0 ==> {
                &&& r is Some
                &&& r->0@ == old(self).body().last()
                &&& final(self).body() == old(self).body().drop_last()
                &&& final(self).is_returned() == old(self).is_returned()
                &&& final(self).next_register() == old(self).next_register()
                &&& final(self).name() == old(self).name()
                &&& final(self).functions() == old(self).functions()
            },
    {
        if self.inner.block.body.len() == 0 {
            return None;
        }
        let r = self.inner.block.body.pop();
        proof {
            assert(instrs_view(self.inner.block.body@) =~= instrs_view(old(self).inner.block.body@).drop_last());
            let b = self.body();
            let o = old(self).body();
            assert forall|i: int| 0 <= i < b.len() - 1 implies !is_ret(#[trigger] b[i]) by {
                assert(b[i] == o[i]);
            }
            if b.len() > 0 && is_ret(b.last()) {
                assert(b.last() == o[b.len() - 1]);
            }
        }
        r
    }
}

/// A block the builder accepted holds at most one return, as its last instruction,
/// and a block that holds one reports itself returned, so that every further
/// `build_*` on it is refused with `ReturnIsDefined`.
pub proof fn lemma_terminator_discipline(b: &BasicBlock)
    requires
        b.wf(),
    ensures
        forall|i: int| 0 <= i < b.body().len() && is_ret(#[trigger] b.body()[i]) ==> i == b.body().len() - 1,
        (b.body().len() > 0 && is_ret(b.body().last())) ==> b.is_returned(),
{
    reveal(BasicBlock::wf);
}

/// Both operands have one width, of 8, 16, 32 or 64 bits.
pub open spec fn valid_widths(lhs: IntValue, rhs: IntValue) -> bool {
    &&& lhs.bits() == rhs.bits()
    &&& lhs.bits() == 8 || lhs.bits() == 16 || lhs.bits() == 32 || lhs.bits() == 64
}

/// The width-specific addition or subtraction.
pub open spec fn arith_command(bits: nat, sub: bool, l: OperandModel, r: OperandModel) -> CommandModel {
    if sub {
        if bits == 8 {
            CommandModel::SubInt8(l, r)
        } else if bits == 16 {
            CommandModel::SubInt16(l, r)
        } else if bits == 32 {
            CommandModel::SubInt32(l, r)
        } else {
            CommandModel::SubInt64(l, r)
        }
    } else {
        if bits == 8 {
            CommandModel::AddInt8(l, r)
        } else if bits == 16 {
            CommandModel::AddInt16(l, r)
        } else if bits == 32 {
            CommandModel::AddInt32(l, r)
        } else {
            CommandModel::AddInt64(l, r)
        }
    }
}

/// A call argument: the value, register or not, carried as a constant object.
pub open spec fn const_operand(v: ValueModel) -> OperandModel {
    OperandModel::ConstValue(ObjectModel { value: v, ty: v.type_of() })
}

pub open spec fn call_operands(args: Seq<MirageValueEnum>) -> Seq<OperandModel> {
    args.map_values(|a: MirageValueEnum| const_operand(a@))
}

pub open spec fn index_operands(indices: Seq<MirageValueEnum>) -> Seq<OperandModel> {
    indices.map_values(|a: MirageValueEnum| operand_of(a@))
}

} // verus!
