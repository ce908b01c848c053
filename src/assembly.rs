use vstd::prelude::*;
use vstd::string::*;

verus! {

/// The width of a datum in a data section.
#[derive(Debug, Clone, Copy, PartialEq, Eq, Structural)]
pub enum AsmDataType {
    Byte,
    Word,
    Dword,
    Qword,
    String,
}

/// The contents of a datum.
#[derive(Debug, Clone, PartialEq)]
pub enum AsmDataValue {
    Byte(u8),
    String(String),
    Word(u16),
    Dword(u32),
    Qword(u64),
}

/// A labelled datum of a data section.
#[derive(Debug, Clone, PartialEq)]
pub struct AsmData {
    pub label: String,
    pub data_type: AsmDataType,
    pub data: AsmDataValue,
}

/// An operation of the target machine.
#[derive(Debug, Clone, Copy, PartialEq, Eq, Structural)]
pub enum AsmCommand {
    Mov,
    Add,
    Sub,
    Mul,
    Div,
    Jmp,
    Call,
}

/// One machine instruction: an operation and its operands.
#[derive(Debug, Clone, PartialEq)]
pub struct Asm {
    pub asm_op: AsmCommand,
    pub asm_arg: Vec<AsmArg>,
}

impl Asm {
    pub fn new(asm_op: AsmCommand, asm_arg: Vec<AsmArg>) -> (r: Self)
        ensures
            r.asm_op == asm_op,
            r.asm_arg == asm_arg,
    {
        Self { asm_op, asm_arg }
    }
}

/// An operand of a machine instruction.
#[derive(Debug, Clone, PartialEq)]
pub enum AsmArg {
    Reg(Reg),
    Mem(Reg, i64),
    Imm(i64),
    Label(String),
    Empty,
}

/// A machine register.
#[derive(Debug, Clone, Copy, PartialEq, Eq, Structural)]
pub enum Reg {
    R0,
    R1,
    R2,
    R3,
    R4,
    R5,
    R6,
    R7,
    R8,
    R9,
    R10,
    R11,
    R12,
    R13,
    R14,
    R15,
}

/// The number of machine registers.
pub const REG_COUNT: usize = 16;

impl Reg {
    /// The number of this register.
    pub open spec fn number(self) -> nat {
        match self {
            Reg::R0 => 0,
            Reg::R1 => 1,
            Reg::R2 => 2,
            Reg::R3 => 3,
            Reg::R4 => 4,
            Reg::R5 => 5,
            Reg::R6 => 6,
            Reg::R7 => 7,
            Reg::R8 => 8,
            Reg::R9 => 9,
            Reg::R10 => 10,
            Reg::R11 => 11,
            Reg::R12 => 12,
            Reg::R13 => 13,
            Reg::R14 => 14,
            Reg::R15 => 15,
        }
    }

    pub fn index(&self) -> (r: usize)
        ensures
            r == self.number(),
            r < REG_COUNT,
    {
        match self {
            Reg::R0 => 0,
            Reg::R1 => 1,
            Reg::R2 => 2,
            Reg::R3 => 3,
            Reg::R4 => 4,
            Reg::R5 => 5,
            Reg::R6 => 6,
            Reg::R7 => 7,
            Reg::R8 => 8,
            Reg::R9 => 9,
            Reg::R10 => 10,
            Reg::R11 => 11,
            Reg::R12 => 12,
            Reg::R13 => 13,
            Reg::R14 => 14,
            Reg::R15 => 15,
        }
    }

    /// Every register, in order of number.
    pub fn all() -> (r: Vec<Reg>)
        ensures
            r@.len() == REG_COUNT,
            forall|i: int| 0 <= i < REG_COUNT ==> (#[trigger] r@[i]).number() == i,
    {
        let r = vec![Reg::R0, Reg::R1, Reg::R2, Reg::R3, Reg::R4, Reg::R5, Reg::R6, Reg::R7, Reg::R8, Reg::R9, Reg::R10, Reg::R11, Reg::R12, Reg::R13, Reg::R14, Reg::R15];
        r
    }
}

/// A labelled sequence of machine instructions.
#[derive(Debug, Clone, PartialEq)]
pub struct AsmLabel {
    pub label: String,
    pub code: Vec<Asm>,
}

impl AsmLabel {
    pub fn new(label: String) -> (r: Self)
        ensures
            r.label == label,
            r.code@ == Seq::<Asm>::empty(),
    {
        Self { label, code: Vec::new() }
    }

    /// A builder for a new, empty label of the same name.
    pub fn builder(&self) -> (r: AsmLabelBuilder)
        ensures
            r.label.label@ == self.label@,
            r.label.code@ == Seq::<Asm>::empty(),
    {
        AsmLabelBuilder::new(self.label.as_str())
    }

    pub fn add_asm(&mut self, instr: Asm)
        ensures
            final(self).label == old(self).label,
            final(self).code@ == old(self).code@.push(instr),
    {
        self.code.push(instr);
    }
}

/// A program: its labels and its data, in order.
#[derive(Debug, Clone, PartialEq)]
pub struct AsmProgram {
    pub labels: Vec<AsmLabel>,
    pub data: Vec<AsmData>,
}

impl AsmProgram {
    pub fn new() -> (r: Self)
        ensures
            r.labels@ == Seq::<AsmLabel>::empty(),
            r.data@ == Seq::<AsmData>::empty(),
    {
        Self { labels: Vec::new(), data: Vec::new() }
    }

    pub fn add_label(&mut self, label: AsmLabel)
        ensures
            final(self).labels@ == old(self).labels@.push(label),
            final(self).data == old(self).data,
    {
        self.labels.push(label);
    }

    pub fn add_data(&mut self, data: AsmData)
        ensures
            final(self).labels == old(self).labels,
            final(self).data@ == old(self).data@.push(data),
    {
        self.data.push(data);
    }
}

/// Builds a program label by label.
#[derive(Debug, Clone, PartialEq)]
pub struct AsmProgramBuilder {
    pub program: AsmProgram,
}

impl AsmProgramBuilder {
    pub fn new() -> (r: Self)
        ensures
            r.program.labels@ == Seq::<AsmLabel>::empty(),
            r.program.data@ == Seq::<AsmData>::empty(),
    {
        Self { program: AsmProgram::new() }
    }

    pub fn build_label(&mut self, label: AsmLabel)
        ensures
            final(self).program.labels@ == old(self).program.labels@.push(label),
            final(self).program.data == old(self).program.data,
    {
        self.program.add_label(label)
    }

    pub fn build(self) -> (r: AsmProgram)
        ensures
            r == self.program,
    {
        self.program
    }
}

/// Builds a label instruction by instruction.
#[derive(Debug, Clone, PartialEq)]
pub struct AsmLabelBuilder {
    pub label: AsmLabel,
}

impl AsmLabelBuilder {
    pub fn from(l: AsmLabel) -> (r: Self)
        ensures
            r.label == l,
    {
        Self { label: l }
    }

    pub fn new(name: &str) -> (r: Self)
        ensures
            r.label.label@ == name@,
            r.label.code@ == Seq::<Asm>::empty(),
    {
        Self { label: AsmLabel::new(String::from_str(name)) }
    }

    /// Appends `mov` with its two operands.
    pub fn build_mov(&mut self, arg1: AsmArg, arg2: AsmArg)
        ensures
            final(self).label.label == old(self).label.label,
            final(self).label.code@.len() == old(self).label.code@.len() + 1,
            forall|i: int| 0 <= i < old(self).label.code@.len() ==> #[trigger] final(self).label.code@[i] == old(self).label.code@[i],
            final(self).label.code@.last().asm_op == AsmCommand::Mov,
            final(self).label.code@.last().asm_arg@ == seq![arg1, arg2],
    {
        let args = vec![arg1, arg2];
        self.label.add_asm(Asm::new(AsmCommand::Mov, args));
    }

    /// Appends `add` with its two operands.
    pub fn build_add(&mut self, arg1: AsmArg, arg2: AsmArg)
        ensures
            final(self).label.label == old(self).label.label,
            final(self).label.code@.len() == old(self).label.code@.len() + 1,
            forall|i: int| 0 <= i < old(self).label.code@.len() ==> #[trigger] final(self).label.code@[i] == old(self).label.code@[i],
            final(self).label.code@.last().asm_op == AsmCommand::Add,
            final(self).label.code@.last().asm_arg@ == seq![arg1, arg2],
    {
        let args = vec![arg1, arg2];
        self.label.add_asm(Asm::new(AsmCommand::Add, args));
    }

    /// Appends `sub` with its two operands.
    pub fn build_sub(&mut self, arg1: AsmArg, arg2: AsmArg)
        ensures
            final(self).label.label == old(self).label.label,
            final(self).label.code@.len() == old(self).label.code@.len() + 1,
            forall|i: int| 0 <= i < old(self).label.code@.len() ==> #[trigger] final(self).label.code@[i] == old(self).label.code@[i],
            final(self).label.code@.last().asm_op == AsmCommand::Sub,
            final(self).label.code@.last().asm_arg@ == seq![arg1, arg2],
    {
        let args = vec![arg1, arg2];
        self.label.add_asm(Asm::new(AsmCommand::Sub, args));
    }

    /// Appends `mul` with its two operands.
    pub fn build_mul(&mut self, arg1: AsmArg, arg2: AsmArg)
        ensures
            final(self).label.label == old(self).label.label,
            final(self).label.code@.len() == old(self).label.code@.len() + 1,
            forall|i: int| 0 <= i < old(self).label.code@.len() ==> #[trigger] final(self).label.code@[i] == old(self).label.code@[i],
            final(self).label.code@.last().asm_op == AsmCommand::Mul,
            final(self).label.code@.last().asm_arg@ == seq![arg1, arg2],
    {
        let args = vec![arg1, arg2];
        self.label.add_asm(Asm::new(AsmCommand::Mul, args));
    }

    /// Appends `div` with its two operands.
    pub fn build_div(&mut self, arg1: AsmArg, arg2: AsmArg)
        ensures
            final(self).label.label == old(self).label.label,
            final(self).label.code@.len() == old(self).label.code@.len() + 1,
            forall|i: int| 0 <= i < old(self).label.code@.len() ==> #[trigger] final(self).label.code@[i] == old(self).label.code@[i],
            final(self).label.code@.last().asm_op == AsmCommand::Div,
            final(self).label.code@.last().asm_arg@ == seq![arg1, arg2],
    {
        let args = vec![arg1, arg2];
        self.label.add_asm(Asm::new(AsmCommand::Div, args));
    }

    /// Appends `jmp` with its operand.
    pub fn build_jmp(&mut self, arg1: AsmArg)
        ensures
            final(self).label.label == old(self).label.label,
            final(self).label.code@.len() == old(self).label.code@.len() + 1,
            forall|i: int| 0 <= i < old(self).label.code@.len() ==> #[trigger] final(self).label.code@[i] == old(self).label.code@[i],
            final(self).label.code@.last().asm_op == AsmCommand::Jmp,
            final(self).label.code@.last().asm_arg@ == seq![arg1],
    {
        let args = vec![arg1];
        self.label.add_asm(Asm::new(AsmCommand::Jmp, args));
    }

    /// Appends `call` with its operand.
    pub fn build_call(&mut self, arg1: AsmArg)
        ensures
            final(self).label.label == old(self).label.label,
            final(self).label.code@.len() == old(self).label.code@.len() + 1,
            forall|i: int| 0 <= i < old(self).label.code@.len() ==> #[trigger] final(self).label.code@[i] == old(self).label.code@[i],
            final(self).label.code@.last().asm_op == AsmCommand::Call,
            final(self).label.code@.last().asm_arg@ == seq![arg1],
    {
        let args = vec![arg1];
        self.label.add_asm(Asm::new(AsmCommand::Call, args));
    }

    pub fn build(self) -> (r: AsmLabel)
        ensures
            r == self.label,
    {
        self.label
    }
}

} // verus!
