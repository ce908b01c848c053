use mirage::builder::{BasicBlock, Builder, BuilderError};
use mirage::function::FunctionType;
use mirage::label::{Command, LabelBodyInstr, Value};
use mirage::module::Module;
use mirage::statements::{Arch, Compiler, External, Global, ModuleDecl, Os, Statement, Target};
use mirage::types::MirageTypeEnum;
use mirage::values::{MirageObject, MirageValueEnum, RegisterType, RegisterValue};

fn int32_fn_type() -> FunctionType {
    FunctionType::new(
        vec![MirageTypeEnum::type_int32().into(), MirageTypeEnum::type_int32().into()],
        MirageTypeEnum::type_int32().into(),
    )
}

fn int32(v: i32) -> MirageValueEnum {
    MirageTypeEnum::type_int32().const_value(v).to_value_enum()
}

#[test]
fn test_module_name() {
    let builder = Builder::new(Module::new("name".to_string()));

    assert_eq!(builder.asts[0], Statement::Module(ModuleDecl::new("name".to_string())));
}

#[test]
fn test_target_triple() {
    let mut builder = Builder::new(Module::new("name".to_string()));

    builder.set_target_triple("linux", "x86", "gcc");

    assert_eq!(builder.asts[1], Statement::Target(Target::new(Os::Linux, Arch::X86, Compiler::Gcc)));
}

#[test]
fn test_target() {
    let mut builder = Builder::new(Module::new("name".to_string()));

    builder.set_target("linux-x86-gcc");

    assert_eq!(builder.asts[1], Statement::Target(Target::new(Os::Linux, Arch::X86, Compiler::Gcc)));
}

#[test]
fn test_extern() {
    let mut builder = Builder::new(Module::new("name".to_string()));
    let fn_type = int32_fn_type();

    builder.build_extern("add".to_string(), fn_type.clone());

    assert_eq!(builder.asts[1], Statement::External(External::new("add".to_string(), fn_type)));
}

#[test]
fn test_global() {
    let mut builder = Builder::new(Module::new("name".to_string()));
    let value = MirageTypeEnum::type_int32().const_value(12).to_value_enum();
    let obj = MirageObject::from(value.clone());

    let reg = builder.build_global(obj.clone());

    assert_eq!(builder.asts[1], Statement::Global(Global::new("g0".to_string(), obj)));
    assert_eq!(reg, MirageValueEnum::Register(RegisterValue::new(0, RegisterType::Global, MirageTypeEnum::type_int32().into())));
}

#[test]
fn test_function() {
    let mut builder = Builder::new(Module::new("name".to_string()));
    let fn_type = int32_fn_type();
    let func = fn_type.fn_value("add".to_string());

    builder.build_function(func.clone());

    assert_eq!(builder.asts[1], Statement::Function(func));
}

#[test]
fn test_add() {
    let mut builder = Builder::new(Module::new("name".to_string()));
    let fn_type = int32_fn_type();
    let mut func = fn_type.fn_value("add".to_string());
    let lhs = func.get_nth_arg(0).unwrap();
    let rhs = func.get_nth_arg(1).unwrap();
    let mut basic_block = builder.new_basic_block("entry");
    let res = basic_block
        .build_int_add(lhs.expect_int_value().unwrap(), rhs.expect_int_value().unwrap())
        .unwrap();

    builder.join_function(&mut func, basic_block);
    assert_eq!(res, MirageValueEnum::Register(RegisterValue::new(0, RegisterType::Register, MirageTypeEnum::type_int32().into())));
    let label = &func.get_labels()[0];
    assert_eq!(label.name, "entry");
    assert_eq!(
        label.body,
        vec![LabelBodyInstr::Assign(
            RegisterValue::new(0, RegisterType::Register, MirageTypeEnum::type_int32().into()),
            Box::new(LabelBodyInstr::Command(Command::AddInt32(
                Value::Register(RegisterValue::new(0, RegisterType::Argument, MirageTypeEnum::type_int32().into())),
                Value::Register(RegisterValue::new(1, RegisterType::Argument, MirageTypeEnum::type_int32().into())),
            ))),
        )]
    );
}

#[test]
fn set_target_replaces_the_previous_target() {
    let mut builder = Builder::new(Module::new("name".to_string()));
    builder.set_target("linux-x86-gcc");
    builder.set_target_triple("windows", "arm64", "msvc");
    assert_eq!(builder.asts.len(), 2);
    assert_eq!(builder.asts[1], Statement::Target(Target::new(Os::Windows, Arch::Arm64, Compiler::Msvc)));
}

#[test]
fn every_build_after_ret_is_refused() {
    let mut builder = Builder::new(Module::new("m".to_string()));
    builder.build_extern("f".to_string(), int32_fn_type());
    let mut block = builder.new_basic_block("entry");
    let c = block.build_const(int32(5)).unwrap();
    block.build_ret(c.clone()).unwrap();
    let before = block.build();

    assert_eq!(block.build_const(int32(1)), Err(BuilderError::ReturnIsDefined));
    assert_eq!(block.build_ret(int32(1)), Err(BuilderError::ReturnIsDefined));
    assert_eq!(block.build_call("f".to_string(), vec![]), Err(BuilderError::ReturnIsDefined));
    assert_eq!(block.build_ref(c.clone()), Err(BuilderError::ReturnIsDefined));
    assert_eq!(block.build_load(MirageTypeEnum::type_int32().into(), c.clone()), Err(BuilderError::ReturnIsDefined));
    assert_eq!(
        block.build_int_add(int32(1).expect_int_value().unwrap(), int32(2).expect_int_value().unwrap()),
        Err(BuilderError::ReturnIsDefined)
    );
    assert_eq!(
        block.build_int_sub(int32(1).expect_int_value().unwrap(), int32(2).expect_int_value().unwrap()),
        Err(BuilderError::ReturnIsDefined)
    );
    let reg = RegisterValue::new(0, RegisterType::Register, MirageTypeEnum::type_int32().into());
    assert_eq!(block.build_store(reg, MirageObject::from(int32(3))), Err(BuilderError::ReturnIsDefined));
    assert_eq!(
        block.build_getelementptr(MirageTypeEnum::type_int32().into(), MirageTypeEnum::type_int32().into(), c, vec![]),
        Err(BuilderError::ReturnIsDefined)
    );

    let after = block.build();
    assert_eq!(after, before);
    assert_eq!(after.body.len(), 2);
    assert!(matches!(after.body[1], LabelBodyInstr::Command(Command::Ret(_))));
}

#[test]
fn popping_the_return_keeps_the_block_closed() {
    let mut builder = Builder::new(Module::new("m".to_string()));
    builder.build_extern("f".to_string(), int32_fn_type());
    let mut block = builder.new_basic_block("b");
    assert_eq!(block.pop_instr(), None);
    block.build_ret(int32(0)).unwrap();
    let popped = block.pop_instr().unwrap();
    assert!(matches!(popped, LabelBodyInstr::Command(Command::Ret(_))));
    assert_eq!(block.build().body.len(), 0);
    assert_eq!(block.build_const(int32(1)), Err(BuilderError::ReturnIsDefined));
    assert_eq!(block.build_ret(int32(1)), Err(BuilderError::ReturnIsDefined));
    assert_eq!(block.build_call("missing_fn".to_string(), vec![]), Err(BuilderError::ReturnIsDefined));
    assert_eq!(block.build_call("f".to_string(), vec![]), Err(BuilderError::ReturnIsDefined));
    let reg = RegisterValue::new(0, RegisterType::Register, MirageTypeEnum::type_int32().into());
    assert_eq!(block.build_store(reg, MirageObject::from(int32(3))), Err(BuilderError::ReturnIsDefined));
    assert_eq!(block.build().body.len(), 0);
}

#[test]
fn different_widths_are_rejected_without_allocating() {
    let builder = Builder::new(Module::new("m".to_string()));
    let mut block = BasicBlock::new("b".to_string(), builder);
    let a = MirageTypeEnum::type_int8().const_value(1).to_value_enum().expect_int_value().unwrap();
    let b = int32(2).expect_int_value().unwrap();
    assert_eq!(block.build_int_add(a, b), Err(BuilderError::DifferentSize));
    let a = MirageTypeEnum::type_int64().const_value(1).to_value_enum().expect_int_value().unwrap();
    let b = int32(2).expect_int_value().unwrap();
    assert_eq!(block.build_int_sub(a, b), Err(BuilderError::DifferentSize));
    assert_eq!(block.build().body.len(), 0);
    let r = block.build_const(int32(1)).unwrap();
    assert_eq!(r, MirageValueEnum::Register(RegisterValue::new(0, RegisterType::Register, MirageTypeEnum::type_int32().into())));
}

#[test]
fn sub_of_int16_operands() {
    let builder = Builder::new(Module::new("m".to_string()));
    let mut block = BasicBlock::new("b".to_string(), builder);
    let a = MirageTypeEnum::type_int16().const_value(7).to_value_enum().expect_int_value().unwrap();
    let b = MirageTypeEnum::type_int16().const_value(2).to_value_enum().expect_int_value().unwrap();
    block.build_int_sub(a, b).unwrap();
    let label = block.build();
    match &label.body[0] {
        LabelBodyInstr::Assign(r, inner) => {
            assert_eq!(r.index, 0);
            assert!(matches!(**inner, LabelBodyInstr::Command(Command::SubInt16(_, _))));
        },
        other => panic!("unexpected {:?}", other),
    }
}

#[test]
fn build_const_refuses_registers_and_pointers() {
    let builder = Builder::new(Module::new("m".to_string()));
    let mut block = BasicBlock::new("b".to_string(), builder);
    let reg = MirageValueEnum::Register(RegisterValue::new(3, RegisterType::Variable, MirageTypeEnum::type_int32().into()));
    assert_eq!(block.build_const(reg), Err(BuilderError::ExpectConstValue));
    let ptr = MirageValueEnum::Pointer(mirage::values::PointerValue::new(MirageTypeEnum::type_ptr(MirageTypeEnum::type_int8().into())));
    assert!(!ptr.is_const());
    assert_eq!(block.build_const(ptr), Err(BuilderError::ExpectConstValue));
    assert_eq!(block.build().body.len(), 0);
    let r = block.build_const(int32(9)).unwrap();
    assert_eq!(r, MirageValueEnum::Register(RegisterValue::new(0, RegisterType::Register, MirageTypeEnum::type_int32().into())));
}

#[test]
fn calling_an_undeclared_function_fails() {
    let builder = Builder::new(Module::new("m".to_string()));
    let mut block = BasicBlock::new("b".to_string(), builder);
    assert_eq!(
        block.build_call("missing_fn".to_string(), vec![]),
        Err(BuilderError::FunctionNotFound("missing_fn".to_string()))
    );
    assert_eq!(block.build().body.len(), 0);
}

#[test]
fn calling_a_declared_function_yields_its_return_type() {
    let mut builder = Builder::new(Module::new("m".to_string()));
    builder.build_extern(
        "puts".to_string(),
        FunctionType::new(vec![MirageTypeEnum::type_int64().into()], MirageTypeEnum::type_uint8().into()),
    );
    let mut block = builder.new_basic_block("entry");
    let r = block.build_call("puts".to_string(), vec![MirageTypeEnum::type_int64().const_value(4).to_value_enum()]).unwrap();
    assert_eq!(r, MirageValueEnum::Register(RegisterValue::new(0, RegisterType::Register, MirageTypeEnum::type_uint8().into())));
    match &block.build().body[0] {
        LabelBodyInstr::Assign(_, inner) => match &**inner {
            LabelBodyInstr::Call(name, args) => {
                assert_eq!(name, "puts");
                assert_eq!(args.len(), 1);
                assert_eq!(args[0], Value::ConstValue(MirageObject::from(MirageTypeEnum::type_int64().const_value(4).to_value_enum())));
            },
            other => panic!("unexpected {:?}", other),
        },
        other => panic!("unexpected {:?}", other),
    }
}

#[test]
fn a_block_sees_only_functions_declared_before_it() {
    let mut builder = Builder::new(Module::new("m".to_string()));
    let mut block = builder.new_basic_block("entry");
    builder.build_function(int32_fn_type().fn_value("late".to_string()));
    assert_eq!(block.build_call("late".to_string(), vec![]), Err(BuilderError::FunctionNotFound("late".to_string())));
}

#[test]
fn ref_load_and_getelementptr_allocate_in_order() {
    let builder = Builder::new(Module::new("m".to_string()));
    let mut block = BasicBlock::new("b".to_string(), builder);
    let c = block.build_const(int32(1)).unwrap();
    let p = block.build_ref(c).unwrap();
    assert_eq!(p.get_type(), MirageTypeEnum::Pointer(MirageTypeEnum::type_ptr(MirageTypeEnum::type_int32().into())));
    let l = block.build_load(MirageTypeEnum::type_int32().into(), p.clone()).unwrap();
    assert_eq!(l, MirageValueEnum::Register(RegisterValue::new(2, RegisterType::Register, MirageTypeEnum::type_int32().into())));
    let g = block
        .build_getelementptr(MirageTypeEnum::type_int64().into(), MirageTypeEnum::type_int32().into(), p, vec![int32(0)])
        .unwrap();
    assert_eq!(g, MirageValueEnum::Register(RegisterValue::new(3, RegisterType::Register, MirageTypeEnum::type_int64().into())));
    assert_eq!(block.build().body.len(), 4);
    assert_eq!(block.get_name(), "b");
}

#[test]
fn globals_are_numbered_in_order() {
    let mut builder = Builder::new(Module::new("m".to_string()));
    builder.build_global(MirageObject::from(int32(1)));
    let r = builder.build_global(MirageObject::from(int32(2)));
    assert_eq!(r, MirageValueEnum::Register(RegisterValue::new(1, RegisterType::Global, MirageTypeEnum::type_int32().into())));
    assert_eq!(builder.module.get_global("g1").unwrap().value, MirageObject::from(int32(2)));
    assert!(builder.module.get_global("g2").is_none());
    assert_eq!(builder.index_g, 2);
}
