use mirage::builder::Builder;
use mirage::function::FunctionType;
use mirage::label::{Command, LabelBodyInstr, Value};
use mirage::meta::Flag;
use mirage::module::Module;
use mirage::opti::{optimize, OptiLevel};
use mirage::statements::{Global, Statement};
use mirage::stringify::Stringify;
use mirage::types::MirageTypeEnum;
use mirage::values::{MirageObject, MirageValueEnum, RegisterType, RegisterValue};

fn int32(v: i32) -> MirageValueEnum {
    MirageTypeEnum::type_int32().const_value(v).to_value_enum()
}

fn five_chain_program() -> Vec<Statement> {
    // r0 = const 5; r1 = const r0; ret r1
    let mut builder = Builder::new(Module::new("m".to_string()));
    let mut func = FunctionType::new(vec![], MirageTypeEnum::type_int32().into()).fn_value("main".to_string());
    let mut block = builder.new_basic_block("entry");
    let reg0 = block.build_const(int32(5)).unwrap().expect_register_value().unwrap();
    let mut label = block.build();
    let reg1 = RegisterValue::new(1, RegisterType::Register, MirageTypeEnum::type_int32().into());
    label.body.push(LabelBodyInstr::Assign(
        reg1.clone(),
        Box::new(LabelBodyInstr::Command(Command::Const(MirageObject::from(MirageValueEnum::Register(reg0))))),
    ));
    label.body.push(LabelBodyInstr::Command(Command::Ret(Value::Register(reg1))));
    func.add_label(label);
    builder.build_function(func);
    builder.asts
}

fn function_body(stmts: &[Statement], at: usize) -> Vec<LabelBodyInstr> {
    match &stmts[at] {
        Statement::Function(f) => f.get_labels()[0].body.clone(),
        other => panic!("not a function: {:?}", other),
    }
}

#[test]
fn constants_propagate_through_a_chain() {
    let out = optimize(OptiLevel::O1, five_chain_program());
    let body = function_body(&out, 1);
    assert_eq!(body[2], LabelBodyInstr::Command(Command::Ret(Value::ConstValue(MirageObject::from(int32(5))))));
    match &body[1] {
        LabelBodyInstr::Assign(_, inner) => {
            assert_eq!(**inner, LabelBodyInstr::Command(Command::Const(MirageObject::from(int32(5)))));
        },
        other => panic!("unexpected {:?}", other),
    }
    // The dead definitions stay.
    assert_eq!(body.len(), 3);
}

#[test]
fn folded_return_equals_a_direct_constant_return() {
    let out = optimize(OptiLevel::O1, five_chain_program());
    let body = function_body(&out, 1);
    let direct = LabelBodyInstr::Command(Command::Ret(Value::from_value(int32(5))));
    assert_eq!(body[2], direct);
}

#[test]
fn optimizing_twice_equals_optimizing_once() {
    let once = optimize(OptiLevel::O1, five_chain_program());
    let twice = optimize(OptiLevel::O1, once.clone());
    assert_eq!(once, twice);
}

#[test]
fn single_block_functions_are_tagged_inline() {
    let out = optimize(OptiLevel::O1, five_chain_program());
    match &out[1] {
        Statement::Function(f) => {
            assert!(f.get_labels()[0].flags.contains(&Flag::new("inline".to_string())));
            assert_eq!(f.get_labels()[0].flags.inner.len(), 1);
        },
        other => panic!("unexpected {:?}", other),
    }
}

#[test]
fn o0_and_unsupported_levels_leave_the_program() {
    let program = five_chain_program();
    assert_eq!(optimize(OptiLevel::O0, program.clone()), program);
    assert_eq!(optimize(OptiLevel::O3, program.clone()), program);
    assert_eq!(OptiLevel::O2.as_str(), "O2");
}

fn sum_program(ty: MirageTypeEnum, a: MirageValueEnum, b: MirageValueEnum, sub: bool) -> Vec<Statement> {
    let mut builder = Builder::new(Module::new("test".to_string()));
    let fn_type = FunctionType::new(vec![ty.clone(), ty.clone()], ty);
    let mut func = fn_type.fn_value("add".to_string());
    let mut block = builder.new_basic_block("entry");
    let a = block.build_const(a).unwrap();
    let b = block.build_const(b).unwrap();
    let e = if sub {
        block.build_int_sub(a.expect_int_value().unwrap(), b.expect_int_value().unwrap()).unwrap()
    } else {
        block.build_int_add(a.expect_int_value().unwrap(), b.expect_int_value().unwrap()).unwrap()
    };
    block.build_ret(e).unwrap();
    builder.join_function(&mut func, block);
    builder.build_function(func);
    builder.asts
}

#[test]
fn one_plus_one_folds_to_two() {
    let before = sum_program(MirageTypeEnum::type_int32().into(), int32(1), int32(1), false);
    let after = optimize(OptiLevel::O1, before.clone());
    let two = MirageObject::from(int32(2));
    let body = function_body(&after, 1);
    match &body[2] {
        LabelBodyInstr::Assign(_, inner) => {
            assert_eq!(**inner, LabelBodyInstr::Command(Command::Const(two.clone())));
        },
        other => panic!("unexpected {:?}", other),
    }
    assert_eq!(body[3], LabelBodyInstr::Command(Command::Ret(Value::ConstValue(two))));
    // Nothing but the folded values changed.
    assert_eq!(before.len(), after.len());
    assert_eq!(function_body(&before, 1).len(), body.len());
    assert!(after[1].to_string().contains("ret @int32 2"));
    assert_eq!(optimize(OptiLevel::O1, after.clone()), after);
}

#[test]
fn subtraction_folds_and_overflow_does_not() {
    let after = optimize(OptiLevel::O1, sum_program(MirageTypeEnum::type_int16().into(),
        MirageTypeEnum::type_int16().const_value(7).to_value_enum(),
        MirageTypeEnum::type_int16().const_value(9).to_value_enum(), true));
    let body = function_body(&after, 1);
    assert_eq!(body[3], LabelBodyInstr::Command(Command::Ret(Value::ConstValue(MirageObject::from(
        MirageTypeEnum::type_int16().const_value(-2).to_value_enum())))));
    let big = MirageTypeEnum::type_int8().const_value(100).to_value_enum();
    let after = optimize(OptiLevel::O1, sum_program(MirageTypeEnum::type_int8().into(), big.clone(), big, false));
    let body = function_body(&after, 1);
    match &body[2] {
        LabelBodyInstr::Assign(_, inner) => assert!(matches!(**inner, LabelBodyInstr::Command(Command::AddInt8(_, _)))),
        other => panic!("unexpected {:?}", other),
    }
    assert!(matches!(body[3], LabelBodyInstr::Command(Command::Ret(Value::Register(_)))));
}

#[test]
fn copies_of_known_globals_become_constants() {
    let mut builder = Builder::new(Module::new("m".to_string()));
    builder.build_global(MirageObject::from(int32(42)));
    let mut func = FunctionType::new(vec![], MirageTypeEnum::type_int32().into()).fn_value("f".to_string());
    let mut block = builder.new_basic_block("entry");
    block.build_ret(int32(0)).unwrap();
    let mut label = block.build();
    label.body.insert(0, LabelBodyInstr::Command(Command::Copy("g0".to_string())));
    label.body.insert(1, LabelBodyInstr::Command(Command::Copy("g9".to_string())));
    func.add_label(label);
    builder.build_function(func);
    let out = optimize(OptiLevel::O1, builder.asts);
    assert_eq!(out[1], Statement::Global(Global::new("g0".to_string(), MirageObject::from(int32(42)))));
    let body = function_body(&out, 2);
    assert_eq!(body[0], LabelBodyInstr::Command(Command::Const(MirageObject::from(int32(42)))));
    assert_eq!(body[1], LabelBodyInstr::Command(Command::Copy("g9".to_string())));
}

#[test]
fn unknown_registers_stay_in_call_arguments() {
    let arg = RegisterValue::new(0, RegisterType::Argument, MirageTypeEnum::type_int32().into());
    let mut builder = Builder::new(Module::new("m".to_string()));
    builder.build_extern(
        "g".to_string(),
        FunctionType::new(vec![MirageTypeEnum::type_int32().into()], MirageTypeEnum::type_int32().into()),
    );
    let mut func = FunctionType::new(vec![MirageTypeEnum::type_int32().into()], MirageTypeEnum::type_int32().into())
        .fn_value("f".to_string());
    let mut block = builder.new_basic_block("entry");
    let c = block.build_const(int32(3)).unwrap();
    block.build_call("g".to_string(), vec![MirageValueEnum::Register(arg.clone()), c]).unwrap();
    builder.join_function(&mut func, block);
    builder.build_function(func);
    let out = optimize(OptiLevel::O1, builder.asts);
    let body = function_body(&out, 2);
    match &body[1] {
        LabelBodyInstr::Assign(_, inner) => match &**inner {
            LabelBodyInstr::Call(_, args) => {
                assert_eq!(args[0], Value::ConstValue(MirageObject::from(MirageValueEnum::Register(arg))));
                assert_eq!(args[1], Value::ConstValue(MirageObject::from(int32(3))));
            },
            other => panic!("unexpected {:?}", other),
        },
        other => panic!("unexpected {:?}", other),
    }
}

#[test]
fn an_empty_program_stays_empty() {
    assert_eq!(optimize(OptiLevel::O1, vec![]), vec![]);
}

#[test]
fn bindings_do_not_cross_functions() {
    let mut builder = Builder::new(Module::new("m".to_string()));
    let mut f = FunctionType::new(vec![], MirageTypeEnum::type_int32().into()).fn_value("f".to_string());
    let mut block = builder.new_basic_block("entry");
    block.build_const(int32(5)).unwrap();
    builder.join_function(&mut f, block);
    builder.build_function(f);
    let mut g = FunctionType::new(vec![], MirageTypeEnum::type_int32().into()).fn_value("g".to_string());
    let mut block = builder.new_basic_block("entry");
    let r0 = RegisterValue::new(0, RegisterType::Register, MirageTypeEnum::type_int32().into());
    block.build_ret(MirageValueEnum::Register(r0.clone())).unwrap();
    builder.join_function(&mut g, block);
    builder.build_function(g);
    let out = optimize(OptiLevel::O1, builder.asts);
    let body = function_body(&out, 2);
    assert_eq!(body[0], LabelBodyInstr::Command(Command::Ret(Value::Register(r0))));
}
