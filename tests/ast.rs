use mirage::ast::{
    Command as AstCommand, ConstValue, ConstValueInstr, External as AstExternal,
    ExternalArguments, ExternalArgumentsType, ExternalFunctionType, ExternalType,
    ExternalVariableType, Flag as AstFlag, Flags as AstFlags, Function, FunctionBody,
    FunctionSignature, Global as AstGlobal, Ident, Label as AstLabel, LabelBodyInstr as AstInstr,
    List as AstList, Module as AstModule, Statement as AstStatement, TypeDef as AstTypeDef,
    Value as AstValue,
};
use mirage::function::FunctionType;
use mirage::stringify::Stringify;
use mirage::types::MirageTypeEnum;
use mirage::values::{MirageValueEnum, RegisterType, RegisterValue};

fn int32(v: i32) -> MirageValueEnum {
    MirageTypeEnum::type_int32().const_value(v).to_value_enum()
}

#[test]
fn external_declarations_convert_to_functions() {
    let ext = AstExternal::new(
        Ident::new("add".to_string()),
        ExternalType::Function(ExternalFunctionType::new(
            ExternalArguments::new(vec![
                ExternalArgumentsType::Simple(MirageTypeEnum::type_int32().into()),
                ExternalArgumentsType::Simple(MirageTypeEnum::type_int64().into()),
            ]),
            MirageTypeEnum::type_int8().into(),
        )),
    );
    assert_eq!(ext.to_string(), "extern add : args [@int32, @int64] ret[@int8];");
    let f = ext.into_function_value().unwrap();
    let expected = FunctionType::new(
        vec![MirageTypeEnum::type_int32().into(), MirageTypeEnum::type_int64().into()],
        MirageTypeEnum::type_int8().into(),
    )
    .fn_value("add".to_string());
    assert_eq!(f, expected);
    let back = AstExternal::from_function_value(&f);
    assert_eq!(back.name, Ident::new("add".to_string()));
    let sig = FunctionSignature::from_function_value(&f);
    assert_eq!(sig.params.len(), 2);
    assert_eq!(sig.to_string(), "add(@int32, @int64) @int8 ");
}

#[test]
fn variables_and_varargs_are_no_functions() {
    let var = AstExternal::new(
        Ident::new("x".to_string()),
        ExternalType::Variable(ExternalVariableType::new(MirageTypeEnum::type_int8().into())),
    );
    assert_eq!(var.into_function_value(), None);
    let va = AstExternal::new(
        Ident::new("printf".to_string()),
        ExternalType::Function(ExternalFunctionType::new(
            ExternalArguments::new(vec![ExternalArgumentsType::Infinite]),
            MirageTypeEnum::type_int32().into(),
        )),
    );
    assert_eq!(va.into_function_value(), None);
}

#[test]
fn textual_items_render() {
    assert_eq!(AstModule::new(Ident::new("m".to_string())).to_string(), "module m;");
    let g = AstGlobal::new(Ident::new("g".to_string()), ConstValue::from(int32(3)));
    assert_eq!(g.to_string(), "global g = @int32 3");
    assert_eq!(ConstValueInstr::new(ConstValue::new(MirageTypeEnum::type_int32().into(), int32(3))).to_string(), "const @int32 3");
    let mut l: AstList<MirageTypeEnum> = AstList::new();
    l.push(MirageTypeEnum::type_int8().into());
    l.push(MirageTypeEnum::type_int8().into());
    assert_eq!(l.len(), 2);
    assert_eq!(l.pop(), Some(MirageTypeEnum::type_int8().into()));
    let td = AstTypeDef::new(Ident::new("t".to_string()), l);
    assert_eq!(td.to_string(), "type t = {@int8};");
    let flags = AstFlags::new(vec![AstFlag::new(Ident::new("inline".to_string()))]);
    let r = RegisterValue::new(0, RegisterType::Register, MirageTypeEnum::type_int32().into());
    let label = AstLabel::new(
        Ident::new("entry".to_string()),
        flags,
        vec![AstInstr::Assign(
            AstValue::Register(r),
            Box::new(AstInstr::Command(AstCommand::AddInt32(AstValue::from_value(int32(1)), AstValue::from_value(int32(2))))),
        )],
    );
    assert_eq!(label.to_string(), "entry#inline : \nr0 = add.i32 const @int32 1, const @int32 2");
    let mut body = FunctionBody::new(vec![]);
    body.push(label);
    let f = Function::new(
        FunctionSignature::new(Ident::new("f".to_string()), vec![], MirageTypeEnum::type_int32().into(), AstFlags::new(vec![])),
        body,
    );
    let st = AstStatement::Function(f);
    assert!(st.is_function() && !st.is_module() && !st.is_global() && !st.is_external() && !st.is_typedef() && !st.is_target());
    assert_eq!(AstValue::from_value(int32(9)).into_value(), Some(int32(9)));
    assert_eq!(Ident::new("a".to_string()).into_string(), "a");
}
