use mirage::builder::Builder;
use mirage::config::{Bits, Config, OptimizationLevel};
use mirage::function::FunctionType;
use mirage::label::{add, incr, jeq, jump, Command, Value};
use mirage::meta::{Flag, Flags};
use mirage::module::Module;
use mirage::size::Size;
use mirage::statements::{Arch, Compiler, Os, Statement, Target, TargetType};
use mirage::stringify::Stringify;
use mirage::text::{i64_text, same_text, u64_text};
use mirage::types::{MirageTypeEnum, StructType};
use mirage::util::List;
use mirage::values::{
    ArrayValue, IntValue, MirageObject, MirageValueEnum, RegisterType, RegisterValue,
};

fn int32(v: i32) -> MirageValueEnum {
    MirageTypeEnum::type_int32().const_value(v).to_value_enum()
}

#[test]
fn register_identity_ignores_type_and_flags() {
    let r = RegisterValue::new(4, RegisterType::Register, MirageTypeEnum::type_int32().into());
    let mut s = r.clone();
    s.ty = MirageTypeEnum::type_int64().into();
    s.add_flag(Flag::not_loadable());
    assert_eq!(r, s);
    let mut t = r.clone();
    t.index = 5;
    assert_ne!(r, t);
    let mut u = r.clone();
    u.register_type = RegisterType::Variable;
    assert_ne!(r, u);
}

#[test]
fn flags_are_added_and_removed() {
    let mut r = RegisterValue::new(0, RegisterType::Register, MirageTypeEnum::type_int8().into());
    assert!(!r.contains_flag(&Flag::not_loadable()));
    r.add_flag(Flag::not_loadable());
    r.add_flag(Flag::new("x".to_string()));
    assert!(r.contains_flag(&Flag::not_loadable()));
    r.remove_flag(&Flag::not_loadable());
    assert!(!r.contains_flag(&Flag::not_loadable()));
    assert!(r.contains_flag(&Flag::new("x".to_string())));
    assert_eq!(r.print_to_string(), "r0#x ");
}

#[test]
fn primitive_sizes_and_widths() {
    let t: MirageTypeEnum = MirageTypeEnum::type_int16().into();
    assert_eq!(t.size(), Size::new(2));
    assert_eq!(t.get_max_bits(), 16);
    let f: MirageTypeEnum = MirageTypeEnum::type_float64().into();
    assert_eq!(f.size().size(), 8);
    assert!(f.is_float() && !f.is_int() && !f.is_uint());
    let u: MirageTypeEnum = MirageTypeEnum::type_uint32().into();
    assert!(u.is_uint());
    assert_eq!(u.get_max_bits(), 32);
}

#[test]
fn aggregate_sizes() {
    let arr = MirageTypeEnum::Array(MirageTypeEnum::type_array(MirageTypeEnum::type_int32().into(), 10));
    assert_eq!(arr.size().size(), 40);
    let empty = MirageTypeEnum::Array(MirageTypeEnum::type_array(MirageTypeEnum::type_int64().into(), 0));
    assert_eq!(empty.size().size(), 0);
    let st = MirageTypeEnum::Struct(StructType::new(vec![
        MirageTypeEnum::type_int8().into(),
        MirageTypeEnum::type_int64().into(),
        arr.clone(),
    ]));
    assert_eq!(st.size().size(), 49);
    assert_eq!(st.get_max_bits(), 392);
    let ptr = MirageTypeEnum::Pointer(MirageTypeEnum::type_ptr(st.clone()));
    assert_eq!(ptr.size().size(), std::mem::size_of::<usize>());
    let nothing = MirageTypeEnum::Struct(StructType::new(vec![]));
    assert_eq!(nothing.size().size(), 0);
}

#[test]
fn strings_are_arrays_of_int8() {
    let s = MirageTypeEnum::Array(MirageTypeEnum::type_array(MirageTypeEnum::type_int8().into(), 3));
    assert!(s.is_string());
    let t = MirageTypeEnum::Array(MirageTypeEnum::type_array(MirageTypeEnum::type_uint8().into(), 3));
    assert!(!t.is_string());
    assert!(!MirageTypeEnum::from(MirageTypeEnum::type_int8()).is_string());
}

#[test]
fn type_names_parse() {
    assert_eq!(MirageTypeEnum::from_str("uint16"), Some(MirageTypeEnum::type_uint16().into()));
    assert_eq!(MirageTypeEnum::from_str("float32"), Some(MirageTypeEnum::type_float32().into()));
    assert_eq!(MirageTypeEnum::from_str("int"), None);
    assert_eq!(MirageTypeEnum::from_str(""), None);
}

#[test]
fn type_and_value_text() {
    let t: MirageTypeEnum = MirageTypeEnum::type_int32().into();
    assert_eq!(t.print_to_string(), "@int32");
    assert_eq!(int32(-12).print_to_string(), "@int32 -12");
    assert_eq!(MirageTypeEnum::type_uint64().const_value(u64::MAX).print_to_string(), "@uint64 18446744073709551615");
    assert_eq!(MirageTypeEnum::type_int64().const_value(i64::MIN).print_to_string(), "@int64 -9223372036854775808");
    let arr = MirageTypeEnum::Array(MirageTypeEnum::type_array(t.clone(), 2));
    assert_eq!(arr.print_to_string(), "[@int32; 2]");
    let ptr = MirageTypeEnum::Pointer(MirageTypeEnum::type_ptr(t.clone()));
    assert_eq!(ptr.print_to_string(), "@int32*");
    let st = MirageTypeEnum::Struct(StructType::new(vec![t.clone(), t]));
    assert_eq!(st.print_to_string(), "{@int32, @int32}");
    let g = RegisterValue::new(7, RegisterType::Global, MirageTypeEnum::type_int8().into());
    assert_eq!(g.print_to_string(), "g7");
    assert_eq!(RegisterType::Argument.print_to_string(), "arg");
}

#[test]
fn decimal_text() {
    assert_eq!(u64_text(0), "0");
    assert_eq!(u64_text(1090), "1090");
    assert_eq!(i64_text(-7), "-7");
    assert!(same_text("abc", "abc"));
    assert!(!same_text("abc", "abd"));
    assert!(!same_text("ab", "abc"));
}

#[test]
fn values_report_their_types() {
    assert_eq!(int32(3).get_type(), MirageTypeEnum::type_int32().into());
    let arr_ty = MirageTypeEnum::type_array(MirageTypeEnum::type_int32().into(), 2);
    let arr = ArrayValue::new(arr_ty.clone(), vec![int32(1), int32(2)]);
    assert_eq!(arr.to_mirage_value().get_type(), MirageTypeEnum::Array(arr_ty));
    let reg = RegisterValue::new(1, RegisterType::Variable, MirageTypeEnum::type_uint8().into());
    assert_eq!(reg.to_mirage_value().get_type(), MirageTypeEnum::type_uint8().into());
    assert!(int32(0).is_const());
    assert!(!reg.to_mirage_value().is_const());
}

#[test]
fn const_and_int_views_of_values() {
    assert_eq!(int32(4).expect_const_value(), Some(int32(4)));
    let reg = RegisterValue::new(1, RegisterType::Register, MirageTypeEnum::type_int16().into());
    assert_eq!(reg.to_mirage_value().expect_const_value(), None);
    assert_eq!(reg.to_mirage_value().expect_register_value(), Some(reg.clone()));
    assert_eq!(int32(4).expect_register_value(), None);
    let iv = reg.to_mirage_value().expect_int_value().unwrap();
    assert_eq!(iv.get_max_bits(), 16);
    assert_eq!(iv.get_mem_size(), 8);
    let ureg = RegisterValue::new(1, RegisterType::Register, MirageTypeEnum::type_uint16().into());
    assert_eq!(ureg.to_mirage_value().expect_int_value(), None);
    let i8v = MirageTypeEnum::type_int8().const_value(-3).to_value_enum().expect_int_value().unwrap();
    assert_eq!(i8v.get_mem_size(), 1);
    assert_eq!(i8v.expect_int8_value().value, -3);
    assert_eq!(i8v.to_mirage_value(), MirageTypeEnum::type_int8().const_value(-3).to_value_enum());
}

#[test]
fn commands_by_width() {
    let a = int32(1).expect_int_value().unwrap();
    let b = int32(2).expect_int_value().unwrap();
    assert_eq!(add(a, b), Command::AddInt32(Value::from_value(int32(1)), Value::from_value(int32(2))));
    let r = RegisterValue::new(0, RegisterType::Register, MirageTypeEnum::type_float32().into());
    assert_eq!(incr(r.clone()), Command::IncrFloat32(r));
    let q = RegisterValue::new(0, RegisterType::Register, MirageTypeEnum::type_uint64().into());
    assert_eq!(incr(q.clone()), Command::IncrInt64(q));
    assert_eq!(jump("loop"), Command::Jump("loop".to_string()));
    assert_eq!(
        jeq("end", int32(1), int32(1)),
        Command::Jeq("end".to_string(), Value::from_value(int32(1)), Value::from_value(int32(1)))
    );
    assert_eq!(jump("x").to_string(), "jump x");
}

#[test]
fn targets_parse_piece_by_piece() {
    assert_eq!(TargetType::parse("linux-x86_64-clang"), TargetType::new(Os::Linux, Arch::X86_64, Compiler::Clang));
    assert_eq!(TargetType::parse("macos"), TargetType::new(Os::MacOs, Arch::Unknown, Compiler::Unknown));
    assert_eq!(TargetType::parse("ios-arm-all-extra"), TargetType::new(Os::Ios, Arch::Arm, Compiler::All));
    assert_eq!(TargetType::parse("plan9-mips-tcc"), TargetType::new(Os::Unknown, Arch::Unknown, Compiler::Unknown));
    assert_eq!(TargetType::parse("windows-arm64-msvc").to_str(), "windows-arm64-msvc");
    assert_eq!(Target::from("android", "arm", "gcc").to_string(), "target android-arm-gcc;");
}

#[test]
fn functions_expose_arguments_and_labels() {
    let ty = FunctionType::new(vec![MirageTypeEnum::type_int8().into()], MirageTypeEnum::type_int8().into());
    let mut f = ty.fn_value("f".to_string());
    assert_eq!(
        f.get_nth_arg(0),
        Some(MirageValueEnum::Register(RegisterValue::new(0, RegisterType::Argument, MirageTypeEnum::type_int8().into())))
    );
    assert_eq!(f.get_nth_arg(1), None);
    assert_eq!(f.len_labels(), 0);
    f.add_label(mirage::label::Label::new("a".to_string(), Flags::new(vec![]), vec![]));
    f.add_label(mirage::label::Label::new("b".to_string(), Flags::new(vec![]), vec![]));
    assert_eq!(f.get_label("b").unwrap().name, "b");
    assert!(f.get_label("c").is_none());
    assert_eq!(f.get_nth_label(1).unwrap().name, "b");
    assert!(f.get_nth_label(2).is_none());
    assert_eq!(ty.print_to_string(), "(@int8) -> @int8");
}

#[test]
fn module_lookup_finds_the_first_match() {
    let mut m = Module::new("m".to_string());
    let ty = FunctionType::new(vec![], MirageTypeEnum::type_int8().into());
    m.add_function(ty.fn_value("f".to_string()));
    let ty2 = FunctionType::new(vec![], MirageTypeEnum::type_int16().into());
    m.add_function(ty2.fn_value("f".to_string()));
    assert_eq!(*m.get_function("f").unwrap().get_type().get_ret(), MirageTypeEnum::type_int8().into());
    assert!(m.get_function("g").is_none());
}

#[test]
fn lists_push_and_pop() {
    let mut l: List<MirageTypeEnum> = List::new();
    assert_eq!(l.pop(), None);
    l.push(MirageTypeEnum::type_int8().into());
    l.push(MirageTypeEnum::type_int16().into());
    assert_eq!(l.len(), 2);
    assert_eq!(l.to_string(), "{@int8,@int16}");
    assert_eq!(l.pop(), Some(MirageTypeEnum::type_int16().into()));
    assert_eq!(l.iter().len(), 1);
}

#[test]
fn objects_keep_value_and_type() {
    let o = MirageObject::from(int32(8));
    assert_eq!(o.get_type(), MirageTypeEnum::type_int32().into());
    assert_eq!(o.get_value(), int32(8));
    let i = IntValue::Int32(MirageTypeEnum::type_int32().const_value(8));
    assert_eq!(i.to_mirage_value(), int32(8));
    assert!(Statement::Module(mirage::statements::ModuleDecl::new("x".to_string())).is_module());
}

#[test]
fn config_defaults() {
    let c = Config::default();
    assert_eq!(c.optimization_level, OptimizationLevel::Default);
    assert_eq!(c.bits, Bits::B32);
    assert_eq!(Bits::default(), Bits::B32);
}

#[test]
fn string_arrays_decode() {
    let ty = MirageTypeEnum::type_array(MirageTypeEnum::type_int8().into(), 2);
    let hi = ArrayValue::new(
        ty.clone(),
        vec![
            MirageTypeEnum::type_int8().const_value(104).to_value_enum(),
            MirageTypeEnum::type_int8().const_value(105).to_value_enum(),
        ],
    );
    assert_eq!(hi.to_mirage_value().try_to_rust_string(), Some("hi".to_string()));
    let bad = ArrayValue::new(ty.clone(), vec![MirageTypeEnum::type_int8().const_value(-1).to_value_enum()]);
    assert_eq!(bad.to_mirage_value().try_to_rust_string(), None);
    assert_eq!(int32(1).try_to_rust_string(), None);
    let wide = ArrayValue::new(MirageTypeEnum::type_array(MirageTypeEnum::type_int32().into(), 1), vec![int32(104)]);
    assert_eq!(wide.to_mirage_value().try_to_rust_string(), None);
}

#[test]
fn program_text() {
    let mut builder = Builder::new(Module::new("demo".to_string()));
    builder.set_target("linux-x86-gcc");
    builder.build_extern(
        "puts".to_string(),
        FunctionType::new_var_arg(vec![MirageTypeEnum::type_int8().into()], MirageTypeEnum::type_int32().into()),
    );
    builder.build_global(MirageObject::from(int32(7)));
    let mut f = FunctionType::new(vec![], MirageTypeEnum::type_int32().into()).fn_value("main".to_string());
    let mut block = builder.new_basic_block("entry");
    let c = block.build_const(int32(1)).unwrap();
    block.build_ret(c).unwrap();
    builder.join_function(&mut f, block);
    builder.build_function(f);
    let text: Vec<String> = builder.asts.iter().map(|s| s.to_string()).collect();
    assert_eq!(text[0], "module demo;");
    assert_eq!(text[1], "target linux-x86-gcc;");
    assert_eq!(text[2], "extern puts : (@int8, ...) -> @int32;");
    assert_eq!(text[3], "global g0 = @int32 7");
    assert_eq!(text[4], "main() -> @int32\nentry: \n\tr0 = @int32 1\n\tret r0");
}

#[test]
fn aggregate_value_text() {
    let arr_ty = MirageTypeEnum::type_array(MirageTypeEnum::type_int32().into(), 2);
    let arr = ArrayValue::new(arr_ty, vec![int32(1), int32(2)]);
    assert_eq!(arr.print_to_string(), "[@int32; 2] [@int32 1, @int32 2]");
    let st = mirage::values::StructValue::new(
        StructType::new(vec![MirageTypeEnum::type_uint8().into()]),
        vec![MirageTypeEnum::type_uint8().const_value(200).to_value_enum()],
    );
    assert_eq!(st.print_to_string(), "{@uint8} { @uint8 200 }");
    let list = Value::List(List::from_vec(vec![Value::from_value(int32(3)), Value::from_value(int32(4))]));
    assert_eq!(list.to_string(), "{@int32 3,@int32 4}");
}

#[test]
fn escapes_resolve() {
    assert_eq!(mirage::text::to_string_with_special_char("a\\nb\\tc"), "a\nb\tc");
    assert_eq!(mirage::text::to_string_with_special_char("q\\\"x\\'"), "q\"x'");
    assert_eq!(mirage::text::to_string_with_special_char("end\\0"), "end\0");
    assert_eq!(mirage::text::to_string_with_special_char("back\\\\slash"), "back\\slash");
    assert_eq!(mirage::text::replace("aaa", "aa", "b"), "ba");
    assert_eq!(mirage::text::replace("", "x", "y"), "");
}
