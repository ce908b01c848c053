use vstd::prelude::*;
use vstd::string::*;
use vstd::utf8::{decode_utf8, valid_utf8};
use vstd::std_specs::cmp::PartialEqSpec;

use crate::meta::{flags_text, Flag, Flags};
use crate::stringify::Stringify;
use crate::text::{decimal, i64_text, join, lemma_join_all, lemma_join_step, signed_decimal, u64_text};
use crate::types::{
    ArrayType, Float32Type, Float64Type, Int16Type, Int32Type, Int64Type, Int8Type, MirageTypeEnum,
    PointerType, StructType, TypeModel, UInt16Type, UInt32Type, UInt64Type, UInt8Type,
};

verus! {

broadcast use vstd::std_specs::vec::axiom_vec_index_decreases;

/// The mathematical model of a register: its identity, its type and its flags.
pub struct RegisterModel {
    pub index: usize,
    pub class: RegisterType,
    pub ty: TypeModel,
    pub flags: Seq<Seq<char>>,
}

/// The mathematical model of a value.
pub enum ValueModel {
    Int8(i8),
    Int16(i16),
    Int32(i32),
    Int64(i64),
    UInt8(u8),
    UInt16(u16),
    UInt32(u32),
    UInt64(u64),
    Float32(u32),
    Float64(u64),
    /// An array: its type and its elements.
    Array(TypeModel, Seq<ValueModel>),
    Pointer(TypeModel),
    Register(RegisterModel),
    /// A struct: its type and its field values.
    Struct(TypeModel, Seq<ValueModel>),
}

impl ValueModel {
    /// The text of this value.
    pub open spec fn text(self) -> Seq<char>
        decreases self,
    {
        match self {
            ValueModel::Int8(x) => "@int8 "@ + signed_decimal(x as int),
            ValueModel::Int16(x) => "@int16 "@ + signed_decimal(x as int),
            ValueModel::Int32(x) => "@int32 "@ + signed_decimal(x as int),
            ValueModel::Int64(x) => "@int64 "@ + signed_decimal(x as int),
            ValueModel::UInt8(x) => "@uint8 "@ + decimal(x as nat),
            ValueModel::UInt16(x) => "@uint16 "@ + decimal(x as nat),
            ValueModel::UInt32(x) => "@uint32 "@ + decimal(x as nat),
            ValueModel::UInt64(x) => "@uint64 "@ + decimal(x as nat),
            ValueModel::Float32(x) => "@float32 "@ + decimal(x as nat),
            ValueModel::Float64(x) => "@float64 "@ + decimal(x as nat),
            ValueModel::Array(t, vs) => t.text() + " ["@ + join(value_texts(vs), ", "@) + "]"@,
            ValueModel::Pointer(t) => t.text() + "*"@,
            ValueModel::Register(r) => r.text(),
            ValueModel::Struct(t, vs) => t.text() + " { "@ + join(value_texts(vs), ", "@) + " }"@,
        }
    }

    /// The type of a value.
    pub open spec fn type_of(self) -> TypeModel {
        match self {
            ValueModel::Int8(_) => TypeModel::Int8,
            ValueModel::Int16(_) => TypeModel::Int16,
            ValueModel::Int32(_) => TypeModel::Int32,
            ValueModel::Int64(_) => TypeModel::Int64,
            ValueModel::UInt8(_) => TypeModel::UInt8,
            ValueModel::UInt16(_) => TypeModel::UInt16,
            ValueModel::UInt32(_) => TypeModel::UInt32,
            ValueModel::UInt64(_) => TypeModel::UInt64,
            ValueModel::Float32(_) => TypeModel::Float32,
            ValueModel::Float64(_) => TypeModel::Float64,
            ValueModel::Array(t, _) => t,
            ValueModel::Pointer(t) => t,
            ValueModel::Register(r) => r.ty,
            ValueModel::Struct(t, _) => t,
        }
    }

    /// A literal: anything but a register or a pointer.
    pub open spec fn is_constant(self) -> bool {
        !(self is Register) && !(self is Pointer)
    }
}

/// The texts of a sequence of values.
pub open spec fn value_texts(vs: Seq<ValueModel>) -> Seq<Seq<char>>
    decreases vs,
{
    Seq::new(vs.len(), |i: int| if 0 <= i < vs.len() { vs[i].text() } else { Seq::empty() })
}

impl RegisterModel {
    /// The text of a register: class prefix, index, then its flags.
    pub open spec fn text(self) -> Seq<char> {
        self.class.prefix() + decimal(self.index as nat) + flags_text(self.flags)
    }
}

/// The models of a sequence of values.
pub open spec fn values_view(vs: Seq<MirageValueEnum>) -> Seq<ValueModel>
    decreases vs,
{
    Seq::new(vs.len(), |i: int| if 0 <= i < vs.len() { vs[i]@ } else { ValueModel::Int8(0) })
}

/// A constant of type `@int8`.
#[derive(Debug, Clone, Copy, PartialEq)]
pub struct Int8Value {
    pub ty: Int8Type,
    pub value: i8,
}

impl Int8Value {
    pub fn new(value: i8) -> (r: Self)
        ensures
            r.value == value,
    {
        Self { ty: Int8Type {}, value }
    }

    pub fn print_to_string(&self) -> (r: String)
        ensures
            r@ == "@int8 "@ + signed_decimal(self.value as int),
    {
        let mut s = String::from_str("@int8 ");
        s.append(i64_text(self.value as i64).as_str());
        s
    }

    pub fn to_value_enum(&self) -> (r: MirageValueEnum)
        ensures
            r == MirageValueEnum::Int8(*self),
            r@ == ValueModel::Int8(self.value),
    {
        MirageValueEnum::Int8(*self)
    }
}

/// A constant of type `@int16`.
#[derive(Debug, Clone, Copy, PartialEq)]
pub struct Int16Value {
    pub ty: Int16Type,
    pub value: i16,
}

impl Int16Value {
    pub fn new(value: i16) -> (r: Self)
        ensures
            r.value == value,
    {
        Self { ty: Int16Type {}, value }
    }

    pub fn print_to_string(&self) -> (r: String)
        ensures
            r@ == "@int16 "@ + signed_decimal(self.value as int),
    {
        let mut s = String::from_str("@int16 ");
        s.append(i64_text(self.value as i64).as_str());
        s
    }

    pub fn to_value_enum(&self) -> (r: MirageValueEnum)
        ensures
            r == MirageValueEnum::Int16(*self),
            r@ == ValueModel::Int16(self.value),
    {
        MirageValueEnum::Int16(*self)
    }
}

/// A constant of type `@int32`.
#[derive(Debug, Clone, Copy, PartialEq)]
pub struct Int32Value {
    pub ty: Int32Type,
    pub value: i32,
}

impl Int32Value {
    pub fn new(value: i32) -> (r: Self)
        ensures
            r.value == value,
    {
        Self { ty: Int32Type {}, value }
    }

    pub fn print_to_string(&self) -> (r: String)
        ensures
            r@ == "@int32 "@ + signed_decimal(self.value as int),
    {
        let mut s = String::from_str("@int32 ");
        s.append(i64_text(self.value as i64).as_str());
        s
    }

    pub fn to_value_enum(&self) -> (r: MirageValueEnum)
        ensures
            r == MirageValueEnum::Int32(*self),
            r@ == ValueModel::Int32(self.value),
    {
        MirageValueEnum::Int32(*self)
    }
}

/// A constant of type `@int64`.
#[derive(Debug, Clone, Copy, PartialEq)]
pub struct Int64Value {
    pub ty: Int64Type,
    pub value: i64,
}

impl Int64Value {
    pub fn new(value: i64) -> (r: Self)
        ensures
            r.value == value,
    {
        Self { ty: Int64Type {}, value }
    }

    pub fn print_to_string(&self) -> (r: String)
        ensures
            r@ == "@int64 "@ + signed_decimal(self.value as int),
    {
        let mut s = String::from_str("@int64 ");
        s.append(i64_text(self.value as i64).as_str());
        s
    }

    pub fn to_value_enum(&self) -> (r: MirageValueEnum)
        ensures
            r == MirageValueEnum::Int64(*self),
            r@ == ValueModel::Int64(self.value),
    {
        MirageValueEnum::Int64(*self)
    }
}

/// A constant of type `@uint8`.
#[derive(Debug, Clone, Copy, PartialEq)]
pub struct UInt8Value {
    pub ty: UInt8Type,
    pub value: u8,
}

impl UInt8Value {
    pub fn new(value: u8) -> (r: Self)
        ensures
            r.value == value,
    {
        Self { ty: UInt8Type {}, value }
    }

    pub fn print_to_string(&self) -> (r: String)
        ensures
            r@ == "@uint8 "@ + decimal(self.value as nat),
    {
        let mut s = String::from_str("@uint8 ");
        s.append(u64_text(self.value as u64).as_str());
        s
    }

    pub fn to_value_enum(&self) -> (r: MirageValueEnum)
        ensures
            r == MirageValueEnum::UInt8(*self),
            r@ == ValueModel::UInt8(self.value),
    {
        MirageValueEnum::UInt8(*self)
    }
}

/// A constant of type `@uint16`.
#[derive(Debug, Clone, Copy, PartialEq)]
pub struct UInt16Value {
    pub ty: UInt16Type,
    pub value: u16,
}

impl UInt16Value {
    pub fn new(value: u16) -> (r: Self)
        ensures
            r.value == value,
    {
        Self { ty: UInt16Type {}, value }
    }

    pub fn print_to_string(&self) -> (r: String)
        ensures
            r@ == "@uint16 "@ + decimal(self.value as nat),
    {
        let mut s = String::from_str("@uint16 ");
        s.append(u64_text(self.value as u64).as_str());
        s
    }

    pub fn to_value_enum(&self) -> (r: MirageValueEnum)
        ensures
            r == MirageValueEnum::UInt16(*self),
            r@ == ValueModel::UInt16(self.value),
    {
        MirageValueEnum::UInt16(*self)
    }
}

/// A constant of type `@uint32`.
#[derive(Debug, Clone, Copy, PartialEq)]
pub struct UInt32Value {
    pub ty: UInt32Type,
    pub value: u32,
}

impl UInt32Value {
    pub fn new(value: u32) -> (r: Self)
        ensures
            r.value == value,
    {
        Self { ty: UInt32Type {}, value }
    }

    pub fn print_to_string(&self) -> (r: String)
        ensures
            r@ == "@uint32 "@ + decimal(self.value as nat),
    {
        let mut s = String::from_str("@uint32 ");
        s.append(u64_text(self.value as u64).as_str());
        s
    }

    pub fn to_value_enum(&self) -> (r: MirageValueEnum)
        ensures
            r == MirageValueEnum::UInt32(*self),
            r@ == ValueModel::UInt32(self.value),
    {
        MirageValueEnum::UInt32(*self)
    }
}

/// A constant of type `@uint64`.
#[derive(Debug, Clone, Copy, PartialEq)]
pub struct UInt64Value {
    pub ty: UInt64Type,
    pub value: u64,
}

impl UInt64Value {
    pub fn new(value: u64) -> (r: Self)
        ensures
            r.value == value,
    {
        Self { ty: UInt64Type {}, value }
    }

    pub fn print_to_string(&self) -> (r: String)
        ensures
            r@ == "@uint64 "@ + decimal(self.value as nat),
    {
        let mut s = String::from_str("@uint64 ");
        s.append(u64_text(self.value as u64).as_str());
        s
    }

    pub fn to_value_enum(&self) -> (r: MirageValueEnum)
        ensures
            r == MirageValueEnum::UInt64(*self),
            r@ == ValueModel::UInt64(self.value),
    {
        MirageValueEnum::UInt64(*self)
    }
}

/// A constant of type `@float32`, held as its IEEE-754 bit pattern.
#[derive(Debug, Clone, Copy, PartialEq)]
pub struct Float32Value {
    pub ty: Float32Type,
    pub value: u32,
}

impl Float32Value {
    pub fn new(value: u32) -> (r: Self)
        ensures
            r.value == value,
    {
        Self { ty: Float32Type {}, value }
    }

    /// Renders the type and the bit pattern of the payload.
    pub fn print_to_string(&self) -> (r: String)
        ensures
            r@ == "@float32 "@ + decimal(self.value as nat),
    {
        let mut s = String::from_str("@float32 ");
        s.append(u64_text(self.value as u64).as_str());
        s
    }

    pub fn to_value_enum(&self) -> (r: MirageValueEnum)
        ensures
            r == MirageValueEnum::Float32(*self),
            r@ == ValueModel::Float32(self.value),
    {
        MirageValueEnum::Float32(*self)
    }
}

/// A constant of type `@float64`, held as its IEEE-754 bit pattern.
#[derive(Debug, Clone, Copy, PartialEq)]
pub struct Float64Value {
    pub ty: Float64Type,
    pub value: u64,
}

impl Float64Value {
    pub fn new(value: u64) -> (r: Self)
        ensures
            r.value == value,
    {
        Self { ty: Float64Type {}, value }
    }

    /// Renders the type and the bit pattern of the payload.
    pub fn print_to_string(&self) -> (r: String)
        ensures
            r@ == "@float64 "@ + decimal(self.value as nat),
    {
        let mut s = String::from_str("@float64 ");
        s.append(u64_text(self.value as u64).as_str());
        s
    }

    pub fn to_value_enum(&self) -> (r: MirageValueEnum)
        ensures
            r == MirageValueEnum::Float64(*self),
            r@ == ValueModel::Float64(self.value),
    {
        MirageValueEnum::Float64(*self)
    }
}

/// A value of the IR: a literal of some type, or a register.
#[derive(Debug, PartialEq)]
pub enum MirageValueEnum {
    Int8(Int8Value),
    Int16(Int16Value),
    Int32(Int32Value),
    Int64(Int64Value),
    UInt8(UInt8Value),
    UInt16(UInt16Value),
    UInt32(UInt32Value),
    UInt64(UInt64Value),
    Float32(Float32Value),
    Float64(Float64Value),
    Array(ArrayValue),
    Pointer(PointerValue),
    Register(RegisterValue),
    Struct(StructValue),
}

impl View for MirageValueEnum {
    type V = ValueModel;

    open spec fn view(&self) -> ValueModel {
        self.model()
    }
}

impl MirageValueEnum {
    /// The model of this value.
    pub open spec fn model(&self) -> ValueModel
        decreases self,
    {
        match self {
            MirageValueEnum::Int8(v) => ValueModel::Int8(v.value),
            MirageValueEnum::Int16(v) => ValueModel::Int16(v.value),
            MirageValueEnum::Int32(v) => ValueModel::Int32(v.value),
            MirageValueEnum::Int64(v) => ValueModel::Int64(v.value),
            MirageValueEnum::UInt8(v) => ValueModel::UInt8(v.value),
            MirageValueEnum::UInt16(v) => ValueModel::UInt16(v.value),
            MirageValueEnum::UInt32(v) => ValueModel::UInt32(v.value),
            MirageValueEnum::UInt64(v) => ValueModel::UInt64(v.value),
            MirageValueEnum::Float32(v) => ValueModel::Float32(v.value),
            MirageValueEnum::Float64(v) => ValueModel::Float64(v.value),
            MirageValueEnum::Array(a) => ValueModel::Array(
                a.ty@,
                Seq::new(a.values@.len(), |i: int| if 0 <= i < a.values@.len() { a.values@[i].model() } else { ValueModel::Int8(0) }),
            ),
            MirageValueEnum::Pointer(p) => ValueModel::Pointer(p.ty@),
            MirageValueEnum::Register(r) => ValueModel::Register(r@),
            MirageValueEnum::Struct(s) => ValueModel::Struct(
                s.ty@,
                Seq::new(s.values@.len(), |i: int| if 0 <= i < s.values@.len() { s.values@[i].model() } else { ValueModel::Int8(0) }),
            ),
        }
    }
}

proof fn lemma_values_view(vs: Seq<MirageValueEnum>)
    ensures
        values_view(vs).len() == vs.len(),
        forall|i: int| 0 <= i < vs.len() ==> #[trigger] values_view(vs)[i] == vs[i]@,
{
}

/// The model of an array or struct literal speaks of its elements' models.
proof fn lemma_aggregate_view(v: MirageValueEnum)
    ensures
        v is Array ==> v@ == ValueModel::Array(v->Array_0.ty@, values_view(v->Array_0.values@)),
        v is Struct ==> v@ == ValueModel::Struct(v->Struct_0.ty@, values_view(v->Struct_0.values@)),
{
    if let MirageValueEnum::Array(a) = v {
        if let ValueModel::Array(_, x) = v@ {
            assert(x =~= values_view(a.values@));
        }
    }
    if let MirageValueEnum::Struct(a) = v {
        if let ValueModel::Struct(_, x) = v@ {
            assert(x =~= values_view(a.values@));
        }
    }
}

/// Copies a sequence of values.
pub fn duplicate_values(vs: &Vec<MirageValueEnum>) -> (r: Vec<MirageValueEnum>)
    ensures
        values_view(r@) == values_view(vs@),
{
    let mut r: Vec<MirageValueEnum> = Vec::new();
    let mut i: usize = 0;
    while i < vs.len()
        invariant
            i <= vs@.len(),
            r@.len() == i,
            forall|j: int| 0 <= j < i ==> #[trigger] r@[j]@ == vs@[j]@,
        decreases vs@.len() - i,
    {
        r.push(vs[i].duplicate());
        i = i + 1;
    }
    assert(values_view(r@) =~= values_view(vs@));
    r
}

impl MirageValueEnum {
    /// A copy of this value.
    pub fn duplicate(&self) -> (r: Self)
        ensures
            r@ == self@,
        decreases self,
    {
        match self {
            MirageValueEnum::Int8(v) => MirageValueEnum::Int8(*v),
            MirageValueEnum::Int16(v) => MirageValueEnum::Int16(*v),
            MirageValueEnum::Int32(v) => MirageValueEnum::Int32(*v),
            MirageValueEnum::Int64(v) => MirageValueEnum::Int64(*v),
            MirageValueEnum::UInt8(v) => MirageValueEnum::UInt8(*v),
            MirageValueEnum::UInt16(v) => MirageValueEnum::UInt16(*v),
            MirageValueEnum::UInt32(v) => MirageValueEnum::UInt32(*v),
            MirageValueEnum::UInt64(v) => MirageValueEnum::UInt64(*v),
            MirageValueEnum::Float32(v) => MirageValueEnum::Float32(*v),
            MirageValueEnum::Float64(v) => MirageValueEnum::Float64(*v),
            MirageValueEnum::Array(a) => {
                let mut values: Vec<MirageValueEnum> = Vec::new();
                let mut i: usize = 0;
                while i < a.values.len()
                    invariant
                        i <= a.values@.len(),
                        *self == MirageValueEnum::Array(*a),
                        values@.len() == i,
                        forall|j: int| 0 <= j < i ==> #[trigger] values@[j]@ == a.values@[j]@,
                    decreases a.values@.len() - i,
                {
                    proof {
                        assert(decreases_to!(*self => self->Array_0));
                        assert(decreases_to!(self->Array_0 => self->Array_0.values));
                        assert(decreases_to!(a.values => a.values[i as int]));
                    }
                    values.push(a.values[i].duplicate());
                    i = i + 1;
                }
                assert(values_view(values@) =~= values_view(a.values@));
                let r = MirageValueEnum::Array(ArrayValue { ty: a.ty.clone(), values });
                proof {
                    lemma_aggregate_view(r);
                    lemma_aggregate_view(*self);
                }
                r
            },
            MirageValueEnum::Struct(a) => {
                let mut values: Vec<MirageValueEnum> = Vec::new();
                let mut i: usize = 0;
                while i < a.values.len()
                    invariant
                        i <= a.values@.len(),
                        *self == MirageValueEnum::Struct(*a),
                        values@.len() == i,
                        forall|j: int| 0 <= j < i ==> #[trigger] values@[j]@ == a.values@[j]@,
                    decreases a.values@.len() - i,
                {
                    proof {
                        assert(decreases_to!(*self => self->Struct_0));
                        assert(decreases_to!(self->Struct_0 => self->Struct_0.values));
                        assert(decreases_to!(a.values => a.values[i as int]));
                    }
                    values.push(a.values[i].duplicate());
                    i = i + 1;
                }
                assert(values_view(values@) =~= values_view(a.values@));
                let r = MirageValueEnum::Struct(StructValue { ty: a.ty.clone(), values });
                proof {
                    lemma_aggregate_view(r);
                    lemma_aggregate_view(*self);
                }
                r
            },
            MirageValueEnum::Pointer(p) => MirageValueEnum::Pointer(PointerValue { ty: p.ty.clone() }),
            MirageValueEnum::Register(r) => MirageValueEnum::Register(r.duplicate()),
        }
    }

    pub fn get_type(&self) -> (r: MirageTypeEnum)
        ensures
            r@ == self@.type_of(),
    {
        match self {
            MirageValueEnum::Int8(v) => MirageTypeEnum::Int8(v.ty),
            MirageValueEnum::Int16(v) => MirageTypeEnum::Int16(v.ty),
            MirageValueEnum::Int32(v) => MirageTypeEnum::Int32(v.ty),
            MirageValueEnum::Int64(v) => MirageTypeEnum::Int64(v.ty),
            MirageValueEnum::UInt8(v) => MirageTypeEnum::UInt8(v.ty),
            MirageValueEnum::UInt16(v) => MirageTypeEnum::UInt16(v.ty),
            MirageValueEnum::UInt32(v) => MirageTypeEnum::UInt32(v.ty),
            MirageValueEnum::UInt64(v) => MirageTypeEnum::UInt64(v.ty),
            MirageValueEnum::Float32(v) => MirageTypeEnum::Float32(v.ty),
            MirageValueEnum::Float64(v) => MirageTypeEnum::Float64(v.ty),
            MirageValueEnum::Array(v) => MirageTypeEnum::Array(v.ty.clone()),
            MirageValueEnum::Register(r) => r.ty.duplicate(),
            MirageValueEnum::Pointer(p) => MirageTypeEnum::Pointer(p.ty.clone()),
            MirageValueEnum::Struct(v) => {
                let r = MirageTypeEnum::Struct(v.ty.clone());
                proof {
                    crate::types::lemma_struct_view(r);
                }
                r
            },
        }
    }

    /// This value, when it is a literal; `None` for a register or a pointer.
    pub fn expect_const_value(&self) -> (r: Option<Self>)
        ensures
            r is Some <==> self@.is_constant(),
            r is Some ==> r->0@ == self@,
    {
        match self {
            MirageValueEnum::Register(_) => None,
            MirageValueEnum::Pointer(_) => None,
            _ => Some(self.duplicate()),
        }
    }

    pub fn expect_register_value(&self) -> (r: Option<RegisterValue>)
        ensures
            r is Some <==> self@ is Register,
            r is Some ==> ValueModel::Register(r->0@) == self@,
    {
        match self {
            MirageValueEnum::Register(e) => Some(e.duplicate()),
            _ => None,
        }
    }

    /// This value as an integer operand: a signed integer literal, or a register of signed integer type.
    pub fn expect_int_value(&self) -> (r: Option<IntValue>)
        ensures
            r is Some <==> (self@ is Int8 || self@ is Int16 || self@ is Int32 || self@ is Int64
                || (self@ is Register && self@->Register_0.ty.is_int())),
            r is Some ==> r->0@ == self@,
    {
        match self {
            MirageValueEnum::Int8(v) => Some(IntValue::Int8(*v)),
            MirageValueEnum::Int16(v) => Some(IntValue::Int16(*v)),
            MirageValueEnum::Int32(v) => Some(IntValue::Int32(*v)),
            MirageValueEnum::Int64(v) => Some(IntValue::Int64(*v)),
            MirageValueEnum::Register(v) => {
                if v.ty.is_int() {
                    Some(IntValue::Register(v.duplicate()))
                } else {
                    None
                }
            },
            _ => None,
        }
    }

    /// The bytes of a string-shaped array whose elements are all 8-bit integer literals.
    pub open spec fn string_bytes(self) -> Option<Seq<u8>> {
        match self {
            MirageValueEnum::Array(a) => if a.ty@.is_string()
                && forall|i: int| 0 <= i < a.values@.len() ==> (#[trigger] a.values@[i]) is Int8 {
                Some(Seq::new(a.values@.len(), |i: int| a.values@[i]->Int8_0.value as u8))
            } else {
                None
            },
            _ => None,
        }
    }

    /// The text held by a string-shaped array of 8-bit integer literals, when its bytes are UTF-8.
    pub fn try_to_rust_string(&self) -> (r: Option<String>)
        ensures
            r is Some <==> (self.string_bytes() is Some && valid_utf8(self.string_bytes()->0)),
            r is Some ==> r->0@ == decode_utf8(self.string_bytes()->0),
    {
        match self {
            MirageValueEnum::Array(a) => {
                if !MirageTypeEnum::Array(a.ty.clone()).is_string() {
                    return None;
                }
                let mut bytes: Vec<u8> = Vec::new();
                let mut i: usize = 0;
                while i < a.values.len()
                    invariant
                        i <= a.values@.len(),
                        *self == MirageValueEnum::Array(*a),
                        bytes@.len() == i,
                        forall|j: int| 0 <= j < i ==> (#[trigger] a.values@[j]) is Int8,
                        forall|j: int| 0 <= j < i ==> #[trigger] bytes@[j] == a.values@[j]->Int8_0.value as u8,
                    decreases a.values@.len() - i,
                {
                    match &a.values[i] {
                        MirageValueEnum::Int8(c) => {
                            bytes.push(c.value as u8);
                        },
                        _ => {
                            return None;
                        },
                    }
                    i = i + 1;
                }
                proof {
                    assert(bytes@ =~= self.string_bytes()->0);
                }
                string_from_utf8(bytes)
            },
            _ => None,
        }
    }

    /// Whether this value is a literal: neither a register nor a pointer.
    pub fn is_const(&self) -> (r: bool)
        ensures
            r == self@.is_constant(),
    {
        match self {
            MirageValueEnum::Register(_) => false,
            MirageValueEnum::Pointer(_) => false,
            _ => true,
        }
    }

    pub fn print_to_string(&self) -> (r: String)
        ensures
            r@ == self@.text(),
        decreases self,
    {
        match self {
            MirageValueEnum::Int8(v) => v.print_to_string(),
            MirageValueEnum::Int16(v) => v.print_to_string(),
            MirageValueEnum::Int32(v) => v.print_to_string(),
            MirageValueEnum::Int64(v) => v.print_to_string(),
            MirageValueEnum::UInt8(v) => v.print_to_string(),
            MirageValueEnum::UInt16(v) => v.print_to_string(),
            MirageValueEnum::UInt32(v) => v.print_to_string(),
            MirageValueEnum::UInt64(v) => v.print_to_string(),
            MirageValueEnum::Float32(v) => v.print_to_string(),
            MirageValueEnum::Float64(v) => v.print_to_string(),
            MirageValueEnum::Array(a) => {
                let ghost vs = values_view(a.values@);
                let ghost texts = value_texts(vs);
                proof {
                    lemma_aggregate_view(*self);
                    lemma_values_view(a.values@);
                }
                let mut s = a.ty.print_to_string();
                s.append(" [");
                let ghost head = s@;
                let mut i: usize = 0;
                while i < a.values.len()
                    invariant
                        i <= a.values@.len(),
                        *self == MirageValueEnum::Array(*a),
                        vs == values_view(a.values@),
                        vs.len() == a.values@.len(),
                        forall|j: int| 0 <= j < vs.len() ==> #[trigger] vs[j] == a.values@[j]@,
                        texts == value_texts(vs),
                        s@ == head + join(texts.take(i as int), ", "@),
                    decreases a.values@.len() - i,
                {
                    proof {
                        assert(decreases_to!(*self => self->Array_0));
                        assert(decreases_to!(self->Array_0 => self->Array_0.values));
                        assert(decreases_to!(a.values => a.values[i as int]));
                        lemma_join_step(texts, ", "@, i as int);
                    }
                    if i > 0 {
                        s.append(", ");
                    }
                    s.append(a.values[i].print_to_string().as_str());
                    proof {
                        assert(s@ =~= head + join(texts.take(i + 1), ", "@));
                    }
                    i = i + 1;
                }
                proof {
                    lemma_join_all(texts, ", "@);
                }
                s.append("]");
                s
            },
            MirageValueEnum::Struct(a) => {
                let ghost vs = values_view(a.values@);
                let ghost texts = value_texts(vs);
                proof {
                    lemma_aggregate_view(*self);
                    lemma_values_view(a.values@);
                }
                let mut s = a.ty.print_to_string();
                s.append(" { ");
                let ghost head = s@;
                let mut i: usize = 0;
                while i < a.values.len()
                    invariant
                        i <= a.values@.len(),
                        *self == MirageValueEnum::Struct(*a),
                        vs == values_view(a.values@),
                        vs.len() == a.values@.len(),
                        forall|j: int| 0 <= j < vs.len() ==> #[trigger] vs[j] == a.values@[j]@,
                        texts == value_texts(vs),
                        s@ == head + join(texts.take(i as int), ", "@),
                    decreases a.values@.len() - i,
                {
                    proof {
                        assert(decreases_to!(*self => self->Struct_0));
                        assert(decreases_to!(self->Struct_0 => self->Struct_0.values));
                        assert(decreases_to!(a.values => a.values[i as int]));
                        lemma_join_step(texts, ", "@, i as int);
                    }
                    if i > 0 {
                        s.append(", ");
                    }
                    s.append(a.values[i].print_to_string().as_str());
                    proof {
                        assert(s@ =~= head + join(texts.take(i + 1), ", "@));
                    }
                    i = i + 1;
                }
                proof {
                    lemma_join_all(texts, ", "@);
                }
                s.append(" }");
                s
            },
            MirageValueEnum::Pointer(p) => p.print_to_string(),
            MirageValueEnum::Register(r) => r.print_to_string(),
        }
    }
}

impl Clone for MirageValueEnum {
    fn clone(&self) -> (r: Self)
        ensures
            r@ == self@,
    {
        self.duplicate()
    }
}

impl Stringify for MirageValueEnum {
    fn to_string(&self) -> (r: String) {
        self.print_to_string()
    }
}

impl Stringify for MirageTypeEnum {
    fn to_string(&self) -> (r: String) {
        self.print_to_string()
    }
}

/// Relies on `String::from_utf8`: it accepts exactly the valid UTF-8 byte strings and
/// decodes them.
#[verifier::external_body]
fn string_from_utf8(bytes: Vec<u8>) -> (r: Option<String>)
    ensures
        r is Some <==> valid_utf8(bytes@),
        r is Some ==> r->0@ == decode_utf8(bytes@),
{
    String::from_utf8(bytes).ok()
}

/// An integer operand: a signed integer literal or a register.
#[derive(Debug, PartialEq)]
pub enum IntValue {
    Int8(Int8Value),
    Int16(Int16Value),
    Int32(Int32Value),
    Int64(Int64Value),
    Register(RegisterValue),
}

impl View for IntValue {
    type V = ValueModel;

    open spec fn view(&self) -> ValueModel {
        match self {
            IntValue::Int8(v) => ValueModel::Int8(v.value),
            IntValue::Int16(v) => ValueModel::Int16(v.value),
            IntValue::Int32(v) => ValueModel::Int32(v.value),
            IntValue::Int64(v) => ValueModel::Int64(v.value),
            IntValue::Register(r) => ValueModel::Register(r@),
        }
    }
}

impl IntValue {
    /// The bit width of this operand: that of its literal, or that of the register's type.
    pub open spec fn bits(self) -> nat {
        match self {
            IntValue::Int8(_) => 8,
            IntValue::Int16(_) => 16,
            IntValue::Int32(_) => 32,
            IntValue::Int64(_) => 64,
            IntValue::Register(r) => 8 * r.ty@.byte_size(),
        }
    }

    /// The width of a register operand fits in a `usize`.
    pub open spec fn well_sized(self) -> bool {
        self is Register ==> self->Register_0.ty@.fits()
    }

    pub fn expect_int8_value(&self) -> (r: Int8Value)
        requires
            self is Int8,
        ensures
            r == self->Int8_0,
    {
        match self {
            IntValue::Int8(e) => *e,
            _ => Int8Value::new(0),
        }
    }

    pub fn expect_int16_value(&self) -> (r: Int16Value)
        requires
            self is Int16,
        ensures
            r == self->Int16_0,
    {
        match self {
            IntValue::Int16(e) => *e,
            _ => Int16Value::new(0),
        }
    }

    pub fn expect_int32_value(&self) -> (r: Int32Value)
        requires
            self is Int32,
        ensures
            r == self->Int32_0,
    {
        match self {
            IntValue::Int32(e) => *e,
            _ => Int32Value::new(0),
        }
    }

    pub fn expect_int64_value(&self) -> (r: Int64Value)
        requires
            self is Int64,
        ensures
            r == self->Int64_0,
    {
        match self {
            IntValue::Int64(e) => *e,
            _ => Int64Value::new(0),
        }
    }

    /// The size in bytes of this operand in memory; a register holds a full machine word.
    pub fn get_mem_size(&self) -> (r: usize)
        ensures
            r == (match self {
                IntValue::Int8(_) => 1usize,
                IntValue::Int16(_) => 2,
                IntValue::Int32(_) => 4,
                _ => 8,
            }),
    {
        match self {
            IntValue::Int8(_) => 1,
            IntValue::Int16(_) => 2,
            IntValue::Int32(_) => 4,
            IntValue::Int64(_) => 8,
            IntValue::Register(_) => 8,
        }
    }

    pub fn get_max_bits(&self) -> (r: usize)
        requires
            self.well_sized(),
        ensures
            r == self.bits(),
    {
        match self {
            IntValue::Int8(_) => 8,
            IntValue::Int16(_) => 16,
            IntValue::Int32(_) => 32,
            IntValue::Int64(_) => 64,
            IntValue::Register(e) => e.ty.get_max_bits(),
        }
    }

    pub fn to_mirage_value(&self) -> (r: MirageValueEnum)
        ensures
            r@ == self@,
    {
        match self {
            IntValue::Int8(v) => MirageValueEnum::Int8(*v),
            IntValue::Int16(v) => MirageValueEnum::Int16(*v),
            IntValue::Int32(v) => MirageValueEnum::Int32(*v),
            IntValue::Int64(v) => MirageValueEnum::Int64(*v),
            IntValue::Register(v) => MirageValueEnum::Register(v.duplicate()),
        }
    }

    /// Turns this operand into a value, without copying.
    pub fn into_mirage_value(self) -> (r: MirageValueEnum)
        ensures
            r@ == self@,
    {
        match self {
            IntValue::Int8(v) => MirageValueEnum::Int8(v),
            IntValue::Int16(v) => MirageValueEnum::Int16(v),
            IntValue::Int32(v) => MirageValueEnum::Int32(v),
            IntValue::Int64(v) => MirageValueEnum::Int64(v),
            IntValue::Register(v) => MirageValueEnum::Register(v),
        }
    }
}

/// An unsigned integer literal.
#[derive(Debug, Clone, Copy, PartialEq)]
pub enum UIntValue {
    UInt8(UInt8Value),
    UInt16(UInt16Value),
    UInt32(UInt32Value),
    UInt64(UInt64Value),
}

impl From<UIntValue> for MirageValueEnum {
    fn from(v: UIntValue) -> (r: Self)
    {
        match v {
            UIntValue::UInt8(x) => MirageValueEnum::UInt8(x),
            UIntValue::UInt16(x) => MirageValueEnum::UInt16(x),
            UIntValue::UInt32(x) => MirageValueEnum::UInt32(x),
            UIntValue::UInt64(x) => MirageValueEnum::UInt64(x),
        }
    }
}

impl vstd::std_specs::convert::FromSpecImpl<UIntValue> for MirageValueEnum {
    open spec fn obeys_from_spec() -> bool {
        true
    }

    open spec fn from_spec(v: UIntValue) -> Self {
        match v {
            UIntValue::UInt8(x) => MirageValueEnum::UInt8(x),
            UIntValue::UInt16(x) => MirageValueEnum::UInt16(x),
            UIntValue::UInt32(x) => MirageValueEnum::UInt32(x),
            UIntValue::UInt64(x) => MirageValueEnum::UInt64(x),
        }
    }
}

/// A floating-point literal, held as its bit pattern.
#[derive(Debug, Clone, Copy, PartialEq)]
pub enum FloatValue {
    Float32(Float32Value),
    Float64(Float64Value),
}

impl From<FloatValue> for MirageValueEnum {
    fn from(v: FloatValue) -> (r: Self)
    {
        match v {
            FloatValue::Float32(x) => MirageValueEnum::Float32(x),
            FloatValue::Float64(x) => MirageValueEnum::Float64(x),
        }
    }
}

impl vstd::std_specs::convert::FromSpecImpl<FloatValue> for MirageValueEnum {
    open spec fn obeys_from_spec() -> bool {
        true
    }

    open spec fn from_spec(v: FloatValue) -> Self {
        match v {
            FloatValue::Float32(x) => MirageValueEnum::Float32(x),
            FloatValue::Float64(x) => MirageValueEnum::Float64(x),
        }
    }
}

/// An array literal.
#[derive(Debug, PartialEq)]
pub struct ArrayValue {
    pub ty: ArrayType,
    pub values: Vec<MirageValueEnum>,
}

impl ArrayValue {
    pub fn new(ty: ArrayType, values: Vec<MirageValueEnum>) -> (r: Self)
        ensures
            r.ty == ty,
            r.values == values,
    {
        Self { ty, values }
    }

    pub fn print_to_string(&self) -> (r: String)
        ensures
            r@ == ValueModel::Array(self.ty@, values_view(self.values@)).text(),
    {
        let v = MirageValueEnum::Array(ArrayValue { ty: self.ty.clone(), values: duplicate_values(&self.values) });
        proof {
            lemma_aggregate_view(v);
        }
        v.print_to_string()
    }

    pub fn to_mirage_value(&self) -> (r: MirageValueEnum)
        ensures
            r@ == ValueModel::Array(self.ty@, values_view(self.values@)),
    {
        let r = MirageValueEnum::Array(ArrayValue { ty: self.ty.clone(), values: duplicate_values(&self.values) });
        proof {
            lemma_aggregate_view(r);
        }
        r
    }
}

/// A pointer value; never a literal.
#[derive(Debug, PartialEq, Eq, Hash)]
pub struct PointerValue {
    pub ty: PointerType,
}

impl PointerValue {
    pub fn new(ty: PointerType) -> (r: Self)
        ensures
            r.ty == ty,
    {
        Self { ty }
    }

    pub fn print_to_string(&self) -> (r: String)
        ensures
            r@ == self.ty@.text() + "*"@,
    {
        let mut s = self.ty.print_to_string();
        s.append("*");
        s
    }
}

impl Clone for PointerValue {
    fn clone(&self) -> (r: Self)
        ensures
            r.ty@ == self.ty@,
    {
        PointerValue { ty: self.ty.clone() }
    }
}

/// A register operand. Two registers are equal when their index and class are:
/// neither the type nor the flags take part in that equality.
#[derive(Debug, Eq)]
pub struct RegisterValue {
    pub index: usize,
    pub register_type: RegisterType,
    pub ty: MirageTypeEnum,
    pub flags: Flags,
}

impl View for RegisterValue {
    type V = RegisterModel;

    open spec fn view(&self) -> RegisterModel {
        RegisterModel { index: self.index, class: self.register_type, ty: self.ty@, flags: self.flags@ }
    }
}

impl RegisterValue {
    pub fn new(index: usize, register_type: RegisterType, ty: MirageTypeEnum) -> (r: Self)
        ensures
            r@ == (RegisterModel { index, class: register_type, ty: ty@, flags: Seq::empty() }),
    {
        let r = Self { index, register_type, ty, flags: Flags::new(Vec::new()) };
        assert(r.flags@ =~= Seq::empty());
        r
    }

    /// A copy of this register, with the same type and flags.
    pub fn duplicate(&self) -> (r: Self)
        ensures
            r@ == self@,
    {
        RegisterValue {
            index: self.index,
            register_type: self.register_type,
            ty: self.ty.duplicate(),
            flags: self.flags.duplicate(),
        }
    }

    pub fn get_type(&self) -> (r: MirageTypeEnum)
        ensures
            r@ == self.ty@,
    {
        self.ty.duplicate()
    }

    /// The text of this register: class prefix, index, then its flags.
    pub fn print_to_string(&self) -> (r: String)
        ensures
            r@ == self@.text(),
    {
        let mut s = self.register_type.print_to_string();
        s.append(u64_text(self.index as u64).as_str());
        s.append(self.flags.print_to_string().as_str());
        s
    }

    pub fn to_mirage_value(&self) -> (r: MirageValueEnum)
        ensures
            r@ == ValueModel::Register(self@),
    {
        MirageValueEnum::Register(self.duplicate())
    }

    pub fn add_flag(&mut self, flag: Flag)
        ensures
            final(self)@ == (RegisterModel { flags: old(self)@.flags.push(flag@), ..old(self)@ }),
    {
        self.flags.push(flag);
    }

    pub fn contains_flag(&self, flag: &Flag) -> (r: bool)
        ensures
            r == self@.flags.contains(flag@),
    {
        self.flags.contains(flag)
    }

    pub fn remove_flag(&mut self, flag: &Flag)
        ensures
            final(self)@ == (RegisterModel {
                flags: old(self)@.flags.filter(|n: Seq<char>| n != flag@),
                ..old(self)@
            }),
    {
        self.flags = self.flags.without(flag);
    }
}

impl PartialEq for RegisterValue {
    fn eq(&self, other: &Self) -> (r: bool) {
        self.index == other.index && self.register_type == other.register_type
    }
}

impl vstd::std_specs::cmp::PartialEqSpecImpl for RegisterValue {
    open spec fn obeys_eq_spec() -> bool {
        true
    }

    open spec fn eq_spec(&self, other: &Self) -> bool {
        self.index == other.index && self.register_type == other.register_type
    }
}

/// Register identity: two registers are `==` exactly when their index and class agree,
/// whatever their types and flags.
pub proof fn lemma_register_identity(r: RegisterValue, s: RegisterValue)
    ensures
        (s.index == r.index && s.register_type == r.register_type) ==> r.eq_spec(&s),
        (s.index != r.index || s.register_type != r.register_type) ==> !r.eq_spec(&s),
{
}

impl Clone for RegisterValue {
    fn clone(&self) -> (r: Self)
        ensures
            r@ == self@,
    {
        self.duplicate()
    }
}

/// The class of a register, which partitions the index space.
#[derive(Debug, Clone, Copy, PartialEq, Eq, Hash, Structural)]
pub enum RegisterType {
    Register,
    Variable,
    Argument,
    Global,
}

impl RegisterType {
    /// The prefix of a register of this class in text.
    pub open spec fn prefix(self) -> Seq<char> {
        match self {
            RegisterType::Register => "r"@,
            RegisterType::Variable => "v"@,
            RegisterType::Argument => "arg"@,
            RegisterType::Global => "g"@,
        }
    }

    pub fn print_to_string(&self) -> (r: String)
        ensures
            r@ == self.prefix(),
    {
        match self {
            RegisterType::Register => String::from_str("r"),
            RegisterType::Variable => String::from_str("v"),
            RegisterType::Argument => String::from_str("arg"),
            RegisterType::Global => String::from_str("g"),
        }
    }
}

/// The classes of registers that a front end names itself.
#[derive(Debug, Clone, Copy, PartialEq)]
pub enum RegisterUserType {
    Register,
    Variable,
}

impl From<RegisterUserType> for RegisterType {
    fn from(t: RegisterUserType) -> (r: Self)
    {
        match t {
            RegisterUserType::Register => RegisterType::Register,
            RegisterUserType::Variable => RegisterType::Variable,
        }
    }
}

impl vstd::std_specs::convert::FromSpecImpl<RegisterUserType> for RegisterType {
    open spec fn obeys_from_spec() -> bool {
        true
    }

    open spec fn from_spec(t: RegisterUserType) -> Self {
        match t {
            RegisterUserType::Register => RegisterType::Register,
            RegisterUserType::Variable => RegisterType::Variable,
        }
    }
}

/// A struct literal.
#[derive(Debug, PartialEq)]
pub struct StructValue {
    pub ty: StructType,
    pub values: Vec<MirageValueEnum>,
}

impl StructValue {
    pub fn new(ty: StructType, values: Vec<MirageValueEnum>) -> (r: Self)
        ensures
            r.ty == ty,
            r.values == values,
    {
        Self { ty, values }
    }

    pub fn print_to_string(&self) -> (r: String)
        ensures
            r@ == ValueModel::Struct(self.ty@, values_view(self.values@)).text(),
    {
        let v = MirageValueEnum::Struct(StructValue { ty: self.ty.clone(), values: duplicate_values(&self.values) });
        proof {
            lemma_aggregate_view(v);
        }
        v.print_to_string()
    }
}

/// A value paired with a type; the payload of a constant.
#[derive(Debug, PartialEq)]
pub struct MirageObject {
    pub value: MirageValueEnum,
    pub ty: MirageTypeEnum,
}

/// The mathematical model of an object.
pub struct ObjectModel {
    pub value: ValueModel,
    pub ty: TypeModel,
}

impl View for MirageObject {
    type V = ObjectModel;

    open spec fn view(&self) -> ObjectModel {
        ObjectModel { value: self.value@, ty: self.ty@ }
    }
}

impl MirageObject {
    /// An object whose type is that of its value.
    pub fn from(value: MirageValueEnum) -> (r: Self)
        ensures
            r@ == (ObjectModel { value: value@, ty: value@.type_of() }),
    {
        let ty = value.get_type();
        Self { value, ty }
    }

    pub fn new(value: MirageValueEnum, ty: MirageTypeEnum) -> (r: Self)
        ensures
            r.value == value,
            r.ty == ty,
    {
        Self { value, ty }
    }

    pub fn get_type(&self) -> (r: MirageTypeEnum)
        ensures
            r@ == self.ty@,
    {
        self.ty.duplicate()
    }

    pub fn get_value(&self) -> (r: MirageValueEnum)
        ensures
            r@ == self.value@,
    {
        self.value.duplicate()
    }

    pub fn duplicate(&self) -> (r: Self)
        ensures
            r@ == self@,
    {
        MirageObject { value: self.value.duplicate(), ty: self.ty.duplicate() }
    }
}

impl Clone for MirageObject {
    fn clone(&self) -> (r: Self)
        ensures
            r@ == self@,
    {
        self.duplicate()
    }
}

impl Stringify for MirageObject {
    fn to_string(&self) -> (r: String) {
        self.value.print_to_string()
    }
}

} // verus!
