use vstd::prelude::*;
use vstd::string::*;

use crate::size::Size;
use crate::text::{decimal, join, lemma_join_all, lemma_join_step};
use crate::values::{
    Float32Value, Float64Value, Int16Value, Int32Value, Int64Value, Int8Value, UInt16Value,
    UInt32Value, UInt64Value, UInt8Value,
};

verus! {

broadcast use vstd::std_specs::vec::axiom_vec_index_decreases;

/// The sum of a sequence of naturals.
pub open spec fn sum_nat(s: Seq<nat>) -> nat
    decreases s.len(),
{
    if s.len() == 0 {
        0
    } else {
        sum_nat(s.drop_last()) + s.last()
    }
}

proof fn lemma_sum_nat_prefix(s: Seq<nat>, i: int)
    requires
        0 <= i < s.len(),
    ensures
        sum_nat(s.take(i + 1)) == sum_nat(s.take(i)) + s[i],
        sum_nat(s.take(i + 1)) <= sum_nat(s),
    decreases s.len() - i,
{
    assert(s.take(i + 1).drop_last() =~= s.take(i));
    if i + 1 < s.len() {
        lemma_sum_nat_prefix(s, i + 1);
    } else {
        assert(s.take(i + 1) =~= s);
    }
}

/// The mathematical model of a type.
pub enum TypeModel {
    Int8,
    Int16,
    Int32,
    Int64,
    UInt8,
    UInt16,
    UInt32,
    UInt64,
    Float32,
    Float64,
    Array(Box<TypeModel>, nat),
    Pointer(Box<TypeModel>),
    Struct(Seq<TypeModel>),
}

impl TypeModel {
    /// The number of bytes a value of this type occupies.
    pub open spec fn byte_size(self) -> nat
        decreases self,
    {
        match self {
            TypeModel::Int8 | TypeModel::UInt8 => 1,
            TypeModel::Int16 | TypeModel::UInt16 => 2,
            TypeModel::Int32 | TypeModel::UInt32 | TypeModel::Float32 => 4,
            TypeModel::Int64 | TypeModel::UInt64 | TypeModel::Float64 => 8,
            TypeModel::Array(e, n) => e.byte_size() * n,
            TypeModel::Pointer(_) => vstd::layout::size_of::<usize>(),
            TypeModel::Struct(fs) => sum_nat(Self::field_sizes(fs)),
        }
    }

    /// The byte sizes of a sequence of field types.
    pub open spec fn field_sizes(fs: Seq<TypeModel>) -> Seq<nat>
        decreases fs,
    {
        Seq::new(fs.len(), |i: int| if 0 <= i < fs.len() { fs[i].byte_size() } else { 0 })
    }

    /// The bit width of this type fits in a `usize`.
    pub open spec fn fits(self) -> bool {
        8 * self.byte_size() <= usize::MAX
    }

    /// The text of this type.
    pub open spec fn text(self) -> Seq<char>
        decreases self,
    {
        match self {
            TypeModel::Int8 => "@int8"@,
            TypeModel::Int16 => "@int16"@,
            TypeModel::Int32 => "@int32"@,
            TypeModel::Int64 => "@int64"@,
            TypeModel::UInt8 => "@uint8"@,
            TypeModel::UInt16 => "@uint16"@,
            TypeModel::UInt32 => "@uint32"@,
            TypeModel::UInt64 => "@uint64"@,
            TypeModel::Float32 => "@float32"@,
            TypeModel::Float64 => "@float64"@,
            TypeModel::Array(e, n) => "["@ + e.text() + "; "@ + decimal(n) + "]"@,
            TypeModel::Pointer(e) => e.text() + "*"@,
            TypeModel::Struct(fs) => "{"@ + join(type_texts(fs), ", "@) + "}"@,
        }
    }

    pub open spec fn is_int(self) -> bool {
        self is Int8 || self is Int16 || self is Int32 || self is Int64
    }

    pub open spec fn is_uint(self) -> bool {
        self is UInt8 || self is UInt16 || self is UInt32 || self is UInt64
    }

    pub open spec fn is_float(self) -> bool {
        self is Float32 || self is Float64
    }

    /// An array of 8-bit signed integers.
    pub open spec fn is_string(self) -> bool {
        match self {
            TypeModel::Array(e, _) => *e == TypeModel::Int8,
            _ => false,
        }
    }
}

/// The primitive type `@int8`.
#[derive(Debug, Clone, Copy, PartialEq, Eq, Hash)]
pub struct Int8Type {}

impl Int8Type {
    pub fn new() -> (r: Self) {
        Int8Type {}
    }

    pub fn size(&self) -> (r: Size)
        ensures
            r.bytes() == 1,
    {
        Size::new(1)
    }

    pub fn print_to_string(&self) -> (r: String)
        ensures
            r@ == "@int8"@,
    {
        String::from_str("@int8")
    }

    /// A constant of this type.
    pub fn const_value(&self, val: i8) -> (r: Int8Value)
        ensures
            r.value == val,
    {
        Int8Value::new(val)
    }
}

impl From<Int8Type> for MirageTypeEnum {
    fn from(ty: Int8Type) -> (r: Self)
        ensures
            r == MirageTypeEnum::Int8(ty),
    {
        MirageTypeEnum::Int8(ty)
    }
}

impl vstd::std_specs::convert::FromSpecImpl<Int8Type> for MirageTypeEnum {
    open spec fn obeys_from_spec() -> bool {
        true
    }

    open spec fn from_spec(ty: Int8Type) -> Self {
        MirageTypeEnum::Int8(ty)
    }
}

/// The primitive type `@int16`.
#[derive(Debug, Clone, Copy, PartialEq, Eq, Hash)]
pub struct Int16Type {}

impl Int16Type {
    pub fn new() -> (r: Self) {
        Int16Type {}
    }

    pub fn size(&self) -> (r: Size)
        ensures
            r.bytes() == 2,
    {
        Size::new(2)
    }

    pub fn print_to_string(&self) -> (r: String)
        ensures
            r@ == "@int16"@,
    {
        String::from_str("@int16")
    }

    /// A constant of this type.
    pub fn const_value(&self, val: i16) -> (r: Int16Value)
        ensures
            r.value == val,
    {
        Int16Value::new(val)
    }
}

impl From<Int16Type> for MirageTypeEnum {
    fn from(ty: Int16Type) -> (r: Self)
        ensures
            r == MirageTypeEnum::Int16(ty),
    {
        MirageTypeEnum::Int16(ty)
    }
}

impl vstd::std_specs::convert::FromSpecImpl<Int16Type> for MirageTypeEnum {
    open spec fn obeys_from_spec() -> bool {
        true
    }

    open spec fn from_spec(ty: Int16Type) -> Self {
        MirageTypeEnum::Int16(ty)
    }
}

/// The primitive type `@int32`.
#[derive(Debug, Clone, Copy, PartialEq, Eq, Hash)]
pub struct Int32Type {}

impl Int32Type {
    pub fn new() -> (r: Self) {
        Int32Type {}
    }

    pub fn size(&self) -> (r: Size)
        ensures
            r.bytes() == 4,
    {
        Size::new(4)
    }

    pub fn print_to_string(&self) -> (r: String)
        ensures
            r@ == "@int32"@,
    {
        String::from_str("@int32")
    }

    /// A constant of this type.
    pub fn const_value(&self, val: i32) -> (r: Int32Value)
        ensures
            r.value == val,
    {
        Int32Value::new(val)
    }
}

impl From<Int32Type> for MirageTypeEnum {
    fn from(ty: Int32Type) -> (r: Self)
        ensures
            r == MirageTypeEnum::Int32(ty),
    {
        MirageTypeEnum::Int32(ty)
    }
}

impl vstd::std_specs::convert::FromSpecImpl<Int32Type> for MirageTypeEnum {
    open spec fn obeys_from_spec() -> bool {
        true
    }

    open spec fn from_spec(ty: Int32Type) -> Self {
        MirageTypeEnum::Int32(ty)
    }
}

/// The primitive type `@int64`.
#[derive(Debug, Clone, Copy, PartialEq, Eq, Hash)]
pub struct Int64Type {}

impl Int64Type {
    pub fn new() -> (r: Self) {
        Int64Type {}
    }

    pub fn size(&self) -> (r: Size)
        ensures
            r.bytes() == 8,
    {
        Size::new(8)
    }

    pub fn print_to_string(&self) -> (r: String)
        ensures
            r@ == "@int64"@,
    {
        String::from_str("@int64")
    }

    /// A constant of this type.
    pub fn const_value(&self, val: i64) -> (r: Int64Value)
        ensures
            r.value == val,
    {
        Int64Value::new(val)
    }
}

impl From<Int64Type> for MirageTypeEnum {
    fn from(ty: Int64Type) -> (r: Self)
        ensures
            r == MirageTypeEnum::Int64(ty),
    {
        MirageTypeEnum::Int64(ty)
    }
}

impl vstd::std_specs::convert::FromSpecImpl<Int64Type> for MirageTypeEnum {
    open spec fn obeys_from_spec() -> bool {
        true
    }

    open spec fn from_spec(ty: Int64Type) -> Self {
        MirageTypeEnum::Int64(ty)
    }
}

/// The primitive type `@uint8`.
#[derive(Debug, Clone, Copy, PartialEq, Eq, Hash)]
pub struct UInt8Type {}

impl UInt8Type {
    pub fn new() -> (r: Self) {
        UInt8Type {}
    }

    pub fn size(&self) -> (r: Size)
        ensures
            r.bytes() == 1,
    {
        Size::new(1)
    }

    pub fn print_to_string(&self) -> (r: String)
        ensures
            r@ == "@uint8"@,
    {
        String::from_str("@uint8")
    }

    /// A constant of this type.
    pub fn const_value(&self, val: u8) -> (r: UInt8Value)
        ensures
            r.value == val,
    {
        UInt8Value::new(val)
    }
}

impl From<UInt8Type> for MirageTypeEnum {
    fn from(ty: UInt8Type) -> (r: Self)
        ensures
            r == MirageTypeEnum::UInt8(ty),
    {
        MirageTypeEnum::UInt8(ty)
    }
}

impl vstd::std_specs::convert::FromSpecImpl<UInt8Type> for MirageTypeEnum {
    open spec fn obeys_from_spec() -> bool {
        true
    }

    open spec fn from_spec(ty: UInt8Type) -> Self {
        MirageTypeEnum::UInt8(ty)
    }
}

/// The primitive type `@uint16`.
#[derive(Debug, Clone, Copy, PartialEq, Eq, Hash)]
pub struct UInt16Type {}

impl UInt16Type {
    pub fn new() -> (r: Self) {
        UInt16Type {}
    }

    pub fn size(&self) -> (r: Size)
        ensures
            r.bytes() == 2,
    {
        Size::new(2)
    }

    pub fn print_to_string(&self) -> (r: String)
        ensures
            r@ == "@uint16"@,
    {
        String::from_str("@uint16")
    }

    /// A constant of this type.
    pub fn const_value(&self, val: u16) -> (r: UInt16Value)
        ensures
            r.value == val,
    {
        UInt16Value::new(val)
    }
}

impl From<UInt16Type> for MirageTypeEnum {
    fn from(ty: UInt16Type) -> (r: Self)
        ensures
            r == MirageTypeEnum::UInt16(ty),
    {
        MirageTypeEnum::UInt16(ty)
    }
}

impl vstd::std_specs::convert::FromSpecImpl<UInt16Type> for MirageTypeEnum {
    open spec fn obeys_from_spec() -> bool {
        true
    }

    open spec fn from_spec(ty: UInt16Type) -> Self {
        MirageTypeEnum::UInt16(ty)
    }
}

/// The primitive type `@uint32`.
#[derive(Debug, Clone, Copy, PartialEq, Eq, Hash)]
pub struct UInt32Type {}

impl UInt32Type {
    pub fn new() -> (r: Self) {
        UInt32Type {}
    }

    pub fn size(&self) -> (r: Size)
        ensures
            r.bytes() == 4,
    {
        Size::new(4)
    }

    pub fn print_to_string(&self) -> (r: String)
        ensures
            r@ == "@uint32"@,
    {
        String::from_str("@uint32")
    }

    /// A constant of this type.
    pub fn const_value(&self, val: u32) -> (r: UInt32Value)
        ensures
            r.value == val,
    {
        UInt32Value::new(val)
    }
}

impl From<UInt32Type> for MirageTypeEnum {
    fn from(ty: UInt32Type) -> (r: Self)
        ensures
            r == MirageTypeEnum::UInt32(ty),
    {
        MirageTypeEnum::UInt32(ty)
    }
}

impl vstd::std_specs::convert::FromSpecImpl<UInt32Type> for MirageTypeEnum {
    open spec fn obeys_from_spec() -> bool {
        true
    }

    open spec fn from_spec(ty: UInt32Type) -> Self {
        MirageTypeEnum::UInt32(ty)
    }
}

/// The primitive type `@uint64`.
#[derive(Debug, Clone, Copy, PartialEq, Eq, Hash)]
pub struct UInt64Type {}

impl UInt64Type {
    pub fn new() -> (r: Self) {
        UInt64Type {}
    }

    pub fn size(&self) -> (r: Size)
        ensures
            r.bytes() == 8,
    {
        Size::new(8)
    }

    pub fn print_to_string(&self) -> (r: String)
        ensures
            r@ == "@uint64"@,
    {
        String::from_str("@uint64")
    }

    /// A constant of this type.
    pub fn const_value(&self, val: u64) -> (r: UInt64Value)
        ensures
            r.value == val,
    {
        UInt64Value::new(val)
    }
}

impl From<UInt64Type> for MirageTypeEnum {
    fn from(ty: UInt64Type) -> (r: Self)
        ensures
            r == MirageTypeEnum::UInt64(ty),
    {
        MirageTypeEnum::UInt64(ty)
    }
}

impl vstd::std_specs::convert::FromSpecImpl<UInt64Type> for MirageTypeEnum {
    open spec fn obeys_from_spec() -> bool {
        true
    }

    open spec fn from_spec(ty: UInt64Type) -> Self {
        MirageTypeEnum::UInt64(ty)
    }
}

/// The primitive type `@float32`.
#[derive(Debug, Clone, Copy, PartialEq, Eq, Hash)]
pub struct Float32Type {}

impl Float32Type {
    pub fn new() -> (r: Self) {
        Float32Type {}
    }

    pub fn size(&self) -> (r: Size)
        ensures
            r.bytes() == 4,
    {
        Size::new(4)
    }

    pub fn print_to_string(&self) -> (r: String)
        ensures
            r@ == "@float32"@,
    {
        String::from_str("@float32")
    }

    /// A constant of this type (its payload is the IEEE-754 bit pattern).
    pub fn const_value(&self, val: u32) -> (r: Float32Value)
        ensures
            r.value == val,
    {
        Float32Value::new(val)
    }
}

impl From<Float32Type> for MirageTypeEnum {
    fn from(ty: Float32Type) -> (r: Self)
        ensures
            r == MirageTypeEnum::Float32(ty),
    {
        MirageTypeEnum::Float32(ty)
    }
}

impl vstd::std_specs::convert::FromSpecImpl<Float32Type> for MirageTypeEnum {
    open spec fn obeys_from_spec() -> bool {
        true
    }

    open spec fn from_spec(ty: Float32Type) -> Self {
        MirageTypeEnum::Float32(ty)
    }
}

/// The primitive type `@float64`.
#[derive(Debug, Clone, Copy, PartialEq, Eq, Hash)]
pub struct Float64Type {}

impl Float64Type {
    pub fn new() -> (r: Self) {
        Float64Type {}
    }

    pub fn size(&self) -> (r: Size)
        ensures
            r.bytes() == 8,
    {
        Size::new(8)
    }

    pub fn print_to_string(&self) -> (r: String)
        ensures
            r@ == "@float64"@,
    {
        String::from_str("@float64")
    }

    /// A constant of this type (its payload is the IEEE-754 bit pattern).
    pub fn const_value(&self, val: u64) -> (r: Float64Value)
        ensures
            r.value == val,
    {
        Float64Value::new(val)
    }
}

impl From<Float64Type> for MirageTypeEnum {
    fn from(ty: Float64Type) -> (r: Self)
        ensures
            r == MirageTypeEnum::Float64(ty),
    {
        MirageTypeEnum::Float64(ty)
    }
}

impl vstd::std_specs::convert::FromSpecImpl<Float64Type> for MirageTypeEnum {
    open spec fn obeys_from_spec() -> bool {
        true
    }

    open spec fn from_spec(ty: Float64Type) -> Self {
        MirageTypeEnum::Float64(ty)
    }
}

/// An array type: `length` elements of type `element`.
#[derive(Debug, PartialEq, Eq, Hash)]
pub struct ArrayType {
    pub element: Box<MirageTypeEnum>,
    pub length: usize,
}

/// A pointer to a value of type `element`.
#[derive(Debug, PartialEq, Eq, Hash)]
pub struct PointerType {
    pub element: Box<MirageTypeEnum>,
}

/// A struct type: its fields in declared order.
#[derive(Debug, PartialEq, Eq, Hash)]
pub struct StructType {
    pub fields: Vec<MirageTypeEnum>,
}

impl View for ArrayType {
    type V = TypeModel;

    open spec fn view(&self) -> TypeModel {
        TypeModel::Array(Box::new((*self.element)@), self.length as nat)
    }
}

impl View for PointerType {
    type V = TypeModel;

    open spec fn view(&self) -> TypeModel {
        TypeModel::Pointer(Box::new((*self.element)@))
    }
}

impl View for StructType {
    type V = TypeModel;

    open spec fn view(&self) -> TypeModel {
        TypeModel::Struct(types_view(self.fields@))
    }
}

/// The texts of a sequence of types.
pub open spec fn type_texts(fs: Seq<TypeModel>) -> Seq<Seq<char>>
    decreases fs,
{
    Seq::new(fs.len(), |i: int| if 0 <= i < fs.len() { fs[i].text() } else { Seq::empty() })
}

/// The models of a sequence of types.
pub open spec fn types_view(ts: Seq<MirageTypeEnum>) -> Seq<TypeModel> {
    Seq::new(ts.len(), |i: int| if 0 <= i < ts.len() { ts[i]@ } else { TypeModel::Int8 })
}

impl ArrayType {
    pub fn new(element: MirageTypeEnum, length: usize) -> (r: Self)
        ensures
            r@ == TypeModel::Array(Box::new(element@), length as nat),
    {
        ArrayType { element: Box::new(element), length }
    }

    pub fn print_to_string(&self) -> (r: String)
        ensures
            r@ == self@.text(),
    {
        MirageTypeEnum::Array(self.clone()).print_to_string()
    }
}

impl PointerType {
    pub fn new(element: MirageTypeEnum) -> (r: Self)
        ensures
            r@ == TypeModel::Pointer(Box::new(element@)),
    {
        PointerType { element: Box::new(element) }
    }

    pub fn print_to_string(&self) -> (r: String)
        ensures
            r@ == self@.text(),
    {
        MirageTypeEnum::Pointer(self.clone()).print_to_string()
    }
}

impl StructType {
    pub fn new(fields: Vec<MirageTypeEnum>) -> (r: Self)
        ensures
            r@ == TypeModel::Struct(types_view(fields@)),
    {
        StructType { fields }
    }

    pub fn print_to_string(&self) -> (r: String)
        ensures
            r@ == self@.text(),
    {
        let t = MirageTypeEnum::Struct(self.clone());
        proof {
            lemma_struct_view(t);
        }
        t.print_to_string()
    }
}

/// A type of the IR.
#[derive(Debug, PartialEq, Eq, Hash)]
pub enum MirageTypeEnum {
    Int8(Int8Type),
    Int16(Int16Type),
    Int32(Int32Type),
    Int64(Int64Type),
    UInt8(UInt8Type),
    UInt16(UInt16Type),
    UInt32(UInt32Type),
    UInt64(UInt64Type),
    Float32(Float32Type),
    Float64(Float64Type),
    Array(ArrayType),
    Pointer(PointerType),
    Struct(StructType),
}

impl View for MirageTypeEnum {
    type V = TypeModel;

    open spec fn view(&self) -> TypeModel {
        self.model()
    }
}

impl MirageTypeEnum {
    /// The model of this type.
    pub open spec fn model(&self) -> TypeModel
        decreases self,
    {
        match self {
            MirageTypeEnum::Int8(_) => TypeModel::Int8,
            MirageTypeEnum::Int16(_) => TypeModel::Int16,
            MirageTypeEnum::Int32(_) => TypeModel::Int32,
            MirageTypeEnum::Int64(_) => TypeModel::Int64,
            MirageTypeEnum::UInt8(_) => TypeModel::UInt8,
            MirageTypeEnum::UInt16(_) => TypeModel::UInt16,
            MirageTypeEnum::UInt32(_) => TypeModel::UInt32,
            MirageTypeEnum::UInt64(_) => TypeModel::UInt64,
            MirageTypeEnum::Float32(_) => TypeModel::Float32,
            MirageTypeEnum::Float64(_) => TypeModel::Float64,
            MirageTypeEnum::Array(a) => TypeModel::Array(Box::new((*a.element).model()), a.length as nat),
            MirageTypeEnum::Pointer(p) => TypeModel::Pointer(Box::new((*p.element).model())),
            MirageTypeEnum::Struct(s) => TypeModel::Struct(
                Seq::new(s.fields@.len(), |i: int| if 0 <= i < s.fields@.len() { s.fields@[i].model() } else { TypeModel::Int8 }),
            ),
        }
    }
}

pub proof fn lemma_types_view(ts: Seq<MirageTypeEnum>)
    ensures
        types_view(ts).len() == ts.len(),
        forall|i: int| 0 <= i < ts.len() ==> #[trigger] types_view(ts)[i] == ts[i]@,
{
    let q = Seq::new(ts.len(), |i: int| if 0 <= i < ts.len() { ts[i]@ } else { TypeModel::Int8 });
    assert(q.len() == ts.len());
    assert(types_view(ts) == q);
}

pub proof fn lemma_struct_view(t: MirageTypeEnum)
    requires
        t is Struct,
    ensures
        t@ == TypeModel::Struct(types_view(t->Struct_0.fields@)),
{
    let fs = t->Struct_0.fields@;
    if let TypeModel::Struct(a) = t@ {
        assert(a.len() == fs.len());
        assert forall|i: int| 0 <= i < fs.len() implies a[i] == types_view(fs)[i] by {
            assert(a[i] == fs[i]@);
        }
        assert(a =~= types_view(fs));
    }
}

/// Copies a sequence of types.
pub fn duplicate_types(ts: &Vec<MirageTypeEnum>) -> (r: Vec<MirageTypeEnum>)
    ensures
        types_view(r@) == types_view(ts@),
{
    let mut r: Vec<MirageTypeEnum> = Vec::new();
    let mut i: usize = 0;
    while i < ts.len()
        invariant
            i <= ts@.len(),
            r@.len() == i,
            forall|j: int| 0 <= j < i ==> #[trigger] r@[j]@ == ts@[j]@,
        decreases ts@.len() - i,
    {
        r.push(ts[i].duplicate());
        i = i + 1;
    }
    assert(types_view(r@) =~= types_view(ts@));
    r
}

impl MirageTypeEnum {
    /// A copy of this type.
    pub fn duplicate(&self) -> (r: Self)
        ensures
            r@ == self@,
        decreases self,
    {
        match self {
            MirageTypeEnum::Int8(_) => MirageTypeEnum::Int8(Int8Type {}),
            MirageTypeEnum::Int16(_) => MirageTypeEnum::Int16(Int16Type {}),
            MirageTypeEnum::Int32(_) => MirageTypeEnum::Int32(Int32Type {}),
            MirageTypeEnum::Int64(_) => MirageTypeEnum::Int64(Int64Type {}),
            MirageTypeEnum::UInt8(_) => MirageTypeEnum::UInt8(UInt8Type {}),
            MirageTypeEnum::UInt16(_) => MirageTypeEnum::UInt16(UInt16Type {}),
            MirageTypeEnum::UInt32(_) => MirageTypeEnum::UInt32(UInt32Type {}),
            MirageTypeEnum::UInt64(_) => MirageTypeEnum::UInt64(UInt64Type {}),
            MirageTypeEnum::Float32(_) => MirageTypeEnum::Float32(Float32Type {}),
            MirageTypeEnum::Float64(_) => MirageTypeEnum::Float64(Float64Type {}),
            MirageTypeEnum::Array(a) => {
                let e = (*a.element).duplicate();
                MirageTypeEnum::Array(ArrayType { element: Box::new(e), length: a.length })
            },
            MirageTypeEnum::Pointer(p) => {
                let e = (*p.element).duplicate();
                MirageTypeEnum::Pointer(PointerType { element: Box::new(e) })
            },
            MirageTypeEnum::Struct(s) => {
                let mut fields: Vec<MirageTypeEnum> = Vec::new();
                let mut i: usize = 0;
                while i < s.fields.len()
                    invariant
                        i <= s.fields@.len(),
                        *self == MirageTypeEnum::Struct(*s),
                        fields@.len() == i,
                        forall|j: int| 0 <= j < i ==> #[trigger] fields@[j]@ == s.fields@[j]@,
                    decreases s.fields@.len() - i,
                {
                    proof {
                        assert(decreases_to!(*self => self->Struct_0));
                        assert(decreases_to!(self->Struct_0 => self->Struct_0.fields));
                        assert(decreases_to!(s.fields => s.fields[i as int]));
                    }
                    let f = s.fields[i].duplicate();
                    fields.push(f);
                    i = i + 1;
                }
                assert(types_view(fields@) =~= types_view(s.fields@));
                let r = MirageTypeEnum::Struct(StructType { fields });
                proof {
                    lemma_struct_view(r);
                    lemma_struct_view(*self);
                }
                r
            },
        }
    }

    /// The size in bytes of a value of this type.
    pub fn size(&self) -> (r: Size)
        requires
            self@.fits(),
        ensures
            r.bytes() == self@.byte_size(),
        decreases self,
    {
        match self {
            MirageTypeEnum::Int8(t) => t.size(),
            MirageTypeEnum::Int16(t) => t.size(),
            MirageTypeEnum::Int32(t) => t.size(),
            MirageTypeEnum::Int64(t) => t.size(),
            MirageTypeEnum::UInt8(t) => t.size(),
            MirageTypeEnum::UInt16(t) => t.size(),
            MirageTypeEnum::UInt32(t) => t.size(),
            MirageTypeEnum::UInt64(t) => t.size(),
            MirageTypeEnum::Float32(t) => t.size(),
            MirageTypeEnum::Float64(t) => t.size(),
            MirageTypeEnum::Array(a) => {
                if a.length == 0 {
                    proof {
                        let eb = (*a.element)@.byte_size();
                        assert(eb * 0 == 0) by (nonlinear_arith);
                    }
                    return Size::new(0);
                }
                proof {
                    let eb = (*a.element)@.byte_size();
                    assert(eb * a.length >= eb) by (nonlinear_arith)
                        requires a.length >= 1;
                }
                let e = (*a.element).size().size();
                proof {
                    assert(8 * (e * a.length) <= usize::MAX);
                    if a.length > 0 {
                        assert(e * a.length >= e) by (nonlinear_arith)
                            requires a.length >= 1;
                    }
                }
                Size::new(e * a.length)
            },
            MirageTypeEnum::Pointer(_) => Size::of::<usize>(),
            MirageTypeEnum::Struct(s) => {
                let ghost sizes = TypeModel::field_sizes(types_view(s.fields@));
                let ghost m = self@;
                proof {
                    lemma_struct_view(*self);
                    lemma_types_view(s.fields@);
                }
                let mut total: usize = 0;
                let mut i: usize = 0;
                while i < s.fields.len()
                    invariant
                        i <= s.fields@.len(),
                        *self == MirageTypeEnum::Struct(*s),
                        m == self@,
                        m.fits(),
                        m == TypeModel::Struct(types_view(s.fields@)),
                        sizes == TypeModel::field_sizes(types_view(s.fields@)),
                        m.byte_size() == sum_nat(sizes),
                        total == sum_nat(sizes.take(i as int)),
                    decreases s.fields@.len() - i,
                {
                    proof {
                        assert(decreases_to!(*self => self->Struct_0));
                        assert(decreases_to!(self->Struct_0 => self->Struct_0.fields));
                        assert(decreases_to!(s.fields => s.fields[i as int]));
                        lemma_types_view(s.fields@);
                        assert(types_view(s.fields@)[i as int] == s.fields@[i as int]@);
                        assert(sizes[i as int] == s.fields@[i as int]@.byte_size());
                        lemma_sum_nat_prefix(sizes, i as int);
                        assert(s.fields@[i as int]@.fits());
                    }
                    let f = s.fields[i].size().size();
                    proof {
                        lemma_sum_nat_prefix(sizes, i as int);
                    }
                    total = total + f;
                    i = i + 1;
                }
                proof {
                    assert(sizes.take(i as int) =~= sizes);
                }
                Size::new(total)
            },
        }
    }

    /// The number of bits of a value of this type.
    pub fn get_max_bits(&self) -> (r: usize)
        requires
            self@.fits(),
        ensures
            r == 8 * self@.byte_size(),
    {
        8 * self.size().size()
    }

    pub fn is_int(&self) -> (r: bool)
        ensures
            r == self@.is_int(),
    {
        match self {
            MirageTypeEnum::Int8(_) | MirageTypeEnum::Int16(_) | MirageTypeEnum::Int32(_) | MirageTypeEnum::Int64(_) => true,
            _ => false,
        }
    }

    pub fn is_uint(&self) -> (r: bool)
        ensures
            r == self@.is_uint(),
    {
        match self {
            MirageTypeEnum::UInt8(_) | MirageTypeEnum::UInt16(_) | MirageTypeEnum::UInt32(_) | MirageTypeEnum::UInt64(_) => true,
            _ => false,
        }
    }

    pub fn is_float(&self) -> (r: bool)
        ensures
            r == self@.is_float(),
    {
        match self {
            MirageTypeEnum::Float32(_) | MirageTypeEnum::Float64(_) => true,
            _ => false,
        }
    }

    /// Whether this is an array of 8-bit signed integers.
    pub fn is_string(&self) -> (r: bool)
        ensures
            r == self@.is_string(),
    {
        match self {
            MirageTypeEnum::Array(a) => match &*a.element {
                MirageTypeEnum::Int8(_) => true,
                _ => {
                    assert((*a.element).model() != TypeModel::Int8);
                    false
                },
            },
            _ => false,
        }
    }

    /// The type named by `s`, if it names a primitive type.
    pub fn from_str(s: &str) -> (r: Option<Self>)
        ensures
            s@ == "int8"@ ==> r == Some(MirageTypeEnum::Int8(Int8Type {})),
            s@ == "int16"@ ==> r == Some(MirageTypeEnum::Int16(Int16Type {})),
            s@ == "int32"@ ==> r == Some(MirageTypeEnum::Int32(Int32Type {})),
            s@ == "int64"@ ==> r == Some(MirageTypeEnum::Int64(Int64Type {})),
            s@ == "uint8"@ ==> r == Some(MirageTypeEnum::UInt8(UInt8Type {})),
            s@ == "uint16"@ ==> r == Some(MirageTypeEnum::UInt16(UInt16Type {})),
            s@ == "uint32"@ ==> r == Some(MirageTypeEnum::UInt32(UInt32Type {})),
            s@ == "uint64"@ ==> r == Some(MirageTypeEnum::UInt64(UInt64Type {})),
            s@ == "float32"@ ==> r == Some(MirageTypeEnum::Float32(Float32Type {})),
            s@ == "float64"@ ==> r == Some(MirageTypeEnum::Float64(Float64Type {})),
            r is Some <==> (s@ == "int8"@ || s@ == "int16"@ || s@ == "int32"@ || s@ == "int64"@ || s@ == "uint8"@ || s@ == "uint16"@ || s@ == "uint32"@ || s@ == "uint64"@ || s@ == "float32"@ || s@ == "float64"@),
    {
        proof {
            reveal_strlit("int8");
            reveal_strlit("int16");
            reveal_strlit("int32");
            reveal_strlit("int64");
            reveal_strlit("uint8");
            reveal_strlit("uint16");
            reveal_strlit("uint32");
            reveal_strlit("uint64");
            reveal_strlit("float32");
            reveal_strlit("float64");
            assert("int8"@.len() != "int16"@.len());
            assert("int8"@.len() != "int32"@.len());
            assert("int8"@.len() != "int64"@.len());
            assert("int8"@.len() != "uint8"@.len());
            assert("int8"@.len() != "uint16"@.len());
            assert("int8"@.len() != "uint32"@.len());
            assert("int8"@.len() != "uint64"@.len());
            assert("int8"@.len() != "float32"@.len());
            assert("int8"@.len() != "float64"@.len());
            assert("int16"@[3] != "int32"@[3]);
            assert("int16"@[3] != "int64"@[3]);
            assert("int16"@[0] != "uint8"@[0]);
            assert("int16"@.len() != "uint16"@.len());
            assert("int16"@.len() != "uint32"@.len());
            assert("int16"@.len() != "uint64"@.len());
            assert("int16"@.len() != "float32"@.len());
            assert("int16"@.len() != "float64"@.len());
            assert("int32"@[3] != "int64"@[3]);
            assert("int32"@[0] != "uint8"@[0]);
            assert("int32"@.len() != "uint16"@.len());
            assert("int32"@.len() != "uint32"@.len());
            assert("int32"@.len() != "uint64"@.len());
            assert("int32"@.len() != "float32"@.len());
            assert("int32"@.len() != "float64"@.len());
            assert("int64"@[0] != "uint8"@[0]);
            assert("int64"@.len() != "uint16"@.len());
            assert("int64"@.len() != "uint32"@.len());
            assert("int64"@.len() != "uint64"@.len());
            assert("int64"@.len() != "float32"@.len());
            assert("int64"@.len() != "float64"@.len());
            assert("uint8"@.len() != "uint16"@.len());
            assert("uint8"@.len() != "uint32"@.len());
            assert("uint8"@.len() != "uint64"@.len());
            assert("uint8"@.len() != "float32"@.len());
            assert("uint8"@.len() != "float64"@.len());
            assert("uint16"@[4] != "uint32"@[4]);
            assert("uint16"@[4] != "uint64"@[4]);
            assert("uint16"@.len() != "float32"@.len());
            assert("uint16"@.len() != "float64"@.len());
            assert("uint32"@[4] != "uint64"@[4]);
            assert("uint32"@.len() != "float32"@.len());
            assert("uint32"@.len() != "float64"@.len());
            assert("uint64"@.len() != "float32"@.len());
            assert("uint64"@.len() != "float64"@.len());
            assert("float32"@[5] != "float64"@[5]);
        }
        if crate::text::same_text(s, "int8") {
            Some(MirageTypeEnum::Int8(Int8Type {}))
        } else if crate::text::same_text(s, "int16") {
            Some(MirageTypeEnum::Int16(Int16Type {}))
        } else if crate::text::same_text(s, "int32") {
            Some(MirageTypeEnum::Int32(Int32Type {}))
        } else if crate::text::same_text(s, "int64") {
            Some(MirageTypeEnum::Int64(Int64Type {}))
        } else if crate::text::same_text(s, "uint8") {
            Some(MirageTypeEnum::UInt8(UInt8Type {}))
        } else if crate::text::same_text(s, "uint16") {
            Some(MirageTypeEnum::UInt16(UInt16Type {}))
        } else if crate::text::same_text(s, "uint32") {
            Some(MirageTypeEnum::UInt32(UInt32Type {}))
        } else if crate::text::same_text(s, "uint64") {
            Some(MirageTypeEnum::UInt64(UInt64Type {}))
        } else if crate::text::same_text(s, "float32") {
            Some(MirageTypeEnum::Float32(Float32Type {}))
        } else if crate::text::same_text(s, "float64") {
            Some(MirageTypeEnum::Float64(Float64Type {}))
        } else {
            None
        }
    }

    pub fn type_int8() -> (r: Int8Type) {
        Int8Type::new()
    }

    pub fn type_int16() -> (r: Int16Type) {
        Int16Type::new()
    }

    pub fn type_int32() -> (r: Int32Type) {
        Int32Type::new()
    }

    pub fn type_int64() -> (r: Int64Type) {
        Int64Type::new()
    }

    pub fn type_uint8() -> (r: UInt8Type) {
        UInt8Type::new()
    }

    pub fn type_uint16() -> (r: UInt16Type) {
        UInt16Type::new()
    }

    pub fn type_uint32() -> (r: UInt32Type) {
        UInt32Type::new()
    }

    pub fn type_uint64() -> (r: UInt64Type) {
        UInt64Type::new()
    }

    pub fn type_float32() -> (r: Float32Type) {
        Float32Type::new()
    }

    pub fn type_float64() -> (r: Float64Type) {
        Float64Type::new()
    }

    pub fn type_array(element: MirageTypeEnum, length: usize) -> (r: ArrayType)
        ensures
            r@ == TypeModel::Array(Box::new(element@), length as nat),
    {
        ArrayType::new(element, length)
    }

    pub fn type_ptr(element: MirageTypeEnum) -> (r: PointerType)
        ensures
            r@ == TypeModel::Pointer(Box::new(element@)),
    {
        PointerType::new(element)
    }

    pub fn type_struct(fields: Vec<MirageTypeEnum>) -> (r: StructType)
        ensures
            r@ == TypeModel::Struct(types_view(fields@)),
    {
        StructType::new(fields)
    }

    pub fn print_to_string(&self) -> (r: String)
        ensures
            r@ == self@.text(),
        decreases self,
    {
        match self {
            MirageTypeEnum::Int8(t) => t.print_to_string(),
            MirageTypeEnum::Int16(t) => t.print_to_string(),
            MirageTypeEnum::Int32(t) => t.print_to_string(),
            MirageTypeEnum::Int64(t) => t.print_to_string(),
            MirageTypeEnum::UInt8(t) => t.print_to_string(),
            MirageTypeEnum::UInt16(t) => t.print_to_string(),
            MirageTypeEnum::UInt32(t) => t.print_to_string(),
            MirageTypeEnum::UInt64(t) => t.print_to_string(),
            MirageTypeEnum::Float32(t) => t.print_to_string(),
            MirageTypeEnum::Float64(t) => t.print_to_string(),
            MirageTypeEnum::Array(a) => {
                let mut s = String::from_str("[");
                s.append(a.element.print_to_string().as_str());
                s.append("; ");
                s.append(crate::text::usize_text(a.length).as_str());
                s.append("]");
                s
            },
            MirageTypeEnum::Pointer(p) => {
                let mut s = p.element.print_to_string();
                s.append("*");
                s
            },
            MirageTypeEnum::Struct(st) => {
                let ghost fs = types_view(st.fields@);
                let ghost texts = type_texts(fs);
                proof {
                    lemma_struct_view(*self);
                    lemma_types_view(st.fields@);
                }
                let mut s = String::from_str("{");
                let mut i: usize = 0;
                while i < st.fields.len()
                    invariant
                        i <= st.fields@.len(),
                        *self == MirageTypeEnum::Struct(*st),
                        fs == types_view(st.fields@),
                        fs.len() == st.fields@.len(),
                        forall|j: int| 0 <= j < fs.len() ==> #[trigger] fs[j] == st.fields@[j]@,
                        texts == type_texts(fs),
                        s@ == "{"@ + join(texts.take(i as int), ", "@),
                    decreases st.fields@.len() - i,
                {
                    proof {
                        assert(decreases_to!(*self => self->Struct_0));
                        assert(decreases_to!(self->Struct_0 => self->Struct_0.fields));
                        assert(decreases_to!(st.fields => st.fields[i as int]));
                        lemma_join_step(texts, ", "@, i as int);
                    }
                    if i > 0 {
                        s.append(", ");
                    }
                    s.append(st.fields[i].print_to_string().as_str());
                    proof {
                        assert(texts[i as int] == st.fields@[i as int]@.text());
                        assert(s@ =~= "{"@ + join(texts.take(i + 1), ", "@));
                    }
                    i = i + 1;
                }
                proof {
                    lemma_join_all(texts, ", "@);
                }
                s.append("}");
                s
            },
        }
    }
}

impl Clone for MirageTypeEnum {
    fn clone(&self) -> (r: Self)
        ensures
            r@ == self@,
    {
        self.duplicate()
    }
}

impl Clone for ArrayType {
    fn clone(&self) -> (r: Self)
        ensures
            r@ == self@,
    {
        ArrayType { element: Box::new((*self.element).duplicate()), length: self.length }
    }
}

impl Clone for PointerType {
    fn clone(&self) -> (r: Self)
        ensures
            r@ == self@,
    {
        PointerType { element: Box::new((*self.element).duplicate()) }
    }
}

impl Clone for StructType {
    fn clone(&self) -> (r: Self)
        ensures
            r@ == self@,
    {
        StructType { fields: duplicate_types(&self.fields) }
    }
}

} // verus!
