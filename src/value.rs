use vstd::prelude::*;
use std::sync::Arc;

verus! {

/// The symbol that an enum-typed property holds.
#[derive(Clone, Debug, PartialEq, Eq)]
pub struct ValueEnum {
    pub symbol_name: String,
}

impl ValueEnum {
    pub fn new(symbol_name: String) -> (r: Self)
        ensures r.symbol_name == symbol_name,
    {
        ValueEnum { symbol_name }
    }

    pub fn symbol_name(&self) -> (r: &str)
        ensures r@ == self.symbol_name@,
    {
        self.symbol_name.as_str()
    }
}

/// A property value stored at a leaf path. Floating-point values are held as their IEEE-754 bits.
#[derive(Clone, Debug, PartialEq, Eq)]
pub enum Value {
    Boolean(bool),
    I32(i32),
    I64(i64),
    U32(u32),
    U64(u64),
    F32(u32),
    F64(u64),
    /// Small byte string, shared between copies.
    Bytes(Arc<Vec<u8>>),
    /// Large byte buffer, shared between copies.
    Buffer(Arc<Vec<u8>>),
    String(String),
    AssetRef(u128),
    Enum(ValueEnum),
}

} // verus!

use crate::schema::Schema;
use crate::schema_set::{SchemaNamedType, SchemaSet, find_named_from, enum_knows};

verus! {

/// A value as plain mathematical data.
pub enum ValueView {
    Boolean(bool),
    I32(i32),
    I64(i64),
    U32(u32),
    U64(u64),
    F32(u32),
    F64(u64),
    Bytes(Seq<u8>),
    Buffer(Seq<u8>),
    String(Seq<char>),
    AssetRef(u128),
    Enum(Seq<char>),
}

impl View for Value {
    type V = ValueView;

    open spec fn view(&self) -> ValueView {
        match self {
            Value::Boolean(b) => ValueView::Boolean(*b),
            Value::I32(x) => ValueView::I32(*x),
            Value::I64(x) => ValueView::I64(*x),
            Value::U32(x) => ValueView::U32(*x),
            Value::U64(x) => ValueView::U64(*x),
            Value::F32(x) => ValueView::F32(*x),
            Value::F64(x) => ValueView::F64(*x),
            Value::Bytes(b) => ValueView::Bytes(b@),
            Value::Buffer(b) => ValueView::Buffer(b@),
            Value::String(t) => ValueView::String(t@),
            Value::AssetRef(x) => ValueView::AssetRef(*x),
            Value::Enum(e) => ValueView::Enum(e.symbol_name@),
        }
    }
}

/// The view of the default value of schema `s`, if it has one.
pub open spec fn default_view(s: Schema, types: Seq<SchemaNamedType>) -> Option<ValueView> {
    match s {
        Schema::Bytes => Some(ValueView::Bytes(Seq::empty())),
        Schema::Buffer => Some(ValueView::Buffer(Seq::empty())),
        Schema::String => Some(ValueView::String(Seq::empty())),
        _ => match default_value(s, types) {
            Some(v) => Some(v@),
            None => None,
        },
    }
}

/// True when `v` may be stored at a property whose schema is `s`.
pub open spec fn value_matches(v: Value, s: Schema, types: Seq<SchemaNamedType>) -> bool {
    match (v, s) {
        (Value::Boolean(_), Schema::Boolean) => true,
        (Value::I32(_), Schema::I32) => true,
        (Value::I64(_), Schema::I64) => true,
        (Value::U32(_), Schema::U32) => true,
        (Value::U64(_), Schema::U64) => true,
        (Value::F32(_), Schema::F32) => true,
        (Value::F64(_), Schema::F64) => true,
        (Value::Bytes(_), Schema::Bytes) => true,
        (Value::Buffer(_), Schema::Buffer) => true,
        (Value::String(_), Schema::String) => true,
        (Value::AssetRef(_), Schema::RecordRef(_)) => true,
        (Value::Enum(e), Schema::NamedType(fp)) => match find_named_from(types, fp, 0) {
            Some(SchemaNamedType::Enum(x)) => enum_knows(x.inner.symbols@, e.symbol_name@),
            _ => false,
        },
        _ => false,
    }
}

/// The value a property of schema `s` has when nothing overrides it; `None` for schemas that
/// hold no single value (records, arrays, maps, nullables).
pub open spec fn default_value(s: Schema, types: Seq<SchemaNamedType>) -> Option<Value> {
    match s {
        Schema::Boolean => Some(Value::Boolean(false)),
        Schema::I32 => Some(Value::I32(0)),
        Schema::I64 => Some(Value::I64(0)),
        Schema::U32 => Some(Value::U32(0)),
        Schema::U64 => Some(Value::U64(0)),
        Schema::F32 => Some(Value::F32(0)),
        Schema::F64 => Some(Value::F64(0)),
        Schema::RecordRef(_) => Some(Value::AssetRef(0)),
        Schema::NamedType(fp) => match find_named_from(types, fp, 0) {
            Some(SchemaNamedType::Enum(x)) => if x.inner.symbols@.len() > 0 {
                Some(Value::Enum(ValueEnum { symbol_name: x.inner.symbols@[0].name }))
            } else {
                None
            },
            _ => None,
        },
        _ => None,
    }
}

/// Bytes, buffers and strings default to empty; their content is described by this predicate.
pub open spec fn is_empty_default(s: Schema, v: Value) -> bool {
    match (s, v) {
        (Schema::Bytes, Value::Bytes(b)) => b@.len() == 0,
        (Schema::Buffer, Value::Buffer(b)) => b@.len() == 0,
        (Schema::String, Value::String(t)) => t@.len() == 0,
        _ => false,
    }
}

/// The default of `s`, covering the empty byte and string defaults too.
pub open spec fn is_default_for(v: Value, s: Schema, types: Seq<SchemaNamedType>) -> bool {
    default_value(s, types) == Some(v) || is_empty_default(s, v)
}

/// True when `s` has a default value.
pub open spec fn has_default(s: Schema, types: Seq<SchemaNamedType>) -> bool {
    default_value(s, types) is Some || s is Bytes || s is Buffer || s is String
}

impl Value {
    /// A copy of this value.
    pub fn duplicate(&self) -> (r: Value)
        ensures
            r == *self,
    {
        match self {
            Value::Boolean(b) => Value::Boolean(*b),
            Value::I32(x) => Value::I32(*x),
            Value::I64(x) => Value::I64(*x),
            Value::U32(x) => Value::U32(*x),
            Value::U64(x) => Value::U64(*x),
            Value::F32(x) => Value::F32(*x),
            Value::F64(x) => Value::F64(*x),
            Value::Bytes(b) => Value::Bytes(b.clone()),
            Value::Buffer(b) => Value::Buffer(b.clone()),
            Value::String(s) => Value::String(s.clone()),
            Value::AssetRef(x) => Value::AssetRef(*x),
            Value::Enum(e) => Value::Enum(ValueEnum { symbol_name: e.symbol_name.clone() }),
        }
    }

    /// True when this value may be stored at a property of schema `s`.
    pub fn matches_schema(&self, s: &Schema, schema_set: &SchemaSet) -> (r: bool)
        ensures
            r == value_matches(*self, *s, schema_set.named_types@),
    {
        match (self, s) {
            (Value::Boolean(_), Schema::Boolean) => true,
            (Value::I32(_), Schema::I32) => true,
            (Value::I64(_), Schema::I64) => true,
            (Value::U32(_), Schema::U32) => true,
            (Value::U64(_), Schema::U64) => true,
            (Value::F32(_), Schema::F32) => true,
            (Value::F64(_), Schema::F64) => true,
            (Value::Bytes(_), Schema::Bytes) => true,
            (Value::Buffer(_), Schema::Buffer) => true,
            (Value::String(_), Schema::String) => true,
            (Value::AssetRef(_), Schema::RecordRef(_)) => true,
            (Value::Enum(e), Schema::NamedType(fp)) => match schema_set.find_by_fingerprint(*fp) {
                Some(SchemaNamedType::Enum(x)) => x.value_from_string(e.symbol_name.as_str()).is_some(),
                _ => false,
            },
            _ => false,
        }
    }

    /// The value a property of schema `s` has when nothing overrides it.
    pub fn default_for_schema(s: &Schema, schema_set: &SchemaSet) -> (r: Option<Value>)
        ensures
            r matches Some(v) ==> is_default_for(v, *s, schema_set.named_types@),
            r is Some <==> has_default(*s, schema_set.named_types@),
            r matches Some(v) ==> default_view(*s, schema_set.named_types@) == Some(v@),
            r is Some <==> default_view(*s, schema_set.named_types@) is Some,
    {
        match s {
            Schema::Boolean => Some(Value::Boolean(false)),
            Schema::I32 => Some(Value::I32(0)),
            Schema::I64 => Some(Value::I64(0)),
            Schema::U32 => Some(Value::U32(0)),
            Schema::U64 => Some(Value::U64(0)),
            Schema::F32 => Some(Value::F32(0)),
            Schema::F64 => Some(Value::F64(0)),
            Schema::Bytes => Some(Value::Bytes(Arc::new(Vec::new()))),
            Schema::Buffer => Some(Value::Buffer(Arc::new(Vec::new()))),
            Schema::String => Some(Value::String(String::new())),
            Schema::RecordRef(_) => Some(Value::AssetRef(0)),
            Schema::NamedType(fp) => match schema_set.find_by_fingerprint(*fp) {
                Some(SchemaNamedType::Enum(x)) => {
                    if x.inner.symbols.len() > 0 {
                        Some(Value::Enum(ValueEnum { symbol_name: x.inner.symbols[0].name.clone() }))
                    } else {
                        None
                    }
                },
                _ => None,
            },
            _ => None,
        }
    }

    pub fn as_boolean(&self) -> (r: Option<bool>)
        ensures
            r is Some <==> *self is Boolean,
            r matches Some(b) ==> *self == Value::Boolean(b),
    {
        match self { Value::Boolean(b) => Some(*b), _ => None }
    }

    pub fn as_i32(&self) -> (r: Option<i32>)
        ensures
            r is Some <==> *self is I32,
            r matches Some(b) ==> *self == Value::I32(b),
    {
        match self { Value::I32(b) => Some(*b), _ => None }
    }

    pub fn as_i64(&self) -> (r: Option<i64>)
        ensures
            r is Some <==> *self is I64,
            r matches Some(b) ==> *self == Value::I64(b),
    {
        match self { Value::I64(b) => Some(*b), _ => None }
    }

    pub fn as_u32(&self) -> (r: Option<u32>)
        ensures
            r is Some <==> *self is U32,
            r matches Some(b) ==> *self == Value::U32(b),
    {
        match self { Value::U32(b) => Some(*b), _ => None }
    }

    pub fn as_u64(&self) -> (r: Option<u64>)
        ensures
            r is Some <==> *self is U64,
            r matches Some(b) ==> *self == Value::U64(b),
    {
        match self { Value::U64(b) => Some(*b), _ => None }
    }

    /// The IEEE-754 bits of an `F32` value.
    pub fn as_f32_bits(&self) -> (r: Option<u32>)
        ensures
            r is Some <==> *self is F32,
            r matches Some(b) ==> *self == Value::F32(b),
    {
        match self { Value::F32(b) => Some(*b), _ => None }
    }

    pub fn as_asset_ref(&self) -> (r: Option<u128>)
        ensures
            r is Some <==> *self is AssetRef,
            r matches Some(b) ==> *self == Value::AssetRef(b),
    {
        match self { Value::AssetRef(b) => Some(*b), _ => None }
    }
}

} // verus!
