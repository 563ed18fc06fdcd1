//! The dynamic-value model: a tagged boxed value as the host defines it,
//! used for variadic/dynamic calls, together with its type tag.

use vstd::prelude::*;

verus! {

/// The type tag of a dynamic value.
#[derive(Clone, Copy, PartialEq, Eq, Structural, Debug)]
pub enum VariantType {
    Nil,
    Bool,
    I64,
    F64,
    GodotString,
    Vector2,
    Vector3,
    Color,
    NodePath,
    Rid,
    Object,
    Dictionary,
    VariantArray,
}

/// A three-component vector stored by the bit patterns of its components,
/// so that marshaling can be stated bit-for-bit.
#[derive(Clone, Copy, PartialEq, Eq, Structural, Debug)]
pub struct Vector3Bits {
    pub x_bits: u32,
    pub y_bits: u32,
    pub z_bits: u32,
}

/// The mathematical model of a dynamic value.
pub ghost enum VariantModel {
    Nil,
    Bool(bool),
    I64(int),
    F64Bits(u64),
    Str(Seq<char>),
    Vector3(Vector3Bits),
    Object(u64),
}

/// A tagged, host-defined boxed value. An absent/empty value is `Nil`.
pub enum Variant {
    Nil,
    Bool(bool),
    I64(i64),
    F64Bits(u64),
    GodotString(String),
    Vector3(Vector3Bits),
    Object(u64),
}

impl View for Variant {
    type V = VariantModel;

    open spec fn view(&self) -> VariantModel {
        match self {
            Variant::Nil => VariantModel::Nil,
            Variant::Bool(b) => VariantModel::Bool(*b),
            Variant::I64(v) => VariantModel::I64(*v as int),
            Variant::F64Bits(bits) => VariantModel::F64Bits(*bits),
            Variant::GodotString(s) => VariantModel::Str(s@),
            Variant::Vector3(v) => VariantModel::Vector3(*v),
            Variant::Object(id) => VariantModel::Object(*id),
        }
    }
}

impl Variant {
    /// The empty/absent dynamic value.
    pub fn new() -> (r: Variant)
        ensures
            r@ == VariantModel::Nil,
    {
        Variant::Nil
    }

    pub fn from_bool(b: bool) -> (r: Variant)
        ensures
            r@ == VariantModel::Bool(b),
    {
        Variant::Bool(b)
    }

    pub fn from_i64(v: i64) -> (r: Variant)
        ensures
            r@ == VariantModel::I64(v as int),
    {
        Variant::I64(v)
    }

    pub fn from_godot_string(s: &String) -> (r: Variant)
        ensures
            r@ == VariantModel::Str(s@),
    {
        Variant::GodotString(s.clone())
    }

    pub fn from_vector3(v: &Vector3Bits) -> (r: Variant)
        ensures
            r@ == VariantModel::Vector3(*v),
    {
        Variant::Vector3(*v)
    }

    pub fn from_object(id: u64) -> (r: Variant)
        ensures
            r@ == VariantModel::Object(id),
    {
        Variant::Object(id)
    }

    pub fn get_type(&self) -> (t: VariantType)
        ensures
            t == spec_variant_type(self@),
    {
        match self {
            Variant::Nil => VariantType::Nil,
            Variant::Bool(_) => VariantType::Bool,
            Variant::I64(_) => VariantType::I64,
            Variant::F64Bits(_) => VariantType::F64,
            Variant::GodotString(_) => VariantType::GodotString,
            Variant::Vector3(_) => VariantType::Vector3,
            Variant::Object(_) => VariantType::Object,
        }
    }

    pub fn try_to_i64(&self) -> (r: Option<i64>)
        ensures
            (r is Some) == (self@ is I64),
            r matches Some(v) ==> self@ == VariantModel::I64(v as int),
    {
        match self {
            Variant::I64(v) => Some(*v),
            _ => None,
        }
    }

    pub fn try_to_bool(&self) -> (r: Option<bool>)
        ensures
            (r is Some) == (self@ is Bool),
            r matches Some(b) ==> self@ == VariantModel::Bool(b),
    {
        match self {
            Variant::Bool(b) => Some(*b),
            _ => None,
        }
    }

    pub fn try_to_string(&self) -> (r: Option<String>)
        ensures
            (r is Some) == (self@ is Str),
            r matches Some(s) ==> self@ == VariantModel::Str(s@),
    {
        match self {
            Variant::GodotString(s) => Some(s.clone()),
            _ => None,
        }
    }

    pub fn try_to_vector3(&self) -> (r: Option<Vector3Bits>)
        ensures
            (r is Some) == (self@ is Vector3),
            r matches Some(v) ==> self@ == VariantModel::Vector3(v),
    {
        match self {
            Variant::Vector3(v) => Some(*v),
            _ => None,
        }
    }

    pub fn try_to_object(&self) -> (r: Option<u64>)
        ensures
            (r is Some) == (self@ is Object),
            r matches Some(id) ==> self@ == VariantModel::Object(id),
    {
        match self {
            Variant::Object(id) => Some(*id),
            _ => None,
        }
    }

    /// A copy with the same content.
    pub fn clone_value(&self) -> (r: Variant)
        ensures
            r@ == self@,
    {
        match self {
            Variant::Nil => Variant::Nil,
            Variant::Bool(b) => Variant::Bool(*b),
            Variant::I64(v) => Variant::I64(*v),
            Variant::F64Bits(bits) => Variant::F64Bits(*bits),
            Variant::GodotString(s) => Variant::GodotString(s.clone()),
            Variant::Vector3(v) => Variant::Vector3(*v),
            Variant::Object(id) => Variant::Object(*id),
        }
    }

    /// Content equality of two dynamic values.
    pub fn eq_variant(&self, other: &Variant) -> (r: bool)
        ensures
            r == (self@ == other@),
    {
        match (self, other) {
            (Variant::Nil, Variant::Nil) => true,
            (Variant::Bool(a), Variant::Bool(b)) => a == b,
            (Variant::I64(a), Variant::I64(b)) => a == b,
            (Variant::F64Bits(a), Variant::F64Bits(b)) => a == b,
            (Variant::GodotString(a), Variant::GodotString(b)) => crate::strutil::str_eq(
                a.as_str(),
                b.as_str(),
            ),
            (Variant::Vector3(a), Variant::Vector3(b)) => a == b,
            (Variant::Object(a), Variant::Object(b)) => a == b,
            _ => false,
        }
    }
}

/// The type tag of a dynamic value model.
pub open spec fn spec_variant_type(v: VariantModel) -> VariantType {
    match v {
        VariantModel::Nil => VariantType::Nil,
        VariantModel::Bool(_) => VariantType::Bool,
        VariantModel::I64(_) => VariantType::I64,
        VariantModel::F64Bits(_) => VariantType::F64,
        VariantModel::Str(_) => VariantType::GodotString,
        VariantModel::Vector3(_) => VariantType::Vector3,
        VariantModel::Object(_) => VariantType::Object,
    }
}

} // verus!
