//! The runtime model of argument and return marshaling: the raw values of
//! the fixed-arity pointer-call convention, the encoding of safe values
//! into them, the decoding of return slots, and a host stub against which
//! calls can be checked end to end.

use vstd::prelude::*;
use crate::variant::{spec_variant_type, Variant, VariantModel, VariantType, Vector3Bits};

verus! {

/// The mathematical model of a raw calling-convention value.
pub ghost enum RawModel {
    Null,
    Bool(bool),
    I64(int),
    F64Bits(u64),
    Str(Seq<char>),
    Vector3(Vector3Bits),
    ObjectPtr(u64),
}

/// A raw value as passed through the pointer-call convention: a primitive
/// by value, a heap-backed value by its raw representation, an object by
/// its underlying pointer, or null for an absent object or a void return
/// slot.
pub enum RawValue {
    Null,
    Bool(bool),
    I64(i64),
    F64Bits(u64),
    Str(String),
    Vector3(Vector3Bits),
    ObjectPtr(u64),
}

impl View for RawValue {
    type V = RawModel;

    open spec fn view(&self) -> RawModel {
        match self {
            RawValue::Null => RawModel::Null,
            RawValue::Bool(b) => RawModel::Bool(*b),
            RawValue::I64(v) => RawModel::I64(*v as int),
            RawValue::F64Bits(bits) => RawModel::F64Bits(*bits),
            RawValue::Str(s) => RawModel::Str(s@),
            RawValue::Vector3(v) => RawModel::Vector3(*v),
            RawValue::ObjectPtr(p) => RawModel::ObjectPtr(*p),
        }
    }
}

impl RawValue {
    /// A copy with the same content.
    pub fn clone_raw(&self) -> (r: RawValue)
        ensures
            r@ == self@,
    {
        match self {
            RawValue::Null => RawValue::Null,
            RawValue::Bool(b) => RawValue::Bool(*b),
            RawValue::I64(v) => RawValue::I64(*v),
            RawValue::F64Bits(bits) => RawValue::F64Bits(*bits),
            RawValue::Str(s) => RawValue::Str(s.clone()),
            RawValue::Vector3(v) => RawValue::Vector3(*v),
            RawValue::ObjectPtr(p) => RawValue::ObjectPtr(*p),
        }
    }
}

/// The per-type argument-marshaling rule: every safe value has exactly one
/// raw image, and an absent value is the null pointer.
pub open spec fn spec_encode_arg(v: VariantModel) -> RawModel {
    match v {
        VariantModel::Nil => RawModel::Null,
        VariantModel::Bool(b) => RawModel::Bool(b),
        VariantModel::I64(n) => RawModel::I64(n),
        VariantModel::F64Bits(bits) => RawModel::F64Bits(bits),
        VariantModel::Str(s) => RawModel::Str(s),
        VariantModel::Vector3(v3) => RawModel::Vector3(v3),
        VariantModel::Object(p) => RawModel::ObjectPtr(p),
    }
}

/// Encodes one declared argument for the fixed-arity path.
pub fn encode_arg(v: &Variant) -> (r: RawValue)
    ensures
        r@ == spec_encode_arg(v@),
{
    match v {
        Variant::Nil => RawValue::Null,
        Variant::Bool(b) => RawValue::Bool(*b),
        Variant::I64(n) => RawValue::I64(*n),
        Variant::F64Bits(bits) => RawValue::F64Bits(*bits),
        Variant::GodotString(s) => RawValue::Str(s.clone()),
        Variant::Vector3(v3) => RawValue::Vector3(*v3),
        Variant::Object(p) => RawValue::ObjectPtr(*p),
    }
}

/// The per-type return-marshaling rule: the raw slot is read back under
/// the declared return type; a raw value of the wrong shape, or a null
/// object pointer, decodes to the absent value.
pub open spec fn spec_decode_ret(t: VariantType, r: RawModel) -> VariantModel {
    match t {
        VariantType::Bool => match r {
            RawModel::Bool(b) => VariantModel::Bool(b),
            _ => VariantModel::Nil,
        },
        VariantType::I64 => match r {
            RawModel::I64(n) => VariantModel::I64(n),
            _ => VariantModel::Nil,
        },
        VariantType::F64 => match r {
            RawModel::F64Bits(bits) => VariantModel::F64Bits(bits),
            _ => VariantModel::Nil,
        },
        VariantType::GodotString => match r {
            RawModel::Str(s) => VariantModel::Str(s),
            _ => VariantModel::Nil,
        },
        VariantType::Vector3 => match r {
            RawModel::Vector3(v3) => VariantModel::Vector3(v3),
            _ => VariantModel::Nil,
        },
        VariantType::Object => match r {
            RawModel::ObjectPtr(p) => VariantModel::Object(p),
            _ => VariantModel::Nil,
        },
        _ => VariantModel::Nil,
    }
}

/// Decodes a return slot under the declared return type.
pub fn decode_ret(t: VariantType, r: &RawValue) -> (v: Variant)
    ensures
        v@ == spec_decode_ret(t, r@),
{
    match t {
        VariantType::Bool => match r {
            RawValue::Bool(b) => Variant::Bool(*b),
            _ => Variant::Nil,
        },
        VariantType::I64 => match r {
            RawValue::I64(n) => Variant::I64(*n),
            _ => Variant::Nil,
        },
        VariantType::F64 => match r {
            RawValue::F64Bits(bits) => Variant::F64Bits(*bits),
            _ => Variant::Nil,
        },
        VariantType::GodotString => match r {
            RawValue::Str(s) => Variant::GodotString(s.clone()),
            _ => Variant::Nil,
        },
        VariantType::Vector3 => match r {
            RawValue::Vector3(v3) => Variant::Vector3(*v3),
            _ => Variant::Nil,
        },
        VariantType::Object => match r {
            RawValue::ObjectPtr(p) => Variant::Object(*p),
            _ => Variant::Nil,
        },
        _ => Variant::Nil,
    }
}

/// Law: encoding a value into the raw convention and decoding it back
/// under the value's own type reproduces the value bit for bit for value
/// types and by reference identity for object types.
pub proof fn lemma_marshal_round_trip(v: VariantModel)
    ensures
        spec_decode_ret(spec_variant_type(v), spec_encode_arg(v)) == v,
{
}

/// Builds the raw argument array of a fixed-arity call: exactly one entry
/// per declared argument, each the encoding of its argument.
pub fn build_ptrcall_args(args: &Vec<Variant>) -> (r: Vec<RawValue>)
    ensures
        r@.len() == args@.len(),
        forall|i: int| 0 <= i < args@.len() ==> (#[trigger] r@[i])@ == spec_encode_arg(args@[i]@),
{
    let mut r: Vec<RawValue> = Vec::new();
    let n = args.len();
    let mut i: usize = 0;
    while i < n
        invariant
            n == args@.len(),
            i <= n,
            r@.len() == i,
            forall|j: int| 0 <= j < i ==> (#[trigger] r@[j])@ == spec_encode_arg(args@[j]@),
        decreases n - i,
    {
        r.push(encode_arg(&args[i]));
        i += 1;
    }
    r
}

/// One recorded fixed-arity call into the host stub.
pub struct PtrCallRecord {
    pub method_bind: u64,
    pub obj: u64,
    pub args: Vec<RawValue>,
    pub had_return_slot: bool,
}

/// One recorded variadic call into the host stub.
pub struct VarCallRecord {
    pub method_bind: u64,
    pub obj: u64,
    pub args: Vec<Variant>,
}

/// A host stub: it answers every fixed-arity call with a configured raw
/// value and every variadic call with a configured dynamic value, and
/// records what it was handed, so that marshaling can be checked end to
/// end.
pub struct HostStub {
    pub ret: RawValue,
    pub var_ret: Variant,
    pub ptr_calls: Vec<PtrCallRecord>,
    pub var_calls: Vec<VarCallRecord>,
}

impl HostStub {
    pub fn new(ret: RawValue, var_ret: Variant) -> (h: HostStub)
        ensures
            h.ret == ret,
            h.var_ret == var_ret,
            h.ptr_calls@.len() == 0,
            h.var_calls@.len() == 0,
    {
        HostStub { ret, var_ret, ptr_calls: Vec::new(), var_calls: Vec::new() }
    }
}

/// The runtime model of a generated fixed-arity wrapper: it encodes the
/// declared arguments into the raw pointer array, passes a return slot
/// exactly when the return type is not void, invokes the raw binding, and
/// decodes the slot under the declared return type. The void return type
/// is the `Nil` tag, for which the wrapper passes a null slot and returns
/// the empty value.
pub fn ptrcall_fixed(
    host: &mut HostStub,
    method_bind: u64,
    obj: u64,
    args: &Vec<Variant>,
    ret_type: VariantType,
) -> (r: Variant)
    ensures
        final(host).ret == old(host).ret,
        final(host).var_ret == old(host).var_ret,
        final(host).var_calls == old(host).var_calls,
        final(host).ptr_calls@.len() == old(host).ptr_calls@.len() + 1,
        final(host).ptr_calls@.subrange(0, old(host).ptr_calls@.len() as int) == old(
            host,
        ).ptr_calls@,
        ({
            let call = final(host).ptr_calls@.last();
            &&& call.method_bind == method_bind
            &&& call.obj == obj
            &&& call.args@.len() == args@.len()
            &&& forall|i: int|
                0 <= i < args@.len() ==> (#[trigger] call.args@[i])@ == spec_encode_arg(
                    args@[i]@,
                )
            &&& call.had_return_slot == (ret_type != VariantType::Nil)
        }),
        r@ == spec_decode_ret(ret_type, old(host).ret@),
{
    let raw_args = build_ptrcall_args(args);
    let had_return_slot = !matches!(ret_type, VariantType::Nil);
    let answer = host.ret.clone_raw();
    host.ptr_calls.push(PtrCallRecord { method_bind, obj, args: raw_args, had_return_slot });
    assert(host.ptr_calls@.subrange(0, old(host).ptr_calls@.len() as int) =~= old(
        host,
    ).ptr_calls@);
    decode_ret(ret_type, &answer)
}

/// The runtime model of a generated variadic wrapper: it boxes the
/// declared arguments and the trailing values into one growable array of
/// dynamic values, invokes the dynamic dispatch entry point, and hands
/// back the single dynamic result.
pub fn varargs_call(
    host: &mut HostStub,
    method_bind: u64,
    obj: u64,
    fixed_args: &Vec<Variant>,
    varargs: &Vec<Variant>,
) -> (r: Variant)
    ensures
        final(host).ret == old(host).ret,
        final(host).var_ret == old(host).var_ret,
        final(host).ptr_calls == old(host).ptr_calls,
        final(host).var_calls@.len() == old(host).var_calls@.len() + 1,
        ({
            let call = final(host).var_calls@.last();
            &&& call.method_bind == method_bind
            &&& call.obj == obj
            &&& call.args@.len() == fixed_args@.len() + varargs@.len()
            &&& forall|i: int|
                0 <= i < fixed_args@.len() ==> (#[trigger] call.args@[i])@ == fixed_args@[i]@
            &&& forall|i: int|
                0 <= i < varargs@.len() ==> (#[trigger] call.args@[fixed_args@.len() + i])@
                    == varargs@[i]@
        }),
        r@ == old(host).var_ret@,
{
    let mut buffer: Vec<Variant> = Vec::new();
    let n = fixed_args.len();
    let mut i: usize = 0;
    while i < n
        invariant
            n == fixed_args@.len(),
            i <= n,
            buffer@.len() == i,
            forall|j: int| 0 <= j < i ==> (#[trigger] buffer@[j])@ == fixed_args@[j]@,
        decreases n - i,
    {
        buffer.push(fixed_args[i].clone_value());
        i += 1;
    }
    let m = varargs.len();
    let mut k: usize = 0;
    while k < m
        invariant
            n == fixed_args@.len(),
            m == varargs@.len(),
            k <= m,
            buffer@.len() == n + k,
            forall|j: int| 0 <= j < n ==> (#[trigger] buffer@[j])@ == fixed_args@[j]@,
            forall|j: int| 0 <= j < k ==> (#[trigger] buffer@[n + j])@ == varargs@[j]@,
        decreases m - k,
    {
        buffer.push(varargs[k].clone_value());
        k += 1;
    }
    let answer = host.var_ret.clone_value();
    host.var_calls.push(VarCallRecord { method_bind, obj, args: buffer });
    answer
}

} // verus!
