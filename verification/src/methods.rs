//! The method-table generator and the method-body generator: for each class,
//! the source text of a lazily initialized table of raw bindings, and for
//! each method a wrapper that marshals between safe types and the raw
//! calling convention.

use vstd::prelude::*;
use crate::{skip_method, spec_skip_method};
use crate::api::{
    Api, GodotArgument, GodotClass, GodotMethod, Ty, class_doc_link, class_idx, find_class,
    spec_class_doc_link, spec_method_name, spec_rust_safe_name, rust_safe_name, ty_to_rust,
    ty_to_sys,
};
use crate::strutil::{
    contains_name, decimal_u64, spec_decimal, spec_has_prefix, str_eq, str_has_prefix,
};

verus! {

/// Whether a per-type argument-marshaling rule exists for a declared
/// argument of this type: primitives and fixed-layout math types pass
/// their own address, heap-backed types pass their raw representation's
/// address, and object references pass the underlying pointer. The groups
/// are exactly the arms of `argument_pre_text`. The void type, typed error
/// codes, type tags and unmapped enums have no argument rule: a method
/// declaring such an argument has no complete mapping and is skipped.
pub open spec fn spec_arg_marshallable(t: Ty) -> bool {
    match t {
        Ty::Bool | Ty::F64 | Ty::I64 | Ty::Vector2 | Ty::Vector3 | Ty::Transform
        | Ty::Transform2D | Ty::Quat | Ty::Plane | Ty::Aabb | Ty::Basis | Ty::Rect2
        | Ty::Color => true,
        Ty::Variant | Ty::GodotString | Ty::Rid | Ty::NodePath | Ty::VariantArray
        | Ty::Dictionary | Ty::ByteArray | Ty::StringArray | Ty::Vector2Array
        | Ty::Vector3Array | Ty::ColorArray | Ty::Int32Array | Ty::Float32Array => true,
        Ty::Object(_) => true,
        _ => false,
    }
}

/// Every type with an argument-marshaling rule also has a
/// generated-language type.
pub proof fn lemma_marshallable_maps(t: Ty)
    ensures
        spec_arg_marshallable(t) ==> ty_to_rust(t) is Some,
{
}

/// Marshaling-rule test for one declared argument type.
pub fn is_arg_marshallable(t: &Ty) -> (r: bool)
    ensures
        r == spec_arg_marshallable(*t),
{
    match t {
        Ty::Bool | Ty::F64 | Ty::I64 | Ty::Vector2 | Ty::Vector3 | Ty::Transform
        | Ty::Transform2D | Ty::Quat | Ty::Plane | Ty::Aabb | Ty::Basis | Ty::Rect2
        | Ty::Color => true,
        Ty::Variant | Ty::GodotString | Ty::Rid | Ty::NodePath | Ty::VariantArray
        | Ty::Dictionary | Ty::ByteArray | Ty::StringArray | Ty::Vector2Array
        | Ty::Vector3Array | Ty::ColorArray | Ty::Int32Array | Ty::Float32Array => true,
        Ty::Object(_) => true,
        _ => false,
    }
}

/// Whether every declared argument type has a complete mapping: a
/// generated-language type and an argument-marshaling rule, so that the
/// raw argument array gets exactly one entry per declared argument.
pub open spec fn spec_args_mappable(args: Seq<GodotArgument>) -> bool {
    forall|j: int| 0 <= j < args.len() ==> spec_arg_marshallable((#[trigger] args[j]).ty)
}

/// A method is eligible for a table slot and a wrapper when it is not a
/// lifecycle primitive, its return type maps onto the generated language,
/// and every argument type has a complete mapping. Methods failing this
/// are skipped: a deliberate coverage gap, not an error.
pub open spec fn spec_method_eligible(m: GodotMethod) -> bool {
    &&& !spec_skip_method(spec_method_name(m))
    &&& ty_to_rust(m.return_type) is Some
    &&& spec_args_mappable(m.arguments@)
}

/// Eligibility test for a table slot and wrapper emission.
pub fn is_method_eligible(m: &GodotMethod) -> (r: bool)
    ensures
        r == spec_method_eligible(*m),
{
    let name = m.get_name();
    if skip_method(name.as_str()) {
        return false;
    }
    if m.return_type.to_rust().is_none() {
        return false;
    }
    let n = m.arguments.len();
    let mut i: usize = 0;
    while i < n
        invariant
            n == m.arguments@.len(),
            i <= n,
            forall|j: int| 0 <= j < i ==> spec_arg_marshallable((#[trigger] m.arguments@[j]).ty),
        decreases n - i,
    {
        if !is_arg_marshallable(&m.arguments[i].ty) {
            return false;
        }
        i += 1;
    }
    true
}

/// One struct field line per eligible method, from index `i` on.
pub open spec fn table_struct_fields(ms: Seq<GodotMethod>, i: int) -> Seq<char>
    decreases ms.len() - i,
{
    if i < 0 || i >= ms.len() {
        Seq::<char>::empty()
    } else {
        (if spec_method_eligible(ms[i]) {
            "    pub "@ + spec_method_name(ms[i]) + ": *mut sys::godot_method_bind,\n"@
        } else {
            Seq::<char>::empty()
        }) + table_struct_fields(ms, i + 1)
    }
}

fn append_table_struct_fields(output: &mut String, ms: &Vec<GodotMethod>)
    ensures
        final(output)@ == old(output)@ + table_struct_fields(ms@, 0),
{
    let ghost base = output@;
    let n = ms.len();
    let mut i: usize = 0;
    while i < n
        invariant
            n == ms@.len(),
            i <= n,
            base + table_struct_fields(ms@, 0) == output@ + table_struct_fields(ms@, i as int),
        decreases n - i,
    {
        let ghost before = output@;
        if is_method_eligible(&ms[i]) {
            output.append("    pub ");
            output.append(ms[i].get_name().as_str());
            output.append(": *mut sys::godot_method_bind,\n");
        }
        assert(before + table_struct_fields(ms@, i as int) =~= output@ + table_struct_fields(
            ms@,
            i + 1,
        ));
        i += 1;
    }
    assert(output@ + table_struct_fields(ms@, n as int) =~= output@);
}

/// One zero-initializer line per eligible method, from index `i` on.
pub open spec fn table_zero_fields(ms: Seq<GodotMethod>, i: int) -> Seq<char>
    decreases ms.len() - i,
{
    if i < 0 || i >= ms.len() {
        Seq::<char>::empty()
    } else {
        (if spec_method_eligible(ms[i]) {
            "            "@ + spec_method_name(ms[i]) + ": 0 as *mut sys::godot_method_bind,\n"@
        } else {
            Seq::<char>::empty()
        }) + table_zero_fields(ms, i + 1)
    }
}

fn append_table_zero_fields(output: &mut String, ms: &Vec<GodotMethod>)
    ensures
        final(output)@ == old(output)@ + table_zero_fields(ms@, 0),
{
    let ghost base = output@;
    let n = ms.len();
    let mut i: usize = 0;
    while i < n
        invariant
            n == ms@.len(),
            i <= n,
            base + table_zero_fields(ms@, 0) == output@ + table_zero_fields(ms@, i as int),
        decreases n - i,
    {
        let ghost before = output@;
        if is_method_eligible(&ms[i]) {
            output.append("            ");
            output.append(ms[i].get_name().as_str());
            output.append(": 0 as *mut sys::godot_method_bind,\n");
        }
        assert(before + table_zero_fields(ms@, i as int) =~= output@ + table_zero_fields(
            ms@,
            i + 1,
        ));
        i += 1;
    }
    assert(output@ + table_zero_fields(ms@, n as int) =~= output@);
}

/// One binding-resolution line per eligible method, from index `i` on: the
/// slot is filled by a string-keyed lookup against the host's reflection
/// entry point, with both names NUL-terminated.
pub open spec fn table_bind_fields(ms: Seq<GodotMethod>, i: int) -> Seq<char>
    decreases ms.len() - i,
{
    if i < 0 || i >= ms.len() {
        Seq::<char>::empty()
    } else {
        (if spec_method_eligible(ms[i]) {
            "            table."@ + spec_method_name(ms[i])
                + " = (gd_api.godot_method_bind_get_method)(class_name, \""@
                + spec_method_name(ms[i]) + "\\0\".as_ptr() as *const c_char );\n"@
        } else {
            Seq::<char>::empty()
        }) + table_bind_fields(ms, i + 1)
    }
}

fn append_table_bind_fields(output: &mut String, ms: &Vec<GodotMethod>)
    ensures
        final(output)@ == old(output)@ + table_bind_fields(ms@, 0),
{
    let ghost base = output@;
    let n = ms.len();
    let mut i: usize = 0;
    while i < n
        invariant
            n == ms@.len(),
            i <= n,
            base + table_bind_fields(ms@, 0) == output@ + table_bind_fields(ms@, i as int),
        decreases n - i,
    {
        let ghost before = output@;
        if is_method_eligible(&ms[i]) {
            output.append("            table.");
            output.append(ms[i].get_name().as_str());
            output.append(" = (gd_api.godot_method_bind_get_method)(class_name, \"");
            output.append(ms[i].get_name().as_str());
            output.append("\\0\".as_ptr() as *const c_char );\n");
        }
        assert(before + table_bind_fields(ms@, i as int) =~= output@ + table_bind_fields(
            ms@,
            i + 1,
        ));
        i += 1;
    }
    assert(output@ + table_bind_fields(ms@, n as int) =~= output@);
}

/// The full method-table unit for a class: the struct type with one slot
/// per eligible method plus the constructor slot, the zero-initialized
/// process-wide instance, the one-time-initialization guard, and the
/// initializer that resolves every slot by name.
pub open spec fn method_table_text(c: GodotClass) -> Seq<char> {
    "\n#[doc(hidden)]\n#[allow(non_camel_case_types)]\npub struct "@ + c.name@
        + "MethodTable {\n    pub class_constructor: sys::godot_class_constructor,\n"@
        + table_struct_fields(c.methods@, 0) + "\n}\n\nimpl "@ + c.name@
        + "MethodTable {\n    unsafe fn get_mut() -> &'static mut Self {\n        static mut TABLE: "@
        + c.name@ + "MethodTable = "@ + c.name@
        + "MethodTable {\n            class_constructor: None,\n"@
        + table_zero_fields(c.methods@, 0)
        + "\n        };\n\n        &mut TABLE\n    }\n\n    pub unsafe fn unchecked_get() -> &'static Self {\n        Self::get_mut()\n    }\n\n    pub fn get(gd_api: &GodotApi) -> &'static Self {\n        unsafe {\n            let table = Self::get_mut();\n            static INIT: Once = ONCE_INIT;\n            INIT.call_once(|| {\n                "@
        + c.name@
        + "MethodTable::init(table, gd_api);\n            });\n\n            table\n        }\n    }\n\n    #[inline(never)]\n    fn init(table: &mut Self, gd_api: &GodotApi) {\n        unsafe {\n            let class_name = b\""@
        + c.name@
        + "\\0\".as_ptr() as *const c_char;\n            table.class_constructor = (gd_api.godot_get_class_constructor)(class_name);\n"@
        + table_bind_fields(c.methods@, 0) + "\n        }\n    }\n}\n"@
}

/// Emits the method-table unit for a class.
pub fn generate_method_table(output: &mut String, class: &GodotClass)
    ensures
        final(output)@ == old(output)@ + method_table_text(*class),
{
    output.append("\n#[doc(hidden)]\n#[allow(non_camel_case_types)]\npub struct ");
    output.append(class.name.as_str());
    output.append("MethodTable {\n    pub class_constructor: sys::godot_class_constructor,\n");
    append_table_struct_fields(output, &class.methods);
    output.append("\n}\n\nimpl ");
    output.append(class.name.as_str());
    output.append("MethodTable {\n    unsafe fn get_mut() -> &'static mut Self {\n        static mut TABLE: ");
    output.append(class.name.as_str());
    output.append("MethodTable = ");
    output.append(class.name.as_str());
    output.append("MethodTable {\n            class_constructor: None,\n");
    append_table_zero_fields(output, &class.methods);
    output.append("\n        };\n\n        &mut TABLE\n    }\n\n    pub unsafe fn unchecked_get() -> &'static Self {\n        Self::get_mut()\n    }\n\n    pub fn get(gd_api: &GodotApi) -> &'static Self {\n        unsafe {\n            let table = Self::get_mut();\n            static INIT: Once = ONCE_INIT;\n            INIT.call_once(|| {\n                ");
    output.append(class.name.as_str());
    output.append("MethodTable::init(table, gd_api);\n            });\n\n            table\n        }\n    }\n\n    #[inline(never)]\n    fn init(table: &mut Self, gd_api: &GodotApi) {\n        unsafe {\n            let class_name = b\"");
    output.append(class.name.as_str());
    output.append("\\0\".as_ptr() as *const c_char;\n            table.class_constructor = (gd_api.godot_get_class_constructor)(class_name);\n");
    append_table_bind_fields(output, &class.methods);
    output.append("\n        }\n    }\n}\n");
    assert(output@ =~= old(output)@ + method_table_text(*class));
}

/// The argument-marshaling fragment for one declared argument of a
/// fixed-arity call: primitives and fixed-layout math types pass their own
/// address, heap-backed types pass their raw representation's address, and
/// object references pass the underlying pointer or null when absent.
pub open spec fn argument_pre_text(t: Ty, name: Seq<char>) -> Seq<char> {
    match t {
        Ty::Bool | Ty::F64 | Ty::I64 | Ty::Vector2 | Ty::Vector3 | Ty::Transform
        | Ty::Transform2D | Ty::Quat | Ty::Plane | Ty::Aabb | Ty::Basis | Ty::Rect2
        | Ty::Color => "        (&"@ + name + ") as *const _ as *const _,\n"@,
        Ty::Variant | Ty::GodotString | Ty::Rid | Ty::NodePath | Ty::VariantArray
        | Ty::Dictionary | Ty::ByteArray | Ty::StringArray | Ty::Vector2Array
        | Ty::Vector3Array | Ty::ColorArray | Ty::Int32Array | Ty::Float32Array => "        "@
            + name + ".sys() as *const _ as *const _,\n"@,
        Ty::Object(_) => "        if let Some(arg) = "@ + name
            + " { arg.this as *const _ as *const _ } else { ptr::null() },\n"@,
        _ => Seq::<char>::empty(),
    }
}

/// Emits the argument-marshaling fragment for one declared argument.
pub fn generate_argument_pre(w: &mut String, ty: &Ty, name: &str)
    ensures
        final(w)@ == old(w)@ + argument_pre_text(*ty, name@),
{
    match ty {
        Ty::Bool | Ty::F64 | Ty::I64 | Ty::Vector2 | Ty::Vector3 | Ty::Transform
        | Ty::Transform2D | Ty::Quat | Ty::Plane | Ty::Aabb | Ty::Basis | Ty::Rect2
        | Ty::Color => {
            w.append("        (&");
            w.append(name);
            w.append(") as *const _ as *const _,\n");
        },
        Ty::Variant | Ty::GodotString | Ty::Rid | Ty::NodePath | Ty::VariantArray
        | Ty::Dictionary | Ty::ByteArray | Ty::StringArray | Ty::Vector2Array
        | Ty::Vector3Array | Ty::ColorArray | Ty::Int32Array | Ty::Float32Array => {
            w.append("        ");
            w.append(name);
            w.append(".sys() as *const _ as *const _,\n");
        },
        Ty::Object(_) => {
            w.append("        if let Some(arg) = ");
            w.append(name);
            w.append(" { arg.this as *const _ as *const _ } else { ptr::null() },\n");
        },
        _ => {},
    }
    assert(w@ =~= old(w)@ + argument_pre_text(*ty, name@));
}

/// The return-slot preparation fragment for a declared return type: a stack
/// slot sized for the raw representation, or a null slot for void.
pub open spec fn return_pre_text(t: Ty) -> Seq<char> {
    match t {
        Ty::Void => "\n    let ret_ptr = ptr::null_mut();\n"@,
        Ty::F64 => "\n    let mut ret = 0.0f64;\n    let ret_ptr = &mut ret as *mut _;\n"@,
        Ty::I64 => "\n    let mut ret = 0i64;\n    let ret_ptr = &mut ret as *mut _;\n"@,
        Ty::Bool => "\n    let mut ret = false;\n    let ret_ptr = &mut ret as *mut _;\n"@,
        Ty::GodotString | Ty::Vector2 | Ty::Vector3 | Ty::Transform | Ty::Transform2D
        | Ty::Quat | Ty::Plane | Ty::Rect2 | Ty::Basis | Ty::Color | Ty::NodePath
        | Ty::Variant | Ty::Aabb | Ty::VariantArray | Ty::Dictionary | Ty::ByteArray
        | Ty::StringArray | Ty::Vector2Array | Ty::Vector3Array | Ty::ColorArray
        | Ty::Int32Array | Ty::Float32Array => "\n    let mut ret = "@ + ty_to_sys(t).unwrap()
            + "::default();\n    let ret_ptr = &mut ret as *mut _;\n"@,
        Ty::Object(_) | Ty::Rid => "\n    let mut ret: *mut sys::godot_object = ptr::null_mut();\n    let ret_ptr = (&mut ret) as *mut _;\n"@,
        Ty::GodotResult => "\n    let mut ret: sys::godot_error = sys::godot_error::GODOT_OK;\n    let ret_ptr = (&mut ret) as *mut _;\n"@,
        Ty::VariantType => "\n    let mut ret: sys::godot_variant_type = sys::godot_variant_type::GODOT_VARIANT_TYPE_NIL;\n    let ret_ptr = (&mut ret) as *mut _;\n"@,
        Ty::Enum(_) => Seq::<char>::empty(),
    }
}

/// Emits the return-slot preparation fragment.
pub fn generate_return_pre(w: &mut String, ty: &Ty)
    ensures
        final(w)@ == old(w)@ + return_pre_text(*ty),
{
    match ty {
        Ty::Void => {
            w.append("\n    let ret_ptr = ptr::null_mut();\n");
        },
        Ty::F64 => {
            w.append("\n    let mut ret = 0.0f64;\n    let ret_ptr = &mut ret as *mut _;\n");
        },
        Ty::I64 => {
            w.append("\n    let mut ret = 0i64;\n    let ret_ptr = &mut ret as *mut _;\n");
        },
        Ty::Bool => {
            w.append("\n    let mut ret = false;\n    let ret_ptr = &mut ret as *mut _;\n");
        },
        Ty::GodotString | Ty::Vector2 | Ty::Vector3 | Ty::Transform | Ty::Transform2D
        | Ty::Quat | Ty::Plane | Ty::Rect2 | Ty::Basis | Ty::Color | Ty::NodePath
        | Ty::Variant | Ty::Aabb | Ty::VariantArray | Ty::Dictionary | Ty::ByteArray
        | Ty::StringArray | Ty::Vector2Array | Ty::Vector3Array | Ty::ColorArray
        | Ty::Int32Array | Ty::Float32Array => {
            let sys_ty = ty.to_sys().unwrap();
            w.append("\n    let mut ret = ");
            w.append(sys_ty.as_str());
            w.append("::default();\n    let ret_ptr = &mut ret as *mut _;\n");
        },
        Ty::Object(_) | Ty::Rid => {
            w.append(
                "\n    let mut ret: *mut sys::godot_object = ptr::null_mut();\n    let ret_ptr = (&mut ret) as *mut _;\n",
            );
        },
        Ty::GodotResult => {
            w.append(
                "\n    let mut ret: sys::godot_error = sys::godot_error::GODOT_OK;\n    let ret_ptr = (&mut ret) as *mut _;\n",
            );
        },
        Ty::VariantType => {
            w.append(
                "\n    let mut ret: sys::godot_variant_type = sys::godot_variant_type::GODOT_VARIANT_TYPE_NIL;\n    let ret_ptr = (&mut ret) as *mut _;\n",
            );
        },
        Ty::Enum(_) => {},
    }
    assert(w@ =~= old(w)@ + return_pre_text(*ty));
}

/// The return-unmarshaling fragment: primitive copy, bit-reinterpretation
/// for fixed-layout math types, wrapping for heap-backed types, an absent
/// value for a null object pointer, or a typed-error decode.
pub open spec fn return_post_text(t: Ty) -> Seq<char> {
    match t {
        Ty::Void => Seq::<char>::empty(),
        Ty::F64 | Ty::I64 | Ty::Bool => "\n    ret\n"@,
        Ty::Vector2 | Ty::Vector3 | Ty::Transform | Ty::Transform2D | Ty::Quat | Ty::Aabb
        | Ty::Rect2 | Ty::Basis | Ty::Plane | Ty::Color => "    mem::transmute(ret)\n"@,
        Ty::Rid => "\n    let mut rid = Rid::default();\n    (gd_api.godot_rid_new_with_resource)(rid.mut_sys(), ret);\n\n    rid\n"@,
        Ty::GodotString | Ty::NodePath | Ty::VariantArray | Ty::Dictionary | Ty::ByteArray
        | Ty::StringArray | Ty::Vector2Array | Ty::Vector3Array | Ty::ColorArray
        | Ty::Int32Array | Ty::Float32Array | Ty::Variant => "\n    "@ + ty_to_rust(t).unwrap()
            + "::from_sys(ret)\n"@,
        Ty::Object(name) => "\n    if ret.is_null() {\n        None\n    } else {\n        Some("@
            + name@ + "::from_sys(ret))\n    }\n"@,
        Ty::GodotResult => "\n    result_from_sys(ret)\n"@,
        Ty::VariantType => "\n    VariantType::from_sys(ret)\n"@,
        Ty::Enum(_) => Seq::<char>::empty(),
    }
}

/// Emits the return-unmarshaling fragment.
pub fn generate_return_post(w: &mut String, ty: &Ty)
    ensures
        final(w)@ == old(w)@ + return_post_text(*ty),
{
    match ty {
        Ty::Void => {},
        Ty::F64 | Ty::I64 | Ty::Bool => {
            w.append("\n    ret\n");
        },
        Ty::Vector2 | Ty::Vector3 | Ty::Transform | Ty::Transform2D | Ty::Quat | Ty::Aabb
        | Ty::Rect2 | Ty::Basis | Ty::Plane | Ty::Color => {
            w.append("    mem::transmute(ret)\n");
        },
        Ty::Rid => {
            w.append(
                "\n    let mut rid = Rid::default();\n    (gd_api.godot_rid_new_with_resource)(rid.mut_sys(), ret);\n\n    rid\n",
            );
        },
        Ty::GodotString | Ty::NodePath | Ty::VariantArray | Ty::Dictionary | Ty::ByteArray
        | Ty::StringArray | Ty::Vector2Array | Ty::Vector3Array | Ty::ColorArray
        | Ty::Int32Array | Ty::Float32Array | Ty::Variant => {
            let rust_ty = ty.to_rust().unwrap();
            w.append("\n    ");
            w.append(rust_ty.as_str());
            w.append("::from_sys(ret)\n");
        },
        Ty::Object(name) => {
            w.append("\n    if ret.is_null() {\n        None\n    } else {\n        Some(");
            w.append(name.as_str());
            w.append("::from_sys(ret))\n    }\n");
        },
        Ty::GodotResult => {
            w.append("\n    result_from_sys(ret)\n");
        },
        Ty::VariantType => {
            w.append("\n    VariantType::from_sys(ret)\n");
        },
        Ty::Enum(_) => {},
    }
    assert(w@ =~= old(w)@ + return_post_text(*ty));
}

/// The marker emitted in place of a method whose return or argument types
/// have no mapping yet.
pub open spec fn todo_marker(m: GodotMethod) -> Seq<char> {
    "// TODO: missing method "@ + spec_method_name(m) + "\n"@
}

/// The parameter declarations of a wrapper, one per declared argument, from
/// index `i` on. Meaningful only when every argument type maps.
pub open spec fn params_decl_seq(args: Seq<GodotArgument>, i: int) -> Seq<char>
    decreases args.len() - i,
{
    if i < 0 || i >= args.len() {
        Seq::<char>::empty()
    } else {
        ", "@ + spec_rust_safe_name(args[i].name@) + ": "@ + ty_to_rust(args[i].ty).unwrap()
            + params_decl_seq(args, i + 1)
    }
}

/// The full parameter list of a wrapper, with the trailing dynamic-value
/// slice when the method is variadic.
pub open spec fn params_decl_full(m: GodotMethod) -> Seq<char> {
    params_decl_seq(m.arguments@, 0) + (if m.has_varargs {
        ", varargs: &[Variant]"@
    } else {
        Seq::<char>::empty()
    })
}

/// The head of a wrapper: its signature, the api handle, and the fetch of
/// the method's slot from the class's method table.
pub open spec fn method_impl_header(c: GodotClass, m: GodotMethod) -> Seq<char> {
    "\n\n#[doc(hidden)]\npub unsafe fn "@ + c.name@ + "_"@ + spec_method_name(m)
        + "(obj_ptr: *mut sys::godot_object"@ + params_decl_full(m) + ") -> "@ + ty_to_rust(
        m.return_type,
    ).unwrap() + " {\n    let gd_api = ::get_api();\n\n    let method_bind: *mut sys::godot_method_bind = "@
        + c.name@ + "MethodTable::get(gd_api)."@ + spec_method_name(m) + ";\n"@
}

/// Boxing of one declared argument into a dynamic value for the variadic
/// path, reusing the empty dynamic value for an absent optional object.
pub open spec fn vararg_box_text(a: GodotArgument) -> Seq<char> {
    (if spec_has_prefix(ty_to_rust(a.ty).unwrap(), "Option"@) {
        "    let "@ + spec_rust_safe_name(a.name@) + ": Variant = if let Some(o) = "@
            + spec_rust_safe_name(a.name@)
            + " {\n           o.into()\n       } else { Variant::new() };\n"@
    } else if ty_to_rust(a.ty).unwrap() == "GodotString"@ {
        "    let "@ + spec_rust_safe_name(a.name@) + ": Variant = Variant::from_godot_string(&"@
            + spec_rust_safe_name(a.name@) + ");\n"@
    } else {
        "\n       let "@ + spec_rust_safe_name(a.name@) + ": Variant = "@ + spec_rust_safe_name(
            a.name@,
        ) + ".into();\n"@
    }) + "    argument_buffer.push("@ + spec_rust_safe_name(a.name@) + ".sys()); \n"@
}

/// The boxing fragments of every declared argument from index `i` on.
pub open spec fn vararg_boxes(args: Seq<GodotArgument>, i: int) -> Seq<char>
    decreases args.len() - i,
{
    if i < 0 || i >= args.len() {
        Seq::<char>::empty()
    } else {
        vararg_box_text(args[i]) + vararg_boxes(args, i + 1)
    }
}

/// The argument-marshaling fragments of every declared argument from index
/// `i` on, for the fixed-arity path.
pub open spec fn arg_pres(args: Seq<GodotArgument>, i: int) -> Seq<char>
    decreases args.len() - i,
{
    if i < 0 || i >= args.len() {
        Seq::<char>::empty()
    } else {
        argument_pre_text(args[i].ty, spec_rust_safe_name(args[i].name@)) + arg_pres(args, i + 1)
    }
}

/// The variadic-path body: a growable array of dynamic-value handles long
/// enough for the declared arguments plus the trailing values, the dynamic
/// dispatch call, and the unwrap of the dynamic result.
pub open spec fn varargs_tail(m: GodotMethod) -> Seq<char> {
    "    let mut argument_buffer: Vec<*const sys::godot_variant> = Vec::with_capacity("@
        + spec_decimal(m.arguments@.len() as int) + " + varargs.len());\n"@ + vararg_boxes(
        m.arguments@,
        0,
    )
        + "\n    for arg in varargs {\n        argument_buffer.push(arg.sys() as *const _);\n    }\n    let ret = Variant::from_sys((gd_api.godot_method_bind_call)(method_bind, obj_ptr, argument_buffer.as_mut_ptr(), argument_buffer.len() as _, ptr::null_mut()));\n"@
        + (if spec_has_prefix(ty_to_rust(m.return_type).unwrap(), "Option"@) {
        "    ret.try_to_object()\n"@
    } else {
        "    ret.into()\n"@
    })
}

/// The fixed-arity ("ptrcall") body: the raw argument-pointer array with
/// one entry per declared argument, the return slot, the raw call, and the
/// return unmarshaling.
pub open spec fn fixed_tail(m: GodotMethod) -> Seq<char> {
    "\n    let mut argument_buffer : [*const libc::c_void; "@ + spec_decimal(
        m.arguments@.len() as int,
    ) + "] = [\n"@ + arg_pres(m.arguments@, 0) + "\n    ];\n"@ + return_pre_text(m.return_type)
        + "\n    (gd_api.godot_method_bind_ptrcall)(method_bind, obj_ptr, argument_buffer.as_mut_ptr() as *mut _, ret_ptr as *mut _);\n"@
        + return_post_text(m.return_type)
}

/// The whole emission for one method: nothing for a lifecycle primitive, a
/// marker for a method with an unmappable type, and otherwise a complete
/// wrapper function.
pub open spec fn method_impl_text(c: GodotClass, m: GodotMethod) -> Seq<char> {
    if spec_skip_method(spec_method_name(m)) {
        Seq::<char>::empty()
    } else if ty_to_rust(m.return_type) is None || !spec_args_mappable(m.arguments@) {
        todo_marker(m)
    } else {
        method_impl_header(c, m) + (if m.has_varargs {
            varargs_tail(m)
        } else {
            fixed_tail(m)
        }) + "}\n"@
    }
}

fn append_vararg_boxes(output: &mut String, args: &Vec<GodotArgument>)
    requires
        spec_args_mappable(args@),
    ensures
        final(output)@ == old(output)@ + vararg_boxes(args@, 0),
{
    let ghost base = output@;
    let n = args.len();
    let mut i: usize = 0;
    while i < n
        invariant
            n == args@.len(),
            i <= n,
            spec_args_mappable(args@),
            base + vararg_boxes(args@, 0) == output@ + vararg_boxes(args@, i as int),
        decreases n - i,
    {
        let ghost before = output@;
        let name = rust_safe_name(args[i].name.as_str());
        proof {
            lemma_marshallable_maps(args@[i as int].ty);
        }
        let ty = args[i].get_type().to_rust().unwrap();
        if str_has_prefix(ty.as_str(), "Option") {
            output.append("    let ");
            output.append(name.as_str());
            output.append(": Variant = if let Some(o) = ");
            output.append(name.as_str());
            output.append(" {\n           o.into()\n       } else { Variant::new() };\n");
        } else if str_eq(ty.as_str(), "GodotString") {
            output.append("    let ");
            output.append(name.as_str());
            output.append(": Variant = Variant::from_godot_string(&");
            output.append(name.as_str());
            output.append(");\n");
        } else {
            output.append("\n       let ");
            output.append(name.as_str());
            output.append(": Variant = ");
            output.append(name.as_str());
            output.append(".into();\n");
        }
        output.append("    argument_buffer.push(");
        output.append(name.as_str());
        output.append(".sys()); \n");
        assert(before + vararg_boxes(args@, i as int) =~= output@ + vararg_boxes(args@, i + 1));
        i += 1;
    }
    assert(output@ + vararg_boxes(args@, n as int) =~= output@);
}

fn append_arg_pres(output: &mut String, args: &Vec<GodotArgument>)
    ensures
        final(output)@ == old(output)@ + arg_pres(args@, 0),
{
    let ghost base = output@;
    let n = args.len();
    let mut i: usize = 0;
    while i < n
        invariant
            n == args@.len(),
            i <= n,
            base + arg_pres(args@, 0) == output@ + arg_pres(args@, i as int),
        decreases n - i,
    {
        let ghost before = output@;
        let name = rust_safe_name(args[i].name.as_str());
        generate_argument_pre(output, args[i].get_type(), name.as_str());
        assert(before + arg_pres(args@, i as int) =~= output@ + arg_pres(args@, i + 1));
        i += 1;
    }
    assert(output@ + arg_pres(args@, n as int) =~= output@);
}

/// Emits the wrapper for one method of a class, or its skip marker.
#[verifier::rlimit(80)]
pub fn generate_method_impl(output: &mut String, class: &GodotClass, method: &GodotMethod)
    ensures
        final(output)@ == old(output)@ + method_impl_text(*class, *method),
{
    let method_name = method.get_name();
    if skip_method(method_name.as_str()) {
        assert(output@ =~= old(output)@ + method_impl_text(*class, *method));
        return ;
    }
    let rust_ret_type = match method.get_return_type().to_rust() {
        Some(ty) => ty,
        None => {
            output.append("// TODO: missing method ");
            output.append(method_name.as_str());
            output.append("\n");
            assert(output@ =~= old(output)@ + method_impl_text(*class, *method));
            return ;
        },
    };
    let mut params = String::new();
    let n = method.arguments.len();
    let mut i: usize = 0;
    while i < n
        invariant
            n == method.arguments@.len(),
            i <= n,
            output@ == old(output)@,
            method_name@ == spec_method_name(*method),
            !spec_skip_method(spec_method_name(*method)),
            ty_to_rust(method.return_type) is Some,
            rust_ret_type@ == ty_to_rust(method.return_type).unwrap(),
            forall|j: int|
                0 <= j < i ==> spec_arg_marshallable((#[trigger] method.arguments@[j]).ty),
            params@ + params_decl_seq(method.arguments@, i as int) == params_decl_seq(
                method.arguments@,
                0,
            ),
        decreases n - i,
    {
        let ghost before = params@;
        if !is_arg_marshallable(method.arguments[i].get_type()) {
            output.append("// TODO: missing method ");
            output.append(method_name.as_str());
            output.append("\n");
            assert(!spec_args_mappable(method.arguments@));
            assert(output@ =~= old(output)@ + todo_marker(*method));
            assert(method_impl_text(*class, *method) == todo_marker(*method));
            return ;
        }
        proof {
            lemma_marshallable_maps(method.arguments@[i as int].ty);
        }
        let ty = method.arguments[i].get_type().to_rust().unwrap();
        params.append(", ");
        params.append(rust_safe_name(method.arguments[i].name.as_str()).as_str());
        params.append(": ");
        params.append(ty.as_str());
        assert(before + params_decl_seq(method.arguments@, i as int) =~= params@
            + params_decl_seq(method.arguments@, i + 1));
        i += 1;
    }
    assert(spec_args_mappable(method.arguments@));
    assert(params@ + params_decl_seq(method.arguments@, n as int) =~= params@);
    if method.has_varargs {
        params.append(", varargs: &[Variant]");
    }
    assert(params@ == params_decl_full(*method));
    output.append("\n\n#[doc(hidden)]\npub unsafe fn ");
    output.append(class.name.as_str());
    output.append("_");
    output.append(method_name.as_str());
    output.append("(obj_ptr: *mut sys::godot_object");
    output.append(params.as_str());
    output.append(") -> ");
    output.append(rust_ret_type.as_str());
    output.append(" {\n    let gd_api = ::get_api();\n\n    let method_bind: *mut sys::godot_method_bind = ");
    output.append(class.name.as_str());
    output.append("MethodTable::get(gd_api).");
    output.append(method_name.as_str());
    output.append(";\n");
    assert(output@ =~= old(output)@ + method_impl_header(*class, *method));
    if method.has_varargs {
        output.append("    let mut argument_buffer: Vec<*const sys::godot_variant> = Vec::with_capacity(");
        output.append(decimal_u64(method.arguments.len() as u64).as_str());
        output.append(" + varargs.len());\n");
        append_vararg_boxes(output, &method.arguments);
        output.append("\n    for arg in varargs {\n        argument_buffer.push(arg.sys() as *const _);\n    }\n    let ret = Variant::from_sys((gd_api.godot_method_bind_call)(method_bind, obj_ptr, argument_buffer.as_mut_ptr(), argument_buffer.len() as _, ptr::null_mut()));\n");
        if str_has_prefix(rust_ret_type.as_str(), "Option") {
            output.append("    ret.try_to_object()\n");
        } else {
            output.append("    ret.into()\n");
        }
        assert(output@ =~= old(output)@ + method_impl_header(*class, *method) + varargs_tail(
            *method,
        ));
    } else {
        output.append("\n    let mut argument_buffer : [*const libc::c_void; ");
        output.append(decimal_u64(method.arguments.len() as u64).as_str());
        output.append("] = [\n");
        append_arg_pres(output, &method.arguments);
        output.append("\n    ];\n");
        generate_return_pre(output, method.get_return_type());
        output.append("\n    (gd_api.godot_method_bind_ptrcall)(method_bind, obj_ptr, argument_buffer.as_mut_ptr() as *mut _, ret_ptr as *mut _);\n");
        generate_return_post(output, method.get_return_type());
        assert(output@ =~= old(output)@ + method_impl_header(*class, *method) + fixed_tail(
            *method,
        ));
    }
    output.append("}\n");
    assert(output@ =~= old(output)@ + method_impl_text(*class, *method));
}

/// The argument names of a wrapper call, one per declared argument, from
/// index `i` on.
pub open spec fn params_use_seq(args: Seq<GodotArgument>, i: int) -> Seq<char>
    decreases args.len() - i,
{
    if i < 0 || i >= args.len() {
        Seq::<char>::empty()
    } else {
        ", "@ + spec_rust_safe_name(args[i].name@) + params_use_seq(args, i + 1)
    }
}

/// The full argument list of a wrapper call, with the trailing dynamic
/// values when the method is variadic.
pub open spec fn params_use_full(m: GodotMethod) -> Seq<char> {
    params_use_seq(m.arguments@, 0) + (if m.has_varargs {
        ", varargs"@
    } else {
        Seq::<char>::empty()
    })
}

/// The receiver of a flattened method: shared for a const method, unique
/// otherwise.
pub open spec fn self_param_seq(m: GodotMethod) -> Seq<char> {
    if m.is_const {
        "&self"@
    } else {
        "&mut self"@
    }
}

/// The documentation line above a flattened method, present only when the
/// method is inherited from an ancestor.
pub open spec fn method_entry_doc(c: GodotClass, is_leaf: bool) -> Seq<char> {
    if !is_leaf {
        "    /// Inherited from "@ + spec_class_doc_link(c) + ".\n"@
    } else {
        Seq::<char>::empty()
    }
}

/// The forwarding function of a flattened method on a pointer-safe class.
pub open spec fn method_entry_fn_safe(c: GodotClass, m: GodotMethod) -> Seq<char> {
    "    #[inline]\n    pub fn "@ + spec_method_name(m) + "("@ + self_param_seq(m)
        + params_decl_full(m) + ") -> "@ + ty_to_rust(m.return_type).unwrap()
        + " {\n        unsafe { "@ + c.name@ + "_"@ + spec_method_name(m) + "(self.this"@
        + params_use_full(m) + ") }\n    }\n\n"@
}

/// The forwarding function of a flattened method on a class that is not
/// pointer-safe.
pub open spec fn method_entry_fn_unsafe(c: GodotClass, m: GodotMethod) -> Seq<char> {
    "    #[inline]\n    pub unsafe fn "@ + spec_method_name(m) + "("@ + self_param_seq(m)
        + params_decl_full(m) + ") -> "@ + ty_to_rust(m.return_type).unwrap() + " {\n        "@
        + c.name@ + "_"@ + spec_method_name(m) + "(self.this"@ + params_use_full(m)
        + ")\n    }\n\n"@
}

/// One flattened method on a class's public surface: a documentation link
/// when the method is inherited, and a forwarding function that is safe
/// exactly when the class is pointer-safe.
pub open spec fn method_entry_text(
    c: GodotClass,
    m: GodotMethod,
    is_safe: bool,
    is_leaf: bool,
) -> Seq<char> {
    method_entry_doc(c, is_leaf) + (if is_safe {
        method_entry_fn_safe(c, m)
    } else {
        method_entry_fn_unsafe(c, m)
    })
}

/// The de-duplication set after walking a class's methods from index `i`:
/// each method that is eligible and not yet taken adds its name.
pub open spec fn emitted_set_rec(c: GodotClass, i: int, set: Seq<Seq<char>>) -> Seq<Seq<char>>
    decreases c.methods@.len() - i,
{
    if i < 0 || i >= c.methods@.len() {
        set
    } else {
        let m = c.methods@[i];
        if spec_method_eligible(m) && !set.contains(spec_method_name(m)) {
            emitted_set_rec(c, i + 1, set.push(spec_method_name(m)))
        } else {
            emitted_set_rec(c, i + 1, set)
        }
    }
}

/// The flattened-method text of a class from method index `i` on, under a
/// de-duplication set threaded through the walk.
pub open spec fn class_methods_text(
    c: GodotClass,
    i: int,
    set: Seq<Seq<char>>,
    is_safe: bool,
    is_leaf: bool,
) -> Seq<char>
    decreases c.methods@.len() - i,
{
    if i < 0 || i >= c.methods@.len() {
        Seq::<char>::empty()
    } else {
        let m = c.methods@[i];
        if spec_method_eligible(m) && !set.contains(spec_method_name(m)) {
            method_entry_text(c, m, is_safe, is_leaf) + class_methods_text(
                c,
                i + 1,
                set.push(spec_method_name(m)),
                is_safe,
                is_leaf,
            )
        } else {
            class_methods_text(c, i + 1, set, is_safe, is_leaf)
        }
    }
}

/// The de-duplication set after flattening the whole base-class chain,
/// walking up at most `fuel` links.
pub open spec fn chain_set(
    cs: Seq<GodotClass>,
    cname: Seq<char>,
    set: Seq<Seq<char>>,
    fuel: nat,
) -> Seq<Seq<char>>
    decreases fuel,
{
    let ci = class_idx(cs, cname);
    if ci < 0 {
        set
    } else {
        let s1 = emitted_set_rec(cs[ci], 0, set);
        if cs[ci].base_class@ != Seq::<char>::empty() && fuel > 0 {
            chain_set(cs, cs[ci].base_class@, s1, (fuel - 1) as nat)
        } else {
            s1
        }
    }
}

/// The flattened-method text of the whole base-class chain of a class: the
/// class's own eligible methods first, then every ancestor's, subject to
/// the de-duplication set, walking up at most `fuel` links.
pub open spec fn chain_methods_text(
    cs: Seq<GodotClass>,
    cname: Seq<char>,
    set: Seq<Seq<char>>,
    is_safe: bool,
    is_leaf: bool,
    fuel: nat,
) -> Seq<char>
    decreases fuel,
{
    let ci = class_idx(cs, cname);
    if ci < 0 {
        Seq::<char>::empty()
    } else {
        let t1 = class_methods_text(cs[ci], 0, set, is_safe, is_leaf);
        let s1 = emitted_set_rec(cs[ci], 0, set);
        if cs[ci].base_class@ != Seq::<char>::empty() && fuel > 0 {
            t1 + chain_methods_text(cs, cs[ci].base_class@, s1, is_safe, false, (fuel - 1) as nat)
        } else {
            t1
        }
    }
}

/// Builds the parameter declaration list and the argument list of a
/// flattened method.
fn build_params(method: &GodotMethod) -> (r: (String, String))
    requires
        spec_args_mappable(method.arguments@),
    ensures
        r.0@ == params_decl_full(*method),
        r.1@ == params_use_full(*method),
{
    let mut params_decl = String::new();
    let mut params_use = String::new();
    let n = method.arguments.len();
    let mut i: usize = 0;
    while i < n
        invariant
            n == method.arguments@.len(),
            i <= n,
            spec_args_mappable(method.arguments@),
            params_decl@ + params_decl_seq(method.arguments@, i as int) == params_decl_seq(
                method.arguments@,
                0,
            ),
            params_use@ + params_use_seq(method.arguments@, i as int) == params_use_seq(
                method.arguments@,
                0,
            ),
        decreases n - i,
    {
        let ghost before_decl = params_decl@;
        let ghost before_use = params_use@;
        let name = rust_safe_name(method.arguments[i].name.as_str());
        proof {
            lemma_marshallable_maps(method.arguments@[i as int].ty);
        }
        let ty = method.arguments[i].get_type().to_rust().unwrap();
        params_decl.append(", ");
        params_decl.append(name.as_str());
        params_decl.append(": ");
        params_decl.append(ty.as_str());
        params_use.append(", ");
        params_use.append(name.as_str());
        assert(before_decl + params_decl_seq(method.arguments@, i as int) =~= params_decl@
            + params_decl_seq(method.arguments@, i + 1));
        assert(before_use + params_use_seq(method.arguments@, i as int) =~= params_use@
            + params_use_seq(method.arguments@, i + 1));
        i += 1;
    }
    assert(params_decl@ + params_decl_seq(method.arguments@, n as int) =~= params_decl@);
    assert(params_use@ + params_use_seq(method.arguments@, n as int) =~= params_use@);
    if method.has_varargs {
        params_decl.append(", varargs: &[Variant]");
        params_use.append(", varargs");
    }
    assert(params_decl@ =~= params_decl_full(*method));
    assert(params_use@ =~= params_use_full(*method));
    (params_decl, params_use)
}

/// Emits one flattened method onto a class's public surface.
fn append_method_entry(
    output: &mut String,
    class: &GodotClass,
    method: &GodotMethod,
    is_safe: bool,
    is_leaf: bool,
)
    requires
        spec_method_eligible(*method),
    ensures
        final(output)@ == old(output)@ + method_entry_text(*class, *method, is_safe, is_leaf),
{
    let method_name = method.get_name();
    let rust_ret_type = method.get_return_type().to_rust().unwrap();
    let params = build_params(method);
    let self_param: &str = if method.is_const {
        "&self"
    } else {
        "&mut self"
    };
    let mut s: String;
    if is_safe {
        s = String::from_str("    #[inline]\n    pub fn ");
        s.append(method_name.as_str());
        s.append("(");
        s.append(self_param);
        s.append(params.0.as_str());
        s.append(") -> ");
        s.append(rust_ret_type.as_str());
        s.append(" {\n        unsafe { ");
        s.append(class.name.as_str());
        s.append("_");
        s.append(method_name.as_str());
        s.append("(self.this");
        s.append(params.1.as_str());
        s.append(") }\n    }\n\n");
        assert(s@ == method_entry_fn_safe(*class, *method));
    } else {
        s = String::from_str("    #[inline]\n    pub unsafe fn ");
        s.append(method_name.as_str());
        s.append("(");
        s.append(self_param);
        s.append(params.0.as_str());
        s.append(") -> ");
        s.append(rust_ret_type.as_str());
        s.append(" {\n        ");
        s.append(class.name.as_str());
        s.append("_");
        s.append(method_name.as_str());
        s.append("(self.this");
        s.append(params.1.as_str());
        s.append(")\n    }\n\n");
        assert(s@ == method_entry_fn_unsafe(*class, *method));
    }
    if !is_leaf {
        let mut doc = String::from_str("    /// Inherited from ");
        doc.append(class_doc_link(class).as_str());
        doc.append(".\n");
        assert(doc@ == method_entry_doc(*class, is_leaf));
        output.append(doc.as_str());
        output.append(s.as_str());
        assert(output@ =~= old(output)@ + method_entry_text(*class, *method, is_safe, is_leaf));
    } else {
        output.append(s.as_str());
        assert(output@ =~= old(output)@ + method_entry_text(*class, *method, is_safe, is_leaf));
    }
}

/// Emits the eligible, not-yet-taken methods of one class, adding each
/// emitted name to the de-duplication set.
fn generate_class_methods(
    output: &mut String,
    class: &GodotClass,
    method_set: &mut Vec<String>,
    is_safe: bool,
    is_leaf: bool,
)
    ensures
        final(output)@ == old(output)@ + class_methods_text(
            *class,
            0,
            old(method_set).deep_view(),
            is_safe,
            is_leaf,
        ),
        final(method_set).deep_view() == emitted_set_rec(*class, 0, old(method_set).deep_view()),
{
    let ghost base_out = output@;
    let ghost base_set = method_set.deep_view();
    let n = class.methods.len();
    let mut i: usize = 0;
    while i < n
        invariant
            n == class.methods@.len(),
            i <= n,
            base_out + class_methods_text(*class, 0, base_set, is_safe, is_leaf) == output@
                + class_methods_text(*class, i as int, method_set.deep_view(), is_safe, is_leaf),
            emitted_set_rec(*class, 0, base_set) == emitted_set_rec(
                *class,
                i as int,
                method_set.deep_view(),
            ),
        decreases n - i,
    {
        let ghost before_out = output@;
        let ghost before_set = method_set.deep_view();
        let method = &class.methods[i];
        let method_name = method.get_name();
        if is_method_eligible(method) && !contains_name(method_set, method_name.as_str()) {
            append_method_entry(output, class, method, is_safe, is_leaf);
            method_set.push(method_name);
            assert(method_set.deep_view() =~= before_set.push(spec_method_name(
                class.methods@[i as int],
            )));
        }
        assert(before_out + class_methods_text(
            *class,
            i as int,
            before_set,
            is_safe,
            is_leaf,
        ) =~= output@ + class_methods_text(
            *class,
            i + 1,
            method_set.deep_view(),
            is_safe,
            is_leaf,
        ));
        i += 1;
    }
    assert(output@ + class_methods_text(
        *class,
        n as int,
        method_set.deep_view(),
        is_safe,
        is_leaf,
    ) =~= output@);
}

fn generate_methods_rec(
    output: &mut String,
    api: &Api,
    method_set: &mut Vec<String>,
    class_name: &str,
    is_safe: bool,
    is_leaf: bool,
    fuel: usize,
)
    ensures
        final(output)@ == old(output)@ + chain_methods_text(
            api.classes@,
            class_name@,
            old(method_set).deep_view(),
            is_safe,
            is_leaf,
            fuel as nat,
        ),
        final(method_set).deep_view() == chain_set(
            api.classes@,
            class_name@,
            old(method_set).deep_view(),
            fuel as nat,
        ),
    decreases fuel,
{
    match find_class(&api.classes, class_name) {
        None => {},
        Some(class) => {
            generate_class_methods(output, class, method_set, is_safe, is_leaf);
            if class.base_class.unicode_len() > 0 && fuel > 0 {
                assert(class.base_class@ != Seq::<char>::empty());
                generate_methods_rec(
                    output,
                    api,
                    method_set,
                    class.base_class.as_str(),
                    is_safe,
                    false,
                    fuel - 1,
                );
            } else {
                assert(class.base_class@.len() == 0 ==> class.base_class@
                    =~= Seq::<char>::empty());
            }
        },
    }
}

/// Flattens every eligible method of a class and of all its ancestors onto
/// the class's public surface, emitting each method name at most once, the
/// nearest definition first.
pub fn generate_methods(
    output: &mut String,
    api: &Api,
    method_set: &mut Vec<String>,
    class_name: &str,
    is_safe: bool,
    is_leaf: bool,
)
    ensures
        final(output)@ == old(output)@ + chain_methods_text(
            api.classes@,
            class_name@,
            old(method_set).deep_view(),
            is_safe,
            is_leaf,
            api.classes@.len(),
        ),
        final(method_set).deep_view() == chain_set(
            api.classes@,
            class_name@,
            old(method_set).deep_view(),
            api.classes@.len(),
        ),
{
    let fuel = api.classes.len();
    generate_methods_rec(output, api, method_set, class_name, is_safe, is_leaf, fuel);
}

/// The (class name, method name) pairs that the flattening walk emits for
/// one class from method index `i` on, under a de-duplication set. The
/// guards are exactly those of `class_methods_text`.
pub open spec fn class_flat_pairs(c: GodotClass, i: int, set: Seq<Seq<char>>) -> Seq<
    (Seq<char>, Seq<char>),
>
    decreases c.methods@.len() - i,
{
    if i < 0 || i >= c.methods@.len() {
        Seq::<(Seq<char>, Seq<char>)>::empty()
    } else {
        let m = c.methods@[i];
        if spec_method_eligible(m) && !set.contains(spec_method_name(m)) {
            seq![(c.name@, spec_method_name(m))] + class_flat_pairs(
                c,
                i + 1,
                set.push(spec_method_name(m)),
            )
        } else {
            class_flat_pairs(c, i + 1, set)
        }
    }
}

/// The (class name, method name) pairs of the whole flattened surface of a
/// class: its own eligible methods first, then its ancestors', each name
/// at most once. The guards are exactly those of `chain_methods_text`.
pub open spec fn chain_flat_pairs(
    cs: Seq<GodotClass>,
    cname: Seq<char>,
    set: Seq<Seq<char>>,
    fuel: nat,
) -> Seq<(Seq<char>, Seq<char>)>
    decreases fuel,
{
    let ci = class_idx(cs, cname);
    if ci < 0 {
        Seq::<(Seq<char>, Seq<char>)>::empty()
    } else {
        let ps = class_flat_pairs(cs[ci], 0, set);
        let s1 = emitted_set_rec(cs[ci], 0, set);
        if cs[ci].base_class@ != Seq::<char>::empty() && fuel > 0 {
            ps + chain_flat_pairs(cs, cs[ci].base_class@, s1, (fuel - 1) as nat)
        } else {
            ps
        }
    }
}

/// Whether a class declares an eligible method of the given emitted name
/// at or after method index `i`.
pub open spec fn has_eligible_from(c: GodotClass, i: int, nm: Seq<char>) -> bool {
    exists|j: int|
        i <= j < c.methods@.len() && spec_method_eligible(#[trigger] c.methods@[j])
            && spec_method_name(c.methods@[j]) == nm
}

/// The class whose definition of an eligible method named `nm` is nearest
/// to the given class along its base-class chain, walking up at most
/// `fuel` links.
pub open spec fn nearest_def(
    cs: Seq<GodotClass>,
    cname: Seq<char>,
    nm: Seq<char>,
    fuel: nat,
) -> Option<Seq<char>>
    decreases fuel,
{
    let ci = class_idx(cs, cname);
    if ci < 0 {
        None
    } else if has_eligible_from(cs[ci], 0, nm) {
        Some(cname)
    } else if cs[ci].base_class@ != Seq::<char>::empty() && fuel > 0 {
        nearest_def(cs, cs[ci].base_class@, nm, (fuel - 1) as nat)
    } else {
        None
    }
}

proof fn lemma_push_contains(s: Seq<Seq<char>>, v: Seq<char>, x: Seq<char>)
    ensures
        s.push(v).contains(x) <==> (s.contains(x) || x == v),
{
    if s.push(v).contains(x) {
        let k = choose|k: int| 0 <= k < s.push(v).len() && s.push(v)[k] == x;
        if k < s.len() {
            assert(s[k] == x);
        }
    }
    if s.contains(x) {
        let k = choose|k: int| 0 <= k < s.len() && s[k] == x;
        assert(s.push(v)[k] == x);
    }
    if x == v {
        assert(s.push(v)[s.len() as int] == x);
    }
}

proof fn lemma_class_flat_pairs(c: GodotClass, i: int, set: Seq<Seq<char>>)
    requires
        0 <= i <= c.methods@.len(),
    ensures
        ({
            let ps = class_flat_pairs(c, i, set);
            let s1 = emitted_set_rec(c, i, set);
            &&& forall|k: int| 0 <= k < ps.len() ==> (#[trigger] ps[k]).0 == c.name@
            &&& forall|k: int| 0 <= k < ps.len() ==> !set.contains((#[trigger] ps[k]).1)
            &&& forall|k1: int, k2: int|
                0 <= k1 < k2 < ps.len() ==> (#[trigger] ps[k1]).1 != (#[trigger] ps[k2]).1
            &&& forall|x: Seq<char>|
                #[trigger] s1.contains(x) <==> (set.contains(x) || exists|k: int|
                    0 <= k < ps.len() && (#[trigger] ps[k]).1 == x)
            &&& forall|k: int| 0 <= k < ps.len() ==> has_eligible_from(c, i, (#[trigger] ps[k]).1)
            &&& forall|nm: Seq<char>|
                !set.contains(nm) && #[trigger] has_eligible_from(c, i, nm) ==> exists|k: int|
                    0 <= k < ps.len() && (#[trigger] ps[k]).1 == nm
        }),
    decreases c.methods@.len() - i,
{
    let ps = class_flat_pairs(c, i, set);
    let s1 = emitted_set_rec(c, i, set);
    if i == c.methods@.len() {
        assert forall|x: Seq<char>| #[trigger]
            s1.contains(x) implies (set.contains(x) || exists|k: int|
            0 <= k < ps.len() && (#[trigger] ps[k]).1 == x) by {}
    } else {
        let m = c.methods@[i];
        let nm0 = spec_method_name(m);
        if spec_method_eligible(m) && !set.contains(nm0) {
            let set2 = set.push(nm0);
            let ps2 = class_flat_pairs(c, i + 1, set2);
            lemma_class_flat_pairs(c, i + 1, set2);
            assert forall|x: Seq<char>| true implies (#[trigger] set2.contains(x) <==> (
            set.contains(x) || x == nm0)) by {
                lemma_push_contains(set, nm0, x);
            }
            assert(ps == seq![(c.name@, nm0)] + ps2);
            assert(s1 == emitted_set_rec(c, i + 1, set2));
            assert(ps[0] == (c.name@, nm0));
            assert forall|k: int| 1 <= k < ps.len() implies ps[k] == ps2[k - 1] by {}
            // names of the tail avoid the extended set, so they differ from nm0
            assert forall|k: int| 0 <= k < ps.len() implies !set.contains(
                (#[trigger] ps[k]).1,
            ) by {
                if k >= 1 {
                    assert(!set2.contains(ps2[k - 1].1));
                }
            }
            assert forall|k1: int, k2: int|
                0 <= k1 < k2 < ps.len() implies (#[trigger] ps[k1]).1 != (#[trigger] ps[k2]).1 by {
                if k1 == 0 {
                    assert(!set2.contains(ps2[k2 - 1].1));
                    assert(set2.contains(nm0));
                }
            }
            assert forall|x: Seq<char>| #[trigger]
                s1.contains(x) implies (set.contains(x) || exists|k: int|
                0 <= k < ps.len() && (#[trigger] ps[k]).1 == x) by {
                if !set.contains(x) {
                    if x == nm0 {
                        assert(ps[0].1 == x);
                    } else {
                        assert(set2.contains(x) || exists|k: int|
                            0 <= k < ps2.len() && (#[trigger] ps2[k]).1 == x);
                        if set2.contains(x) {
                        } else {
                            let k = choose|k: int| 0 <= k < ps2.len() && (#[trigger] ps2[k]).1
                                == x;
                            assert(ps[k + 1].1 == x);
                        }
                    }
                }
            }
            assert forall|x: Seq<char>|
                set.contains(x) || (exists|k: int|
                    0 <= k < ps.len() && (#[trigger] ps[k]).1 == x) implies #[trigger] s1.contains(
                x,
            ) by {
                if set.contains(x) {
                    assert(set2.contains(x));
                    assert(s1.contains(x));
                } else {
                    let k = choose|k: int| 0 <= k < ps.len() && (#[trigger] ps[k]).1 == x;
                    if k == 0 {
                        assert(set2.contains(x));
                        assert(s1.contains(x));
                    } else {
                        assert(ps2[k - 1].1 == x);
                        assert(s1.contains(x));
                    }
                }
            }
            assert forall|k: int| 0 <= k < ps.len() implies has_eligible_from(
                c,
                i,
                (#[trigger] ps[k]).1,
            ) by {
                if k == 0 {
                    assert(spec_method_eligible(c.methods@[i]) && spec_method_name(c.methods@[i])
                        == nm0);
                } else {
                    assert(has_eligible_from(c, i + 1, ps2[k - 1].1));
                    let j = choose|j: int|
                        i + 1 <= j < c.methods@.len() && spec_method_eligible(
                            #[trigger] c.methods@[j],
                        ) && spec_method_name(c.methods@[j]) == ps2[k - 1].1;
                    assert(i <= j < c.methods@.len());
                }
            }
            assert forall|nm: Seq<char>|
                !set.contains(nm) && #[trigger] has_eligible_from(c, i, nm) implies exists|k: int|
                0 <= k < ps.len() && (#[trigger] ps[k]).1 == nm by {
                if nm == nm0 {
                    assert(ps[0].1 == nm);
                } else {
                    let j = choose|j: int|
                        i <= j < c.methods@.len() && spec_method_eligible(
                            #[trigger] c.methods@[j],
                        ) && spec_method_name(c.methods@[j]) == nm;
                    assert(j != i);
                    assert(has_eligible_from(c, i + 1, nm));
                    assert(!set2.contains(nm));
                    let k = choose|k: int| 0 <= k < ps2.len() && (#[trigger] ps2[k]).1 == nm;
                    assert(ps[k + 1].1 == nm);
                }
            }
        } else {
            let ps2 = class_flat_pairs(c, i + 1, set);
            lemma_class_flat_pairs(c, i + 1, set);
            assert(ps == ps2);
            assert(s1 == emitted_set_rec(c, i + 1, set));
            assert forall|nm: Seq<char>|
                !set.contains(nm) && #[trigger] has_eligible_from(c, i, nm) implies exists|k: int|
                0 <= k < ps.len() && (#[trigger] ps[k]).1 == nm by {
                let j = choose|j: int|
                    i <= j < c.methods@.len() && spec_method_eligible(#[trigger] c.methods@[j])
                        && spec_method_name(c.methods@[j]) == nm;
                if j == i {
                    assert(spec_method_eligible(m));
                    assert(set.contains(nm0));
                    assert(false);
                }
                assert(has_eligible_from(c, i + 1, nm));
            }
        }
    }
}

proof fn lemma_chain_flat_pairs(cs: Seq<GodotClass>, cname: Seq<char>, set: Seq<Seq<char>>, fuel: nat)
    ensures
        ({
            let ps = chain_flat_pairs(cs, cname, set, fuel);
            let s1 = chain_set(cs, cname, set, fuel);
            &&& forall|k: int| 0 <= k < ps.len() ==> !set.contains((#[trigger] ps[k]).1)
            &&& forall|k1: int, k2: int|
                0 <= k1 < k2 < ps.len() ==> (#[trigger] ps[k1]).1 != (#[trigger] ps[k2]).1
            &&& forall|x: Seq<char>|
                #[trigger] s1.contains(x) <==> (set.contains(x) || exists|k: int|
                    0 <= k < ps.len() && (#[trigger] ps[k]).1 == x)
            &&& forall|k: int|
                0 <= k < ps.len() ==> nearest_def(cs, cname, (#[trigger] ps[k]).1, fuel) == Some(
                    ps[k].0,
                )
            &&& forall|nm: Seq<char>|
                !set.contains(nm) && (#[trigger] nearest_def(cs, cname, nm, fuel)) is Some
                    ==> exists|k: int| 0 <= k < ps.len() && (#[trigger] ps[k]).1 == nm
        }),
    decreases fuel,
{
    let ci = class_idx(cs, cname);
    let ps = chain_flat_pairs(cs, cname, set, fuel);
    let s1 = chain_set(cs, cname, set, fuel);
    if ci < 0 {
    } else {
        crate::api::lemma_first_class_from_bounds(cs, cname, 0);
        let c = cs[ci];
        assert(c.name@ == cname);
        let psc = class_flat_pairs(c, 0, set);
        let s_mid = emitted_set_rec(c, 0, set);
        lemma_class_flat_pairs(c, 0, set);
        if c.base_class@ != Seq::<char>::empty() && fuel > 0 {
            let psr = chain_flat_pairs(cs, c.base_class@, s_mid, (fuel - 1) as nat);
            lemma_chain_flat_pairs(cs, c.base_class@, s_mid, (fuel - 1) as nat);
            assert(ps == psc + psr);
            assert(s1 == chain_set(cs, c.base_class@, s_mid, (fuel - 1) as nat));
            assert forall|k: int| 0 <= k < ps.len() implies !set.contains(
                (#[trigger] ps[k]).1,
            ) by {
                if k < psc.len() {
                    assert(ps[k] == psc[k]);
                } else {
                    assert(ps[k] == psr[k - psc.len()]);
                    assert(!s_mid.contains(psr[k - psc.len()].1));
                    assert(s_mid.contains(ps[k].1) <==> (set.contains(ps[k].1) || exists|p: int|
                        0 <= p < psc.len() && (#[trigger] psc[p]).1 == ps[k].1));
                }
            }
            assert forall|k1: int, k2: int|
                0 <= k1 < k2 < ps.len() implies (#[trigger] ps[k1]).1 != (#[trigger] ps[k2]).1 by {
                if k2 < psc.len() {
                    assert(ps[k1] == psc[k1] && ps[k2] == psc[k2]);
                } else if k1 >= psc.len() {
                    assert(ps[k1] == psr[k1 - psc.len()] && ps[k2] == psr[k2 - psc.len()]);
                } else {
                    assert(ps[k1] == psc[k1] && ps[k2] == psr[k2 - psc.len()]);
                    assert(!s_mid.contains(psr[k2 - psc.len()].1));
                    assert(s_mid.contains(psc[k1].1));
                }
            }
            assert forall|x: Seq<char>| #[trigger]
                s1.contains(x) implies (set.contains(x) || exists|k: int|
                0 <= k < ps.len() && (#[trigger] ps[k]).1 == x) by {
                if !set.contains(x) {
                    if s_mid.contains(x) {
                        let p = choose|p: int| 0 <= p < psc.len() && (#[trigger] psc[p]).1 == x;
                        assert(ps[p].1 == x);
                    } else {
                        let p = choose|p: int| 0 <= p < psr.len() && (#[trigger] psr[p]).1 == x;
                        assert(ps[p + psc.len()].1 == x);
                    }
                }
            }
            assert forall|x: Seq<char>|
                set.contains(x) || (exists|k: int|
                    0 <= k < ps.len() && (#[trigger] ps[k]).1 == x) implies #[trigger] s1.contains(
                x,
            ) by {
                if set.contains(x) {
                    assert(s_mid.contains(x));
                } else {
                    let k = choose|k: int| 0 <= k < ps.len() && (#[trigger] ps[k]).1 == x;
                    if k < psc.len() {
                        assert(psc[k].1 == x);
                        assert(s_mid.contains(x));
                    } else {
                        assert(psr[k - psc.len()].1 == x);
                    }
                }
            }
            assert forall|k: int| 0 <= k < ps.len() implies nearest_def(
                cs,
                cname,
                (#[trigger] ps[k]).1,
                fuel,
            ) == Some(ps[k].0) by {
                if k < psc.len() {
                    assert(ps[k] == psc[k]);
                    assert(has_eligible_from(c, 0, psc[k].1));
                    assert(psc[k].0 == c.name@);
                } else {
                    let nm = psr[k - psc.len()].1;
                    assert(ps[k] == psr[k - psc.len()]);
                    assert(!s_mid.contains(nm));
                    if has_eligible_from(c, 0, nm) {
                        assert(!set.contains(nm));
                        assert(exists|p: int| 0 <= p < psc.len() && (#[trigger] psc[p]).1 == nm);
                        assert(s_mid.contains(nm));
                        assert(false);
                    }
                    assert(nearest_def(cs, cname, nm, fuel) == nearest_def(
                        cs,
                        c.base_class@,
                        nm,
                        (fuel - 1) as nat,
                    ));
                }
            }
            assert forall|nm: Seq<char>|
                !set.contains(nm) && (#[trigger] nearest_def(cs, cname, nm, fuel)) is Some implies
                exists|k: int| 0 <= k < ps.len() && (#[trigger] ps[k]).1 == nm by {
                if has_eligible_from(c, 0, nm) {
                    let p = choose|p: int| 0 <= p < psc.len() && (#[trigger] psc[p]).1 == nm;
                    assert(ps[p].1 == nm);
                } else {
                    assert(nearest_def(cs, c.base_class@, nm, (fuel - 1) as nat) is Some);
                    if s_mid.contains(nm) {
                        let p = choose|p: int| 0 <= p < psc.len() && (#[trigger] psc[p]).1 == nm;
                        assert(has_eligible_from(c, 0, psc[p].1));
                        assert(false);
                    }
                    let k = choose|k: int| 0 <= k < psr.len() && (#[trigger] psr[k]).1 == nm;
                    assert(ps[k + psc.len()].1 == nm);
                }
            }
        } else {
            assert(ps == psc);
            assert(s1 == s_mid);
            assert forall|k: int| 0 <= k < ps.len() implies nearest_def(
                cs,
                cname,
                (#[trigger] ps[k]).1,
                fuel,
            ) == Some(ps[k].0) by {
                assert(has_eligible_from(c, 0, ps[k].1));
                assert(ps[k].0 == c.name@);
            }
        }
    }
}

/// Law: for a derived class whose ancestors define identically-named
/// methods, the flattened surface exposes exactly one method of each name,
/// and that method resolves to the nearest definition along the base-class
/// chain: the derived class's own definition when it has an eligible one,
/// else the closest ancestor's. Every name with an eligible definition
/// somewhere in the chain is exposed.
pub proof fn lemma_flatten_nearest_wins(cs: Seq<GodotClass>, cname: Seq<char>, fuel: nat)
    ensures
        ({
            let ps = chain_flat_pairs(cs, cname, Seq::<Seq<char>>::empty(), fuel);
            &&& forall|k1: int, k2: int|
                0 <= k1 < k2 < ps.len() ==> (#[trigger] ps[k1]).1 != (#[trigger] ps[k2]).1
            &&& forall|k: int|
                0 <= k < ps.len() ==> nearest_def(cs, cname, (#[trigger] ps[k]).1, fuel) == Some(
                    ps[k].0,
                )
            &&& forall|nm: Seq<char>|
                (#[trigger] nearest_def(cs, cname, nm, fuel)) is Some ==> exists|k: int|
                    0 <= k < ps.len() && (#[trigger] ps[k]).1 == nm
        }),
{
    lemma_chain_flat_pairs(cs, cname, Seq::<Seq<char>>::empty(), fuel);
}

} // verus!
