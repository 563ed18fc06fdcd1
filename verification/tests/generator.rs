use gdnative::api::{Api, GodotArgument, GodotClass, GodotMethod, Ty, find_class, rust_safe_name};
use gdnative::classes::generate_class;
use gdnative::methods::{
    generate_argument_pre, generate_method_impl, generate_method_table, generate_methods,
    generate_return_post, generate_return_pre, is_method_eligible,
};
use gdnative::special_methods::{
    class_name_to_snake_case, generate_drop, generate_dynamic_cast, generate_godot_object_impl,
    generate_non_refreference_ctor, generate_refreference_ctor, generate_singleton_getter,
    generate_upcast,
};
use gdnative::skip_method;

fn method(name: &str, ret: Ty, args: Vec<GodotArgument>) -> GodotMethod {
    GodotMethod {
        name: name.to_string(),
        return_type: ret,
        is_const: true,
        has_varargs: false,
        arguments: args,
    }
}

fn arg(name: &str, ty: Ty) -> GodotArgument {
    GodotArgument { name: name.to_string(), ty }
}

fn class(name: &str, base: &str, is_reference: bool, methods: Vec<GodotMethod>) -> GodotClass {
    GodotClass {
        name: name.to_string(),
        base_class: base.to_string(),
        singleton: false,
        is_reference,
        methods,
    }
}

#[test]
fn skip_method_names_lifecycle_primitives() {
    assert!(skip_method("free"));
    assert!(skip_method("reference"));
    assert!(skip_method("unreference"));
    assert!(!skip_method("get_name"));
}

#[test]
fn rust_safe_name_escapes_keywords() {
    assert_eq!(rust_safe_name("use"), "_use");
    assert_eq!(rust_safe_name("type"), "_type");
    assert_eq!(rust_safe_name("loop"), "_loop");
    assert_eq!(rust_safe_name("position"), "position");
}

#[test]
fn method_name_new_is_reserved() {
    let m = method("new", Ty::Variant, vec![]);
    assert_eq!(m.get_name(), "_new");
    let m = method("duplicate", Ty::Variant, vec![]);
    assert_eq!(m.get_name(), "duplicate");
}

#[test]
fn ty_mapping_escape_hatch() {
    assert_eq!(Ty::I64.to_rust().as_deref(), Some("i64"));
    assert_eq!(Ty::Void.to_rust().as_deref(), Some("()"));
    assert_eq!(
        Ty::Object("Node".to_string()).to_rust().as_deref(),
        Some("Option<Node>")
    );
    assert_eq!(Ty::Enum("Error".to_string()).to_rust(), None);
    assert_eq!(Ty::Void.to_sys(), None);
    assert_eq!(Ty::GodotString.to_sys().as_deref(), Some("sys::godot_string"));
}

#[test]
fn eligibility_excludes_lifecycle_and_unmappable() {
    assert!(is_method_eligible(&method("get_child_count", Ty::I64, vec![])));
    assert!(!is_method_eligible(&method("free", Ty::Void, vec![])));
    assert!(!is_method_eligible(&method(
        "get_error",
        Ty::Enum("Error".to_string()),
        vec![]
    )));
    assert!(!is_method_eligible(&method(
        "set_mode",
        Ty::Void,
        vec![arg("mode", Ty::Enum("Mode".to_string()))]
    )));
    // a typed error code or a type tag can be returned but has no
    // argument-marshaling rule, so as an argument it makes the method
    // incompletely mapped
    assert!(is_method_eligible(&method("connect", Ty::GodotResult, vec![])));
    assert!(is_method_eligible(&method("get_static_type", Ty::VariantType, vec![])));
    assert!(!is_method_eligible(&method(
        "log_error",
        Ty::Void,
        vec![arg("code", Ty::GodotResult)]
    )));
    assert!(!is_method_eligible(&method(
        "expects",
        Ty::Bool,
        vec![arg("tag", Ty::VariantType)]
    )));
    assert!(!is_method_eligible(&method(
        "oddity",
        Ty::Bool,
        vec![arg("nothing", Ty::Void)]
    )));
}

#[test]
fn find_class_returns_first_match() {
    let classes = vec![
        class("Node", "", false, vec![]),
        class("Node2D", "Node", false, vec![]),
    ];
    assert_eq!(find_class(&classes, "Node2D").unwrap().base_class, "Node");
    assert!(find_class(&classes, "Missing").is_none());
}

#[test]
fn method_table_includes_only_eligible_slots() {
    let c = class(
        "Node2D",
        "",
        false,
        vec![
            method("get_child_count", Ty::I64, vec![]),
            method("free", Ty::Void, vec![]),
            method("get_error", Ty::Enum("Error".to_string()), vec![]),
        ],
    );
    let mut out = String::new();
    generate_method_table(&mut out, &c);
    assert!(out.contains("pub struct Node2DMethodTable {"));
    assert!(out.contains("pub class_constructor: sys::godot_class_constructor,"));
    assert!(out.contains("pub get_child_count: *mut sys::godot_method_bind,"));
    assert!(!out.contains("pub free:"));
    assert!(!out.contains("pub get_error:"));
    assert!(out.contains("table.get_child_count = (gd_api.godot_method_bind_get_method)(class_name, \"get_child_count\\0\".as_ptr() as *const c_char );"));
    assert!(out.contains("let class_name = b\"Node2D\\0\".as_ptr() as *const c_char;"));
}

#[test]
fn argument_pre_fragments() {
    let mut out = String::new();
    generate_argument_pre(&mut out, &Ty::I64, "x");
    assert_eq!(out, "        (&x) as *const _ as *const _,\n");
    let mut out = String::new();
    generate_argument_pre(&mut out, &Ty::GodotString, "name");
    assert_eq!(out, "        name.sys() as *const _ as *const _,\n");
    let mut out = String::new();
    generate_argument_pre(&mut out, &Ty::Object("Node".to_string()), "node");
    assert_eq!(
        out,
        "        if let Some(arg) = node { arg.this as *const _ as *const _ } else { ptr::null() },\n"
    );
}

#[test]
fn return_pre_fragments() {
    let mut out = String::new();
    generate_return_pre(&mut out, &Ty::Void);
    assert_eq!(out, "\n    let ret_ptr = ptr::null_mut();\n");
    let mut out = String::new();
    generate_return_pre(&mut out, &Ty::I64);
    assert_eq!(out, "\n    let mut ret = 0i64;\n    let ret_ptr = &mut ret as *mut _;\n");
    let mut out = String::new();
    generate_return_pre(&mut out, &Ty::Vector3);
    assert_eq!(
        out,
        "\n    let mut ret = sys::godot_vector3::default();\n    let ret_ptr = &mut ret as *mut _;\n"
    );
}

#[test]
fn return_post_fragments() {
    let mut out = String::new();
    generate_return_post(&mut out, &Ty::Void);
    assert_eq!(out, "");
    let mut out = String::new();
    generate_return_post(&mut out, &Ty::I64);
    assert_eq!(out, "\n    ret\n");
    let mut out = String::new();
    generate_return_post(&mut out, &Ty::Vector3);
    assert_eq!(out, "    mem::transmute(ret)\n");
    let mut out = String::new();
    generate_return_post(&mut out, &Ty::Object("Node".to_string()));
    assert!(out.contains("Some(Node::from_sys(ret))"));
}

#[test]
fn method_impl_skips_lifecycle_silently() {
    let c = class("Node2D", "", false, vec![]);
    let mut out = String::new();
    generate_method_impl(&mut out, &c, &method("free", Ty::Void, vec![]));
    assert_eq!(out, "");
}

#[test]
fn method_impl_emits_marker_for_unmappable() {
    let c = class("Node2D", "", false, vec![]);
    let mut out = String::new();
    generate_method_impl(&mut out, &c, &method("get_error", Ty::Enum("Error".to_string()), vec![]));
    assert_eq!(out, "// TODO: missing method get_error\n");
    let mut out = String::new();
    generate_method_impl(
        &mut out,
        &c,
        &method("set_mode", Ty::Void, vec![arg("mode", Ty::Enum("Mode".to_string()))]),
    );
    assert_eq!(out, "// TODO: missing method set_mode\n");
    // an argument type without a marshaling rule also skips the method,
    // so no wrapper with an underfilled argument buffer is ever emitted
    let mut out = String::new();
    generate_method_impl(
        &mut out,
        &c,
        &method("log_error", Ty::Void, vec![arg("code", Ty::GodotResult)]),
    );
    assert_eq!(out, "// TODO: missing method log_error\n");
}

#[test]
fn method_impl_fixed_arity_path() {
    let c = class("Node2D", "", false, vec![]);
    let mut out = String::new();
    generate_method_impl(
        &mut out,
        &c,
        &method("set_position", Ty::Void, vec![arg("position", Ty::Vector3)]),
    );
    assert!(out.contains(
        "pub unsafe fn Node2D_set_position(obj_ptr: *mut sys::godot_object, position: Vector3) -> ()"
    ));
    assert!(out.contains("let mut argument_buffer : [*const libc::c_void; 1] = ["));
    assert!(out.contains("(&position) as *const _ as *const _,"));
    assert!(out.contains("let ret_ptr = ptr::null_mut();"));
    assert!(out.contains("(gd_api.godot_method_bind_ptrcall)(method_bind, obj_ptr, argument_buffer.as_mut_ptr() as *mut _, ret_ptr as *mut _);"));
}

#[test]
fn method_impl_varargs_path() {
    let c = class("Object", "", false, vec![]);
    let mut m = method(
        "call",
        Ty::Variant,
        vec![arg("method", Ty::GodotString)],
    );
    m.has_varargs = true;
    let mut out = String::new();
    generate_method_impl(&mut out, &c, &m);
    assert!(out.contains("varargs: &[Variant]"));
    assert!(out.contains(
        "let mut argument_buffer: Vec<*const sys::godot_variant> = Vec::with_capacity(1 + varargs.len());"
    ));
    assert!(out.contains("let method: Variant = Variant::from_godot_string(&method);"));
    assert!(out.contains("(gd_api.godot_method_bind_call)"));
    assert!(out.contains("ret.into()"));
}

#[test]
fn flattened_methods_deduplicate_nearest_definition() {
    let api = Api {
        classes: vec![
            class(
                "Derived",
                "Base",
                false,
                vec![method("foo", Ty::I64, vec![])],
            ),
            class(
                "Base",
                "",
                false,
                vec![method("foo", Ty::I64, vec![]), method("bar", Ty::Bool, vec![])],
            ),
        ],
    };
    let mut out = String::new();
    let mut set: Vec<String> = Vec::new();
    generate_methods(&mut out, &api, &mut set, "Derived", true, true);
    assert_eq!(out.matches("pub fn foo(").count(), 1);
    assert!(out.contains("Derived_foo(self.this)"));
    assert!(!out.contains("Base_foo"));
    assert!(out.contains("Base_bar(self.this)"));
    assert!(out.contains("/// Inherited from [Base](struct.Base.html)."));
    assert_eq!(set, vec!["foo".to_string(), "bar".to_string()]);
}

#[test]
fn unsafe_methods_on_non_pointer_safe_class() {
    let api = Api {
        classes: vec![class("Node2D", "", false, vec![method("get_index", Ty::I64, vec![])])],
    };
    let mut out = String::new();
    let mut set: Vec<String> = Vec::new();
    generate_methods(&mut out, &api, &mut set, "Node2D", false, true);
    assert!(out.contains("pub unsafe fn get_index(&self) -> i64"));
}

#[test]
fn snake_case_table_and_generic_conversion() {
    assert_eq!(class_name_to_snake_case("Node2D"), "node_2d");
    assert_eq!(class_name_to_snake_case("SpriteBase3D"), "sprite_base_3d");
    assert_eq!(class_name_to_snake_case("Physics2DServer"), "physics_2d_server");
    assert_eq!(class_name_to_snake_case("AudioServer"), "audio_server");
    assert_eq!(class_name_to_snake_case("XMLParser"), "xml_parser");
}

#[test]
fn refcounted_ctor_initializes_count() {
    let c = class("Reference", "", true, vec![]);
    let mut out = String::new();
    generate_refreference_ctor(&mut out, &c);
    assert!(out.contains("let ctor = ReferenceMethodTable::get(gd_api).class_constructor.unwrap();"));
    assert!(out.contains("object::init_ref_count(obj);"));
    assert!(out.contains("pub fn new_ref(&self) -> Self"));
    assert!(out.contains("object::add_ref(self.this);"));
}

#[test]
fn manual_ctor_has_explicit_free() {
    let c = class("Node2D", "", false, vec![]);
    let mut out = String::new();
    generate_non_refreference_ctor(&mut out, &c);
    assert!(out.contains("destroyed manually using `Node2D::free`."));
    assert!(out.contains("pub unsafe fn free(self)"));
    assert!(out.contains("(get_api().godot_object_destroy)(self.this);"));
    assert!(!out.contains("init_ref_count"));
}

#[test]
fn godot_object_impl_addref_only_when_refcounted() {
    let refc = class("Reference", "", true, vec![]);
    let mut out = String::new();
    generate_godot_object_impl(&mut out, &refc);
    assert!(out.contains("object::add_ref(obj);"));
    let manual = class("Node2D", "", false, vec![]);
    let mut out = String::new();
    generate_godot_object_impl(&mut out, &manual);
    assert!(out.contains("// Not reference-counted."));
}

#[test]
fn singleton_getter_strips_leading_underscore() {
    let c = class("_OS", "", false, vec![]);
    let mut out = String::new();
    generate_singleton_getter(&mut out, &c);
    assert!(out.contains("(get_api().godot_global_get_singleton)(b\"OS\\0\".as_ptr() as *mut _);"));
    assert!(out.contains("_OS {"));
    let plain = class("Engine", "", false, vec![]);
    let mut out = String::new();
    generate_singleton_getter(&mut out, &plain);
    assert!(out.contains("b\"Engine\\0\""));
}

#[test]
fn dynamic_cast_safety_follows_pointer_safety() {
    let safe = class("Reference", "", true, vec![]);
    let mut out = String::new();
    generate_dynamic_cast(&mut out, &safe);
    assert!(out.contains("pub fn cast<T: GodotObject>"));
    let unsafe_class = class("Node2D", "", false, vec![]);
    let mut out = String::new();
    generate_dynamic_cast(&mut out, &unsafe_class);
    assert!(out.contains("pub unsafe fn cast<T: GodotObject>"));
}

#[test]
fn upcast_walks_whole_chain() {
    let classes = vec![
        class("Sprite", "Node2D", false, vec![]),
        class("Node2D", "Node", false, vec![]),
        class("Node", "", false, vec![]),
    ];
    let mut out = String::new();
    generate_upcast(&mut out, &classes, "Node2D", true);
    assert!(out.contains("pub fn to_node_2d(&self) -> Node2D"));
    assert!(out.contains("pub fn to_node(&self) -> Node"));
    assert!(out.contains("// Not reference-counted."));
}

#[test]
fn upcast_addrefs_refcounted_ancestor() {
    let classes = vec![class("Reference", "", true, vec![])];
    let mut out = String::new();
    generate_upcast(&mut out, &classes, "Reference", true);
    assert!(out.contains("unsafe { object::add_ref(self.this); }"));
    let mut out = String::new();
    generate_upcast(&mut out, &classes, "Reference", false);
    assert!(out.contains("pub unsafe fn to_reference"));
    assert!(out.contains("object::add_ref(self.this);"));
}

#[test]
fn class_unit_concatenates_all_passes() {
    let api = Api {
        classes: vec![
            class(
                "Reference",
                "",
                true,
                vec![
                    method("get_count", Ty::I64, vec![]),
                    method("reference", Ty::Void, vec![]),
                ],
            ),
        ],
    };
    let mut out = String::new();
    generate_class(&mut out, &api, &api.classes[0]);
    // method table, wrapper, flattened surface, special methods, in order
    let table_at = out.find("pub struct ReferenceMethodTable {").unwrap();
    let wrapper_at = out.find("pub unsafe fn Reference_get_count(").unwrap();
    let surface_at = out.find("pub fn get_count(&self) -> i64").unwrap();
    let ctor_at = out.find("pub fn new() -> Self").unwrap();
    let drop_at = out.find("impl Drop for Reference {").unwrap();
    let cast_at = out.find("pub fn cast<T: GodotObject>").unwrap();
    assert!(table_at < wrapper_at);
    assert!(wrapper_at < surface_at);
    assert!(surface_at < ctor_at);
    assert!(ctor_at < drop_at);
    assert!(drop_at < cast_at);
    // the lifecycle primitive stays out of the table and the surface
    assert!(!out.contains("pub reference:"));
    // a reference-counted class never gets the manual free
    assert!(!out.contains("pub unsafe fn free(self)"));
}

#[test]
fn drop_impl_unrefs_and_destroys_at_zero() {
    let c = class("Reference", "", true, vec![]);
    let mut out = String::new();
    generate_drop(&mut out, &c);
    assert!(out.contains("impl Drop for Reference {"));
    assert!(out.contains("if object::unref(self.this) {"));
    assert!(out.contains("(::get_api().godot_object_destroy)(self.this);"));
}
