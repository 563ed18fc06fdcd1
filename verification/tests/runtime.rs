use gdnative::api::{Api, GodotArgument, GodotClass, GodotMethod, Ty};
use gdnative::lifecycle::{try_downcast, upcast_handle, ObjectArena};
use gdnative::marshal::{
    build_ptrcall_args, decode_ret, encode_arg, ptrcall_fixed, varargs_call, HostStub, RawValue,
};
use gdnative::method_table::{CtorBinding, HostBindings, MethodBinding, TableRegistry};
use gdnative::variant::{Variant, VariantType, Vector3Bits};

fn method(name: &str, ret: Ty) -> GodotMethod {
    GodotMethod {
        name: name.to_string(),
        return_type: ret,
        is_const: true,
        has_varargs: false,
        arguments: vec![],
    }
}

fn class(name: &str, base: &str, is_reference: bool, methods: Vec<GodotMethod>) -> GodotClass {
    GodotClass {
        name: name.to_string(),
        base_class: base.to_string(),
        singleton: false,
        is_reference,
        methods,
    }
}

fn node2d_catalogue() -> Api {
    Api {
        classes: vec![class(
            "Node2D",
            "",
            false,
            vec![method("get_child_count", Ty::I64), method("free", Ty::Void)],
        )],
    }
}

fn node2d_host() -> HostBindings {
    HostBindings {
        ctors: vec![CtorBinding { class_name: "Node2D".to_string(), handle: 7 }],
        methods: vec![MethodBinding {
            class_name: "Node2D".to_string(),
            method_name: "get_child_count".to_string(),
            handle: 42,
        }],
    }
}

#[test]
fn registry_resolves_tables_once_per_class() {
    let api = node2d_catalogue();
    let host = node2d_host();
    let registry = TableRegistry::build(&api.classes, &host);
    let table = registry.get_table("Node2D").unwrap();
    assert_eq!(table.class_name, "Node2D");
    assert_eq!(table.class_constructor, Some(7));
    assert_eq!(table.slots.len(), 1);
    assert_eq!(table.slots[0].method_name, "get_child_count");
    assert_eq!(table.slots[0].binding, Some(42));
}

#[test]
fn repeated_accessor_calls_return_identical_table() {
    let api = node2d_catalogue();
    let host = node2d_host();
    let registry = TableRegistry::build(&api.classes, &host);
    let first = registry.get_table("Node2D").unwrap();
    let first_ctor = first.class_constructor;
    let first_len = first.slots.len();
    let second = registry.get_table("Node2D").unwrap();
    assert_eq!(second.class_constructor, first_ctor);
    assert_eq!(second.slots.len(), first_len);
    assert_eq!(second.slots[0].binding, first.slots[0].binding);
    assert!(registry.get_table("Missing").is_none());
}

#[test]
fn skipped_methods_have_no_table_slot() {
    let api = Api {
        classes: vec![class(
            "Thing",
            "",
            false,
            vec![
                method("free", Ty::Void),
                method("reference", Ty::Void),
                method("get_error", Ty::Enum("Error".to_string())),
                GodotMethod {
                    name: "log_error".to_string(),
                    return_type: Ty::Void,
                    is_const: false,
                    has_varargs: false,
                    arguments: vec![GodotArgument {
                        name: "code".to_string(),
                        ty: Ty::GodotResult,
                    }],
                },
                method("get_count", Ty::I64),
            ],
        )],
    };
    let host = HostBindings { ctors: vec![], methods: vec![] };
    let registry = TableRegistry::build(&api.classes, &host);
    let table = registry.get_table("Thing").unwrap();
    assert_eq!(table.slots.len(), 1);
    assert_eq!(table.slots[0].method_name, "get_count");
    // unresolved by the host: the slot stays explicitly absent
    assert_eq!(table.slots[0].binding, None);
    assert_eq!(table.class_constructor, None);
}

#[test]
fn get_child_count_wrapper_returns_stub_answer() {
    let api = node2d_catalogue();
    let host_bindings = node2d_host();
    let registry = TableRegistry::build(&api.classes, &host_bindings);
    let table = registry.get_table("Node2D").unwrap();
    let method_bind = table.slots[0].binding.unwrap();
    let mut host = HostStub::new(RawValue::I64(3), Variant::Nil);
    let args: Vec<Variant> = vec![];
    let ret = ptrcall_fixed(&mut host, method_bind, 1, &args, VariantType::I64);
    assert_eq!(ret.try_to_i64(), Some(3));
    assert_eq!(host.ptr_calls.len(), 1);
    assert_eq!(host.ptr_calls[0].method_bind, 42);
    assert_eq!(host.ptr_calls[0].args.len(), 0);
}

#[test]
fn set_deferred_builds_two_raw_args_and_null_return_slot() {
    let mut host = HostStub::new(RawValue::Null, Variant::Nil);
    let args = vec![
        Variant::GodotString("position".to_string()),
        Variant::I64(5),
    ];
    let ret = ptrcall_fixed(&mut host, 9, 1, &args, VariantType::Nil);
    assert!(ret.eq_variant(&Variant::Nil));
    assert_eq!(host.ptr_calls.len(), 1);
    let call = &host.ptr_calls[0];
    assert_eq!(call.args.len(), 2);
    assert!(!call.had_return_slot);
    assert!(matches!(&call.args[0], RawValue::Str(s) if s == "position"));
    assert!(matches!(&call.args[1], RawValue::I64(5)));
}

#[test]
fn marshal_round_trip_reproduces_values() {
    let values = vec![
        Variant::Nil,
        Variant::Bool(true),
        Variant::I64(-12345),
        Variant::F64Bits(1.5f64.to_bits()),
        Variant::GodotString("hello".to_string()),
        Variant::Vector3(Vector3Bits {
            x_bits: 1.0f32.to_bits(),
            y_bits: 2.0f32.to_bits(),
            z_bits: 3.0f32.to_bits(),
        }),
        Variant::Object(99),
    ];
    for v in values {
        let tag = v.get_type();
        let raw = encode_arg(&v);
        let back = decode_ret(tag, &raw);
        assert!(back.eq_variant(&v));
    }
}

#[test]
fn echoed_ptrcall_preserves_arguments_bit_for_bit() {
    let args = vec![
        Variant::F64Bits(0.1f64.to_bits()),
        Variant::Object(7),
    ];
    let raw = build_ptrcall_args(&args);
    assert_eq!(raw.len(), 2);
    assert!(matches!(raw[0], RawValue::F64Bits(b) if b == 0.1f64.to_bits()));
    assert!(matches!(raw[1], RawValue::ObjectPtr(7)));
    // echo the first raw argument back through the return slot
    let mut host = HostStub::new(raw[0].clone_raw(), Variant::Nil);
    let ret = ptrcall_fixed(&mut host, 1, 1, &args, VariantType::F64);
    assert!(ret.eq_variant(&args[0]));
}

#[test]
fn varargs_call_boxes_fixed_then_trailing() {
    let mut host = HostStub::new(RawValue::Null, Variant::I64(11));
    let fixed = vec![Variant::GodotString("sig".to_string()), Variant::Nil];
    let trailing = vec![Variant::I64(1), Variant::Bool(false)];
    let ret = varargs_call(&mut host, 5, 2, &fixed, &trailing);
    assert_eq!(ret.try_to_i64(), Some(11));
    assert_eq!(host.var_calls.len(), 1);
    let call = &host.var_calls[0];
    assert_eq!(call.args.len(), 4);
    assert!(call.args[0].eq_variant(&fixed[0]));
    assert!(call.args[1].eq_variant(&Variant::Nil));
    assert!(call.args[2].eq_variant(&Variant::I64(1)));
    assert!(call.args[3].eq_variant(&Variant::Bool(false)));
}

#[test]
fn duplicate_then_destroy_restores_count() {
    let mut arena = ObjectArena::new();
    let id = arena.construct_refcounted();
    assert_eq!(arena.refcount(id), 1);
    let alias = arena.duplicate(id);
    assert_eq!(alias, id);
    assert_eq!(arena.refcount(id), 2);
    arena.destroy(alias);
    assert_eq!(arena.refcount(id), 1);
    assert_eq!(arena.dealloc_count(), 0);
    assert!(arena.is_alive(id));
}

#[test]
fn construct_duplicate_drop_both_deallocates_once() {
    let mut arena = ObjectArena::new();
    let id = arena.construct_refcounted();
    let alias = arena.duplicate(id);
    arena.destroy(id);
    assert_eq!(arena.dealloc_count(), 0);
    assert!(arena.is_alive(alias));
    arena.destroy(alias);
    assert_eq!(arena.dealloc_count(), 1);
    assert!(!arena.is_alive(id));
    assert_eq!(arena.refcount(id), 0);
}

#[test]
fn manual_object_freed_exactly_once() {
    let mut arena = ObjectArena::new();
    let id = arena.construct_manual();
    assert!(arena.is_alive(id));
    assert_eq!(arena.dealloc_count(), 0);
    arena.free(id);
    assert!(!arena.is_alive(id));
    assert_eq!(arena.dealloc_count(), 1);
}

#[test]
fn downcast_succeeds_only_within_chain() {
    let classes = vec![
        class("Sprite", "Node2D", false, vec![]),
        class("Node2D", "Node", false, vec![]),
        class("Node", "", false, vec![]),
        class("Timer", "Node", false, vec![]),
    ];
    assert_eq!(try_downcast(&classes, "Sprite", "Node", 9), Some(9));
    assert_eq!(try_downcast(&classes, "Sprite", "Sprite", 9), Some(9));
    assert_eq!(try_downcast(&classes, "Node", "Sprite", 9), None);
    assert_eq!(try_downcast(&classes, "Sprite", "Timer", 9), None);
    assert_eq!(try_downcast(&classes, "Unknown", "Node", 9), None);
}

#[test]
fn upcast_addrefs_refcounted_ancestor_only() {
    let classes = vec![
        class("Resource", "Reference", true, vec![]),
        class("Reference", "", true, vec![]),
        class("Sprite", "Node", false, vec![]),
        class("Node", "", false, vec![]),
    ];
    let mut arena = ObjectArena::new();
    let res = arena.construct_refcounted();
    assert_eq!(arena.refcount(res), 1);
    // an upcast to a reference-counted ancestor aliases and increments
    let alias = upcast_handle(&mut arena, &classes, "Resource", "Reference", res);
    assert_eq!(alias, Some(res));
    assert_eq!(arena.refcount(res), 2);
    // an upcast to a manually managed ancestor only aliases
    let node = arena.construct_manual();
    let alias = upcast_handle(&mut arena, &classes, "Sprite", "Node", node);
    assert_eq!(alias, Some(node));
    assert_eq!(arena.dealloc_count(), 0);
    // an upcast outside the chain is refused
    assert_eq!(upcast_handle(&mut arena, &classes, "Sprite", "Reference", node), None);
}

#[test]
fn vector3_variant_round_trip() {
    let vector = Vector3Bits {
        x_bits: 1.0f32.to_bits(),
        y_bits: 2.0f32.to_bits(),
        z_bits: 3.0f32.to_bits(),
    };
    let variant = Variant::from_vector3(&vector);
    assert_eq!(variant.get_type(), VariantType::Vector3);
    let back = variant.try_to_vector3().unwrap();
    assert_eq!(vector, back);
    assert_eq!(Variant::I64(1).try_to_vector3(), None);
}

#[test]
fn variant_accessors_match_tags() {
    assert_eq!(Variant::new().get_type(), VariantType::Nil);
    assert_eq!(Variant::from_bool(true).try_to_bool(), Some(true));
    assert_eq!(Variant::from_i64(-3).try_to_i64(), Some(-3));
    assert_eq!(
        Variant::from_godot_string(&"abc".to_string()).try_to_string(),
        Some("abc".to_string())
    );
    assert_eq!(Variant::from_object(4).try_to_object(), Some(4));
    assert_eq!(Variant::from_bool(true).try_to_i64(), None);
}
