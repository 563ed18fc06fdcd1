//! The special-method generator: object lifecycle code (constructors,
//! reference duplication, manual free, destructor), the singleton accessor,
//! the generic dynamic cast, and the upcast accessors along the base-class
//! chain.

use vstd::prelude::*;
use crate::api::{GodotClass, class_idx, find_class, spec_is_pointer_safe, spec_is_refcounted};
use crate::strutil::{spec_has_prefix, str_eq, str_has_prefix};

verus! {

/// What heck's snake-case conversion returns for a given character
/// sequence.
pub uninterp spec fn snake_of(s: Seq<char>) -> Seq<char>;

/// Relies on heck's `ToSnakeCase` for `str`: a pure case conversion whose
/// result depends on the input characters alone.
#[verifier::external_body]
fn to_snake_case(name: &str) -> (r: String)
    ensures
        r@ == snake_of(name@),
{
    heck::ToSnakeCase::to_snake_case(name)
}

/// The snake-case form of a class name used in upcast accessor names. A
/// fixed table overrides the generic conversion for names where it would
/// split a trailing dimension suffix wrongly.
pub open spec fn spec_class_name_to_snake_case(name: Seq<char>) -> Seq<char> {
    if name == "SpriteBase3D"@ {
        "sprite_base_3d"@
    } else if name == "Node2D"@ {
        "node_2d"@
    } else if name == "CollisionObject2D"@ {
        "collision_object_2d"@
    } else if name == "PhysicsBody2D"@ {
        "physics_body_2d"@
    } else if name == "VisibilityNotifier2D"@ {
        "visibility_notifier_2d"@
    } else if name == "Joint2D"@ {
        "joint_2d"@
    } else if name == "Shape2D"@ {
        "shape_2d"@
    } else if name == "Physics2DServer"@ {
        "physics_2d_server"@
    } else if name == "Physics2DDirectBodyState"@ {
        "physics_2d_direct_body_state"@
    } else {
        snake_of(name)
    }
}

/// Converts a class name to the snake-case form used in accessor names.
pub fn class_name_to_snake_case(name: &str) -> (r: String)
    ensures
        r@ == spec_class_name_to_snake_case(name@),
{
    if str_eq(name, "SpriteBase3D") {
        "sprite_base_3d".to_owned()
    } else if str_eq(name, "Node2D") {
        "node_2d".to_owned()
    } else if str_eq(name, "CollisionObject2D") {
        "collision_object_2d".to_owned()
    } else if str_eq(name, "PhysicsBody2D") {
        "physics_body_2d".to_owned()
    } else if str_eq(name, "VisibilityNotifier2D") {
        "visibility_notifier_2d".to_owned()
    } else if str_eq(name, "Joint2D") {
        "joint_2d".to_owned()
    } else if str_eq(name, "Shape2D") {
        "shape_2d".to_owned()
    } else if str_eq(name, "Physics2DServer") {
        "physics_2d_server".to_owned()
    } else if str_eq(name, "Physics2DDirectBodyState") {
        "physics_2d_direct_body_state".to_owned()
    } else {
        to_snake_case(name)
    }
}

/// The constructor and duplication code of a reference-counted class:
/// construction initializes the count on the new handle, and duplication
/// returns an alias to the same underlying object after incrementing the
/// shared count.
pub open spec fn refreference_ctor_text(c: GodotClass) -> Seq<char> {
    "\n    // Constructor\n    pub fn new() -> Self {\n        unsafe {\n            let gd_api = ::get_api();\n            let ctor = "@
        + c.name@
        + "MethodTable::get(gd_api).class_constructor.unwrap();\n            let obj = ctor();\n            object::init_ref_count(obj);\n\n            "@
        + c.name@
        + " {\n                this: obj\n            }\n        }\n    }\n\n    /// Creates a new reference to the same reference-counted object.\n    pub fn new_ref(&self) -> Self {\n        unsafe {\n            object::add_ref(self.this);\n\n            Self {\n                this: self.this,\n            }\n        }\n    }\n\n"@
}

/// Emits the constructor pair of a reference-counted class.
pub fn generate_refreference_ctor(output: &mut String, class: &GodotClass)
    ensures
        final(output)@ == old(output)@ + refreference_ctor_text(*class),
{
    output.append(
        "\n    // Constructor\n    pub fn new() -> Self {\n        unsafe {\n            let gd_api = ::get_api();\n            let ctor = ",
    );
    output.append(class.name.as_str());
    output.append(
        "MethodTable::get(gd_api).class_constructor.unwrap();\n            let obj = ctor();\n            object::init_ref_count(obj);\n\n            ",
    );
    output.append(class.name.as_str());
    output.append(
        " {\n                this: obj\n            }\n        }\n    }\n\n    /// Creates a new reference to the same reference-counted object.\n    pub fn new_ref(&self) -> Self {\n        unsafe {\n            object::add_ref(self.this);\n\n            Self {\n                this: self.this,\n            }\n        }\n    }\n\n",
    );
    assert(output@ =~= old(output)@ + refreference_ctor_text(*class));
}

/// The constructor and explicit free of a manually managed class: the
/// caller takes sole ownership, and the free call is the only destruction
/// path.
pub open spec fn non_refreference_ctor_text(c: GodotClass) -> Seq<char> {
    "\n    /// Constructor.\n    ///\n    /// Because this type is not reference counted, the lifetime of the returned object\n    /// is *not* automatically managed.\n    /// Immediately after creation, the object is owned by the caller, and can be\n    /// passed to the engine (in which case the engine will be responsible for\n    /// destroying the object) or destroyed manually using `"@
        + c.name@
        + "::free`.\n    pub fn new() -> Self {\n        unsafe {\n            let gd_api = ::get_api();\n            let ctor = "@
        + c.name@
        + "MethodTable::get(gd_api).class_constructor.unwrap();\n            let this = ctor();\n\n            "@
        + c.name@
        + " {\n                this\n            }\n        }\n    }\n\n    /// Manually deallocate the object.\n    #[inline]\n    pub unsafe fn free(self) {\n        (get_api().godot_object_destroy)(self.this);\n    }\n\n"@
}

/// Emits the constructor and free of a manually managed class.
pub fn generate_non_refreference_ctor(output: &mut String, class: &GodotClass)
    ensures
        final(output)@ == old(output)@ + non_refreference_ctor_text(*class),
{
    output.append(
        "\n    /// Constructor.\n    ///\n    /// Because this type is not reference counted, the lifetime of the returned object\n    /// is *not* automatically managed.\n    /// Immediately after creation, the object is owned by the caller, and can be\n    /// passed to the engine (in which case the engine will be responsible for\n    /// destroying the object) or destroyed manually using `",
    );
    output.append(class.name.as_str());
    output.append(
        "::free`.\n    pub fn new() -> Self {\n        unsafe {\n            let gd_api = ::get_api();\n            let ctor = ",
    );
    output.append(class.name.as_str());
    output.append(
        "MethodTable::get(gd_api).class_constructor.unwrap();\n            let this = ctor();\n\n            ",
    );
    output.append(class.name.as_str());
    output.append(
        " {\n                this\n            }\n        }\n    }\n\n    /// Manually deallocate the object.\n    #[inline]\n    pub unsafe fn free(self) {\n        (get_api().godot_object_destroy)(self.this);\n    }\n\n",
    );
    assert(output@ =~= old(output)@ + non_refreference_ctor_text(*class));
}

/// The host-object trait implementation of a class: its class name, and
/// conversions from and to the raw handle, incrementing the shared count on
/// wrap when the class is reference-counted.
pub open spec fn godot_object_impl_text(c: GodotClass) -> Seq<char> {
    "\n\nunsafe impl GodotObject for "@ + c.name@
        + " {\n    fn class_name() -> &'static str {\n        \""@ + c.name@
        + "\"\n    }\n\n    unsafe fn from_sys(obj: *mut sys::godot_object) -> Self {\n        "@
        + (if spec_is_refcounted(c) {
        "object::add_ref(obj);"@
    } else {
        "// Not reference-counted."@
    })
        + "\n        Self { this: obj, }\n    }\n\n    unsafe fn to_sys(&self) -> *mut sys::godot_object {\n        self.this\n    }\n}\n\n\n"@
}

/// Emits the host-object trait implementation of a class.
pub fn generate_godot_object_impl(output: &mut String, class: &GodotClass)
    ensures
        final(output)@ == old(output)@ + godot_object_impl_text(*class),
{
    output.append("\n\nunsafe impl GodotObject for ");
    output.append(class.name.as_str());
    output.append(" {\n    fn class_name() -> &'static str {\n        \"");
    output.append(class.name.as_str());
    output.append("\"\n    }\n\n    unsafe fn from_sys(obj: *mut sys::godot_object) -> Self {\n        ");
    if class.is_refcounted() {
        output.append("object::add_ref(obj);");
    } else {
        output.append("// Not reference-counted.");
    }
    output.append(
        "\n        Self { this: obj, }\n    }\n\n    unsafe fn to_sys(&self) -> *mut sys::godot_object {\n        self.this\n    }\n}\n\n\n",
    );
    assert(output@ =~= old(output)@ + godot_object_impl_text(*class));
}

/// The name a singleton is looked up under: the class name with a
/// conventional leading underscore stripped.
pub open spec fn singleton_lookup_name(name: Seq<char>) -> Seq<char> {
    if spec_has_prefix(name, "_"@) {
        name.subrange("_"@.len() as int, name.len() as int)
    } else {
        name
    }
}

/// The singleton accessor of a class: a string-keyed global lookup under
/// the stripped name.
pub open spec fn singleton_getter_text(c: GodotClass) -> Seq<char> {
    "\n    #[inline]\n    pub fn godot_singleton() -> Self {\n        unsafe {\n            let this = (get_api().godot_global_get_singleton)(b\""@
        + singleton_lookup_name(c.name@) + "\\0\".as_ptr() as *mut _);\n\n            "@ + c.name@
        + " {\n                this\n            }\n        }\n    }\n"@
}

/// Emits the singleton accessor of a class.
pub fn generate_singleton_getter(output: &mut String, class: &GodotClass)
    ensures
        final(output)@ == old(output)@ + singleton_getter_text(*class),
{
    let n = class.name.as_str().unicode_len();
    let s_name: &str = if str_has_prefix(class.name.as_str(), "_") {
        proof {
            reveal_strlit("_");
        }
        class.name.as_str().substring_char(1, n)
    } else {
        class.name.as_str()
    };
    assert(s_name@ == singleton_lookup_name(class.name@));
    output.append(
        "\n    #[inline]\n    pub fn godot_singleton() -> Self {\n        unsafe {\n            let this = (get_api().godot_global_get_singleton)(b\"",
    );
    output.append(s_name);
    output.append("\\0\".as_ptr() as *mut _);\n\n            ");
    output.append(class.name.as_str());
    output.append(" {\n                this\n            }\n        }\n    }\n");
    assert(output@ =~= old(output)@ + singleton_getter_text(*class));
}

/// The generic capability-based downcast of a class: safe exactly when the
/// class is pointer-safe.
pub open spec fn dynamic_cast_text(c: GodotClass) -> Seq<char> {
    "\n    /// Generic dynamic cast.\n    pub "@ + (if spec_is_pointer_safe(c) {
        Seq::<char>::empty()
    } else {
        "unsafe "@
    })
        + "fn cast<T: GodotObject>(&self) -> Option<T> {\n        object::godot_cast::<T>(self.this)\n    }\n\n"@
}

/// Emits the generic dynamic cast of a class.
pub fn generate_dynamic_cast(output: &mut String, class: &GodotClass)
    ensures
        final(output)@ == old(output)@ + dynamic_cast_text(*class),
{
    output.append("\n    /// Generic dynamic cast.\n    pub ");
    if !class.is_pointer_safe() {
        output.append("unsafe ");
    }
    output.append(
        "fn cast<T: GodotObject>(&self) -> Option<T> {\n        object::godot_cast::<T>(self.this)\n    }\n\n",
    );
    assert(output@ =~= old(output)@ + dynamic_cast_text(*class));
}

/// One upcast accessor: an ancestor-typed alias of the same underlying
/// handle, incrementing the shared count when the ancestor is
/// reference-counted, and safe exactly when the class is pointer-safe.
pub open spec fn upcast_entry_text(parent: GodotClass, is_pointer_safe: bool) -> Seq<char> {
    if is_pointer_safe {
        "    /// Up-cast.\n    #[inline]\n    pub fn to_"@ + spec_class_name_to_snake_case(
            parent.name@,
        ) + "(&self) -> "@ + parent.name@ + " {\n        "@ + (if spec_is_refcounted(parent) {
            "unsafe { object::add_ref(self.this); }"@
        } else {
            "// Not reference-counted."@
        }) + "\n        "@ + parent.name@ + " { this: self.this }\n    }\n\n"@
    } else {
        "    /// Up-cast.\n    #[inline]\n    pub unsafe fn to_"@ + spec_class_name_to_snake_case(
            parent.name@,
        ) + "(&self) -> "@ + parent.name@ + " {\n        "@ + (if spec_is_refcounted(parent) {
            "object::add_ref(self.this);"@
        } else {
            "// Not reference-counted."@
        }) + "\n        "@ + parent.name@ + " { this: self.this }\n    }\n\n"@
    }
}

/// The upcast accessors of every ancestor along the base-class chain,
/// walking up at most `fuel` links.
pub open spec fn upcast_text(
    cs: Seq<GodotClass>,
    base_class_name: Seq<char>,
    is_pointer_safe: bool,
    fuel: nat,
) -> Seq<char>
    decreases fuel,
{
    let ci = class_idx(cs, base_class_name);
    if ci < 0 {
        Seq::<char>::empty()
    } else {
        upcast_entry_text(cs[ci], is_pointer_safe) + (if cs[ci].base_class@
            != Seq::<char>::empty() && fuel > 0 {
            upcast_text(cs, cs[ci].base_class@, is_pointer_safe, (fuel - 1) as nat)
        } else {
            Seq::<char>::empty()
        })
    }
}

fn generate_upcast_rec(
    output: &mut String,
    classes: &Vec<GodotClass>,
    base_class_name: &str,
    is_pointer_safe: bool,
    fuel: usize,
)
    ensures
        final(output)@ == old(output)@ + upcast_text(
            classes@,
            base_class_name@,
            is_pointer_safe,
            fuel as nat,
        ),
    decreases fuel,
{
    match find_class(classes, base_class_name) {
        None => {},
        Some(parent) => {
            let snake_name = class_name_to_snake_case(base_class_name);
            assert(parent.name@ == base_class_name@);
            if is_pointer_safe {
                output.append("    /// Up-cast.\n    #[inline]\n    pub fn to_");
                output.append(snake_name.as_str());
                output.append("(&self) -> ");
                output.append(parent.name.as_str());
                output.append(" {\n        ");
                if parent.is_refcounted() {
                    output.append("unsafe { object::add_ref(self.this); }");
                } else {
                    output.append("// Not reference-counted.");
                }
                output.append("\n        ");
                output.append(parent.name.as_str());
                output.append(" { this: self.this }\n    }\n\n");
            } else {
                output.append("    /// Up-cast.\n    #[inline]\n    pub unsafe fn to_");
                output.append(snake_name.as_str());
                output.append("(&self) -> ");
                output.append(parent.name.as_str());
                output.append(" {\n        ");
                if parent.is_refcounted() {
                    output.append("object::add_ref(self.this);");
                } else {
                    output.append("// Not reference-counted.");
                }
                output.append("\n        ");
                output.append(parent.name.as_str());
                output.append(" { this: self.this }\n    }\n\n");
            }
            assert(output@ =~= old(output)@ + upcast_entry_text(*parent, is_pointer_safe));
            if parent.base_class.as_str().unicode_len() > 0 && fuel > 0 {
                assert(parent.base_class@ != Seq::<char>::empty());
                generate_upcast_rec(
                    output,
                    classes,
                    parent.base_class.as_str(),
                    is_pointer_safe,
                    fuel - 1,
                );
            } else {
                assert(parent.base_class@.len() == 0 ==> parent.base_class@ =~= Seq::<
                    char,
                >::empty());
            }
            assert(output@ =~= old(output)@ + upcast_text(
                classes@,
                base_class_name@,
                is_pointer_safe,
                fuel as nat,
            ));
        },
    }
}

/// Emits an upcast accessor for every ancestor along the base-class chain.
pub fn generate_upcast(
    output: &mut String,
    classes: &Vec<GodotClass>,
    base_class_name: &str,
    is_pointer_safe: bool,
)
    ensures
        final(output)@ == old(output)@ + upcast_text(
            classes@,
            base_class_name@,
            is_pointer_safe,
            classes@.len(),
        ),
{
    let fuel = classes.len();
    generate_upcast_rec(output, classes, base_class_name, is_pointer_safe, fuel);
}

/// The destructor of a reference-counted class: decrement the shared count
/// and destroy the underlying object only when it reaches zero.
pub open spec fn drop_text(c: GodotClass) -> Seq<char> {
    "\nimpl Drop for "@ + c.name@
        + " {\n    fn drop(&mut self) {\n        unsafe {\n            if object::unref(self.this) {\n                (::get_api().godot_object_destroy)(self.this);\n            }\n        }\n    }\n}\n\n"@
}

/// Emits the destructor of a reference-counted class.
pub fn generate_drop(output: &mut String, class: &GodotClass)
    ensures
        final(output)@ == old(output)@ + drop_text(*class),
{
    output.append("\nimpl Drop for ");
    output.append(class.name.as_str());
    output.append(
        " {\n    fn drop(&mut self) {\n        unsafe {\n            if object::unref(self.this) {\n                (::get_api().godot_object_destroy)(self.this);\n            }\n        }\n    }\n}\n\n",
    );
    assert(output@ =~= old(output)@ + drop_text(*class));
}

} // verus!
