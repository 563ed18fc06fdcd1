//! The class/method model: an in-memory representation of the parsed class
//! catalogue, plus the type mapper from catalogue type descriptors to
//! generated-language types and raw representations.

use vstd::prelude::*;
use crate::strutil::str_eq;

verus! {

/// A type descriptor from the catalogue: a tagged variant over the fixed
/// type system of the host API.
#[derive(Clone)]
pub enum Ty {
    Void,
    GodotString,
    F64,
    I64,
    Bool,
    Vector2,
    Vector3,
    Quat,
    Transform,
    Transform2D,
    Rect2,
    Plane,
    Basis,
    Color,
    NodePath,
    Variant,
    Aabb,
    Rid,
    VariantArray,
    Dictionary,
    ByteArray,
    StringArray,
    Vector2Array,
    Vector3Array,
    ColorArray,
    Int32Array,
    Float32Array,
    GodotResult,
    VariantType,
    Enum(String),
    Object(String),
}

/// The generated-language type for a descriptor, when one exists.
/// `None` is the explicit escape hatch: the method using such a type is
/// skipped rather than failing the whole generation run.
pub open spec fn ty_to_rust(t: Ty) -> Option<Seq<char>> {
    match t {
        Ty::Void => Some("()"@),
        Ty::GodotString => Some("GodotString"@),
        Ty::F64 => Some("f64"@),
        Ty::I64 => Some("i64"@),
        Ty::Bool => Some("bool"@),
        Ty::Vector2 => Some("Vector2"@),
        Ty::Vector3 => Some("Vector3"@),
        Ty::Quat => Some("Quat"@),
        Ty::Transform => Some("Transform"@),
        Ty::Transform2D => Some("Transform2D"@),
        Ty::Rect2 => Some("Rect2"@),
        Ty::Plane => Some("Plane"@),
        Ty::Basis => Some("Basis"@),
        Ty::Color => Some("Color"@),
        Ty::NodePath => Some("NodePath"@),
        Ty::Variant => Some("Variant"@),
        Ty::Aabb => Some("Aabb"@),
        Ty::Rid => Some("Rid"@),
        Ty::VariantArray => Some("VariantArray"@),
        Ty::Dictionary => Some("Dictionary"@),
        Ty::ByteArray => Some("ByteArray"@),
        Ty::StringArray => Some("StringArray"@),
        Ty::Vector2Array => Some("Vector2Array"@),
        Ty::Vector3Array => Some("Vector3Array"@),
        Ty::ColorArray => Some("ColorArray"@),
        Ty::Int32Array => Some("Int32Array"@),
        Ty::Float32Array => Some("Float32Array"@),
        Ty::GodotResult => Some("GodotResult"@),
        Ty::VariantType => Some("VariantType"@),
        Ty::Enum(_) => None,
        Ty::Object(name) => Some("Option<"@ + name@ + ">"@),
    }
}

/// The raw/C-compatible representation for a descriptor, when one exists.
pub open spec fn ty_to_sys(t: Ty) -> Option<Seq<char>> {
    match t {
        Ty::Void => None,
        Ty::GodotString => Some("sys::godot_string"@),
        Ty::F64 => Some("f64"@),
        Ty::I64 => Some("i64"@),
        Ty::Bool => Some("bool"@),
        Ty::Vector2 => Some("sys::godot_vector2"@),
        Ty::Vector3 => Some("sys::godot_vector3"@),
        Ty::Quat => Some("sys::godot_quat"@),
        Ty::Transform => Some("sys::godot_transform"@),
        Ty::Transform2D => Some("sys::godot_transform2d"@),
        Ty::Rect2 => Some("sys::godot_rect2"@),
        Ty::Plane => Some("sys::godot_plane"@),
        Ty::Basis => Some("sys::godot_basis"@),
        Ty::Color => Some("sys::godot_color"@),
        Ty::NodePath => Some("sys::godot_node_path"@),
        Ty::Variant => Some("sys::godot_variant"@),
        Ty::Aabb => Some("sys::godot_aabb"@),
        Ty::Rid => Some("sys::godot_rid"@),
        Ty::VariantArray => Some("sys::godot_array"@),
        Ty::Dictionary => Some("sys::godot_dictionary"@),
        Ty::ByteArray => Some("sys::godot_pool_byte_array"@),
        Ty::StringArray => Some("sys::godot_pool_string_array"@),
        Ty::Vector2Array => Some("sys::godot_pool_vector2_array"@),
        Ty::Vector3Array => Some("sys::godot_pool_vector3_array"@),
        Ty::ColorArray => Some("sys::godot_pool_color_array"@),
        Ty::Int32Array => Some("sys::godot_pool_int_array"@),
        Ty::Float32Array => Some("sys::godot_pool_real_array"@),
        Ty::GodotResult => Some("sys::godot_error"@),
        Ty::VariantType => Some("sys::godot_variant_type"@),
        Ty::Enum(_) => None,
        Ty::Object(_) => Some("sys::godot_object"@),
    }
}

impl Ty {
    /// Maps the descriptor to the generated-language type, or `None` when the
    /// target type system has no safe representation yet.
    pub fn to_rust(&self) -> (r: Option<String>)
        ensures
            (r is Some) == (ty_to_rust(*self) is Some),
            r matches Some(s) ==> s@ == ty_to_rust(*self).unwrap(),
    {
        match self {
            Ty::Void => Some("()".to_owned()),
            Ty::GodotString => Some("GodotString".to_owned()),
            Ty::F64 => Some("f64".to_owned()),
            Ty::I64 => Some("i64".to_owned()),
            Ty::Bool => Some("bool".to_owned()),
            Ty::Vector2 => Some("Vector2".to_owned()),
            Ty::Vector3 => Some("Vector3".to_owned()),
            Ty::Quat => Some("Quat".to_owned()),
            Ty::Transform => Some("Transform".to_owned()),
            Ty::Transform2D => Some("Transform2D".to_owned()),
            Ty::Rect2 => Some("Rect2".to_owned()),
            Ty::Plane => Some("Plane".to_owned()),
            Ty::Basis => Some("Basis".to_owned()),
            Ty::Color => Some("Color".to_owned()),
            Ty::NodePath => Some("NodePath".to_owned()),
            Ty::Variant => Some("Variant".to_owned()),
            Ty::Aabb => Some("Aabb".to_owned()),
            Ty::Rid => Some("Rid".to_owned()),
            Ty::VariantArray => Some("VariantArray".to_owned()),
            Ty::Dictionary => Some("Dictionary".to_owned()),
            Ty::ByteArray => Some("ByteArray".to_owned()),
            Ty::StringArray => Some("StringArray".to_owned()),
            Ty::Vector2Array => Some("Vector2Array".to_owned()),
            Ty::Vector3Array => Some("Vector3Array".to_owned()),
            Ty::ColorArray => Some("ColorArray".to_owned()),
            Ty::Int32Array => Some("Int32Array".to_owned()),
            Ty::Float32Array => Some("Float32Array".to_owned()),
            Ty::GodotResult => Some("GodotResult".to_owned()),
            Ty::VariantType => Some("VariantType".to_owned()),
            Ty::Enum(_) => None,
            Ty::Object(name) => Some(
                String::from_str("Option<").concat(name.as_str()).concat(">"),
            ),
        }
    }

    /// Maps the descriptor to its raw representation, or `None` when it has
    /// none (the void type, or an unmapped enum).
    pub fn to_sys(&self) -> (r: Option<String>)
        ensures
            (r is Some) == (ty_to_sys(*self) is Some),
            r matches Some(s) ==> s@ == ty_to_sys(*self).unwrap(),
    {
        match self {
            Ty::Void => None,
            Ty::GodotString => Some("sys::godot_string".to_owned()),
            Ty::F64 => Some("f64".to_owned()),
            Ty::I64 => Some("i64".to_owned()),
            Ty::Bool => Some("bool".to_owned()),
            Ty::Vector2 => Some("sys::godot_vector2".to_owned()),
            Ty::Vector3 => Some("sys::godot_vector3".to_owned()),
            Ty::Quat => Some("sys::godot_quat".to_owned()),
            Ty::Transform => Some("sys::godot_transform".to_owned()),
            Ty::Transform2D => Some("sys::godot_transform2d".to_owned()),
            Ty::Rect2 => Some("sys::godot_rect2".to_owned()),
            Ty::Plane => Some("sys::godot_plane".to_owned()),
            Ty::Basis => Some("sys::godot_basis".to_owned()),
            Ty::Color => Some("sys::godot_color".to_owned()),
            Ty::NodePath => Some("sys::godot_node_path".to_owned()),
            Ty::Variant => Some("sys::godot_variant".to_owned()),
            Ty::Aabb => Some("sys::godot_aabb".to_owned()),
            Ty::Rid => Some("sys::godot_rid".to_owned()),
            Ty::VariantArray => Some("sys::godot_array".to_owned()),
            Ty::Dictionary => Some("sys::godot_dictionary".to_owned()),
            Ty::ByteArray => Some("sys::godot_pool_byte_array".to_owned()),
            Ty::StringArray => Some("sys::godot_pool_string_array".to_owned()),
            Ty::Vector2Array => Some("sys::godot_pool_vector2_array".to_owned()),
            Ty::Vector3Array => Some("sys::godot_pool_vector3_array".to_owned()),
            Ty::ColorArray => Some("sys::godot_pool_color_array".to_owned()),
            Ty::Int32Array => Some("sys::godot_pool_int_array".to_owned()),
            Ty::Float32Array => Some("sys::godot_pool_real_array".to_owned()),
            Ty::GodotResult => Some("sys::godot_error".to_owned()),
            Ty::VariantType => Some("sys::godot_variant_type".to_owned()),
            Ty::Enum(_) => None,
            Ty::Object(_) => Some("sys::godot_object".to_owned()),
        }
    }
}

/// A declared argument of a catalogue method: its name and the source name
/// of its type.
pub struct GodotArgument {
    pub name: String,
    pub ty: Ty,
}

impl GodotArgument {
    pub fn get_type(&self) -> (t: &Ty)
        ensures
            *t == self.ty,
    {
        &self.ty
    }
}

/// A method of a catalogue class.
pub struct GodotMethod {
    pub name: String,
    pub return_type: Ty,
    pub is_const: bool,
    pub has_varargs: bool,
    pub arguments: Vec<GodotArgument>,
}

/// The emitted name of a method: the catalogue name, except that `new` is
/// renamed to `_new` to keep the plain name free for the constructors.
pub open spec fn spec_method_name(m: GodotMethod) -> Seq<char> {
    if m.name@ == "new"@ {
        "_new"@
    } else {
        m.name@
    }
}

impl GodotMethod {
    pub fn get_name(&self) -> (r: String)
        ensures
            r@ == spec_method_name(*self),
    {
        if str_eq(self.name.as_str(), "new") {
            "_new".to_owned()
        } else {
            self.name.clone()
        }
    }

    pub fn get_return_type(&self) -> (t: &Ty)
        ensures
            *t == self.return_type,
    {
        &self.return_type
    }
}

/// A class of the catalogue: its unique name, its base class (empty string
/// for a root), its lifetime and threading flags, and its methods.
pub struct GodotClass {
    pub name: String,
    pub base_class: String,
    pub singleton: bool,
    pub is_reference: bool,
    pub methods: Vec<GodotMethod>,
}

/// Whether values of the class share ownership through a reference count.
pub open spec fn spec_is_refcounted(c: GodotClass) -> bool {
    c.is_reference || c.name@ == "Reference"@
}

/// Whether handles of the class may be used from arbitrary threads without
/// additional host-side synchronization.
pub open spec fn spec_is_pointer_safe(c: GodotClass) -> bool {
    spec_is_refcounted(c) || c.singleton
}

impl GodotClass {
    pub fn is_refcounted(&self) -> (r: bool)
        ensures
            r == spec_is_refcounted(*self),
    {
        self.is_reference || str_eq(self.name.as_str(), "Reference")
    }

    pub fn is_pointer_safe(&self) -> (r: bool)
        ensures
            r == spec_is_pointer_safe(*self),
    {
        self.is_refcounted() || self.singleton
    }
}

/// The whole class catalogue, loaded once at generator start and immutable
/// thereafter.
pub struct Api {
    pub classes: Vec<GodotClass>,
}

/// First index at or after `i` whose class is named `name`, or -1.
pub open spec fn first_class_from(cs: Seq<GodotClass>, name: Seq<char>, i: int) -> int
    decreases cs.len() - i,
{
    if i < 0 || i >= cs.len() {
        -1
    } else if cs[i].name@ == name {
        i
    } else {
        first_class_from(cs, name, i + 1)
    }
}

/// Index of the first class named `name` in the catalogue, or -1.
pub open spec fn class_idx(cs: Seq<GodotClass>, name: Seq<char>) -> int {
    first_class_from(cs, name, 0)
}

pub proof fn lemma_first_class_from_bounds(cs: Seq<GodotClass>, name: Seq<char>, i: int)
    requires
        0 <= i <= cs.len(),
    ensures
        first_class_from(cs, name, i) == -1 || i <= first_class_from(cs, name, i) < cs.len(),
        first_class_from(cs, name, i) >= 0 ==> cs[first_class_from(cs, name, i)].name@ == name,
        first_class_from(cs, name, i) == -1 ==> forall|j: int|
            i <= j < cs.len() ==> cs[j].name@ != name,
    decreases cs.len() - i,
{
    if i < cs.len() && cs[i].name@ != name {
        lemma_first_class_from_bounds(cs, name, i + 1);
    }
}

/// Finds the first class with the given name.
pub fn find_class<'a>(classes: &'a Vec<GodotClass>, name: &str) -> (r: Option<&'a GodotClass>)
    ensures
        (r is Some) == (class_idx(classes@, name@) >= 0),
        r matches Some(c) ==> *c == classes@[class_idx(classes@, name@)] && c.name@ == name@,
{
    let n = classes.len();
    let mut i: usize = 0;
    while i < n
        invariant
            n == classes@.len(),
            i <= n,
            first_class_from(classes@, name@, 0) == first_class_from(classes@, name@, i as int),
        decreases n - i,
    {
        if str_eq(classes[i].name.as_str(), name) {
            return Some(&classes[i]);
        }
        i += 1;
    }
    None
}

/// Whether following `base_class` links upward from class `i` reaches a root
/// (a class with an empty base name) within `fuel` steps, resolving every
/// link in the same catalogue.
pub open spec fn reaches_root(cs: Seq<GodotClass>, i: int, fuel: nat) -> bool
    decreases fuel,
{
    0 <= i < cs.len() && {
        if cs[i].base_class@ == Seq::<char>::empty() {
            true
        } else if fuel == 0 {
            false
        } else {
            let b = class_idx(cs, cs[i].base_class@);
            b >= 0 && reaches_root(cs, b, (fuel - 1) as nat)
        }
    }
}

pub proof fn lemma_reaches_root_mono(cs: Seq<GodotClass>, i: int, fuel1: nat, fuel2: nat)
    requires
        reaches_root(cs, i, fuel1),
        fuel1 <= fuel2,
    ensures
        reaches_root(cs, i, fuel2),
    decreases fuel1,
{
    if cs[i].base_class@ != Seq::<char>::empty() && fuel1 > 0 {
        let b = class_idx(cs, cs[i].base_class@);
        lemma_reaches_root_mono(cs, b, (fuel1 - 1) as nat, (fuel2 - 1) as nat);
    }
}

/// A well-formed catalogue: every class reaches a root along its base links
/// within as many steps as there are classes.
pub open spec fn wf_catalogue(cs: Seq<GodotClass>) -> bool {
    forall|i: int| 0 <= i < cs.len() ==> reaches_root(cs, i, cs.len())
}

/// Escapes an argument name that collides with a keyword of the generated
/// language.
pub open spec fn spec_rust_safe_name(name: Seq<char>) -> Seq<char> {
    if name == "use"@ {
        "_use"@
    } else if name == "type"@ {
        "_type"@
    } else if name == "loop"@ {
        "_loop"@
    } else if name == "in"@ {
        "_in"@
    } else if name == "override"@ {
        "_override"@
    } else if name == "where"@ {
        "_where"@
    } else {
        name
    }
}

pub fn rust_safe_name(name: &str) -> (r: String)
    ensures
        r@ == spec_rust_safe_name(name@),
{
    if str_eq(name, "use") {
        "_use".to_owned()
    } else if str_eq(name, "type") {
        "_type".to_owned()
    } else if str_eq(name, "loop") {
        "_loop".to_owned()
    } else if str_eq(name, "in") {
        "_in".to_owned()
    } else if str_eq(name, "override") {
        "_override".to_owned()
    } else if str_eq(name, "where") {
        "_where".to_owned()
    } else {
        name.to_owned()
    }
}

/// The documentation link emitted above an inherited method.
pub open spec fn spec_class_doc_link(c: GodotClass) -> Seq<char> {
    "["@ + c.name@ + "](struct."@ + c.name@ + ".html)"@
}

pub fn class_doc_link(class: &GodotClass) -> (r: String)
    ensures
        r@ == spec_class_doc_link(*class),
{
    String::from_str("[")
        .concat(class.name.as_str())
        .concat("](struct.")
        .concat(class.name.as_str())
        .concat(".html)")
}

} // verus!
