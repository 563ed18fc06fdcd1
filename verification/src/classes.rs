//! The per-class generation pass: for one class of the catalogue, the full
//! emitted compilation unit, concatenating the method table, the method
//! wrappers, the flattened public surface, the upcast accessors, and the
//! special methods selected by the class's lifetime policy.

use vstd::prelude::*;
use crate::api::{Api, GodotClass, spec_is_pointer_safe, spec_is_refcounted};
use crate::methods::{
    chain_methods_text, generate_method_impl, generate_method_table, generate_methods,
    method_impl_text, method_table_text,
};
use crate::special_methods::{
    drop_text, dynamic_cast_text, generate_drop, generate_dynamic_cast,
    generate_godot_object_impl, generate_non_refreference_ctor, generate_refreference_ctor,
    generate_singleton_getter, generate_upcast, godot_object_impl_text,
    non_refreference_ctor_text, refreference_ctor_text, singleton_getter_text, upcast_text,
};

verus! {

/// The wrappers of every method of a class from index `i` on: a full
/// wrapper for each eligible method, a marker for each unmappable one, and
/// nothing for lifecycle primitives.
pub open spec fn method_impls_text(c: GodotClass, i: int) -> Seq<char>
    decreases c.methods@.len() - i,
{
    if i < 0 || i >= c.methods@.len() {
        Seq::<char>::empty()
    } else {
        method_impl_text(c, c.methods@[i]) + method_impls_text(c, i + 1)
    }
}

/// The special methods of a class, selected by its object-lifetime policy:
/// a reference-counted class gets the count-initializing constructor, the
/// aliasing duplication, and the decrement-and-destroy destructor; a
/// manually managed class gets the sole-ownership constructor and the
/// explicit free. A singleton also gets its accessor, and every class gets
/// the capability-based downcast and the host-object conversions.
pub open spec fn special_methods_text(cs: Seq<GodotClass>, c: GodotClass) -> Seq<char> {
    (if spec_is_refcounted(c) {
        refreference_ctor_text(c) + drop_text(c)
    } else {
        non_refreference_ctor_text(c)
    }) + (if c.singleton {
        singleton_getter_text(c)
    } else {
        Seq::<char>::empty()
    }) + dynamic_cast_text(c) + godot_object_impl_text(c)
}

/// The whole emitted compilation unit of one class: method table, method
/// wrappers, flattened public surface, upcast accessors, special methods.
pub open spec fn class_unit_text(cs: Seq<GodotClass>, c: GodotClass) -> Seq<char> {
    method_table_text(c) + method_impls_text(c, 0) + chain_methods_text(
        cs,
        c.name@,
        Seq::<Seq<char>>::empty(),
        spec_is_pointer_safe(c),
        true,
        cs.len(),
    ) + upcast_text(cs, c.base_class@, spec_is_pointer_safe(c), cs.len())
        + special_methods_text(cs, c)
}

fn append_method_impls(output: &mut String, class: &GodotClass)
    ensures
        final(output)@ == old(output)@ + method_impls_text(*class, 0),
{
    let ghost base = output@;
    let n = class.methods.len();
    let mut i: usize = 0;
    while i < n
        invariant
            n == class.methods@.len(),
            i <= n,
            base + method_impls_text(*class, 0) == output@ + method_impls_text(*class, i as int),
        decreases n - i,
    {
        let ghost before = output@;
        generate_method_impl(output, class, &class.methods[i]);
        assert(before + method_impls_text(*class, i as int) =~= output@ + method_impls_text(
            *class,
            i + 1,
        ));
        i += 1;
    }
    assert(output@ + method_impls_text(*class, n as int) =~= output@);
}

fn append_special_methods(output: &mut String, api: &Api, class: &GodotClass)
    ensures
        final(output)@ == old(output)@ + special_methods_text(api.classes@, *class),
{
    let ghost base = output@;
    if class.is_refcounted() {
        generate_refreference_ctor(output, class);
        generate_drop(output, class);
    } else {
        generate_non_refreference_ctor(output, class);
    }
    assert(output@ =~= base + (if spec_is_refcounted(*class) {
        refreference_ctor_text(*class) + drop_text(*class)
    } else {
        non_refreference_ctor_text(*class)
    }));
    if class.singleton {
        generate_singleton_getter(output, class);
    }
    generate_dynamic_cast(output, class);
    generate_godot_object_impl(output, class);
    assert(output@ =~= base + special_methods_text(api.classes@, *class));
}

/// Emits the full compilation unit for one class of the catalogue.
pub fn generate_class(output: &mut String, api: &Api, class: &GodotClass)
    ensures
        final(output)@ == old(output)@ + class_unit_text(api.classes@, *class),
{
    generate_method_table(output, class);
    append_method_impls(output, class);
    let mut method_set: Vec<String> = Vec::new();
    let is_safe = class.is_pointer_safe();
    assert(method_set.deep_view() =~= Seq::<Seq<char>>::empty());
    generate_methods(output, api, &mut method_set, class.name.as_str(), is_safe, true);
    generate_upcast(output, &api.classes, class.base_class.as_str(), is_safe);
    append_special_methods(output, api, class);
    assert(output@ =~= old(output)@ + class_unit_text(api.classes@, *class));
}

} // verus!
