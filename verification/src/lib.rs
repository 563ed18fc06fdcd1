//! Bindings generator and runtime model for a native plugin API.
//!
//! The library consumes a catalogue of classes and methods exposed by a host
//! process and emits, for each class, a lazily initialized table of raw
//! function-pointer bindings together with typed wrapper functions that
//! marshal between safe high-level types and the raw calling convention.

use vstd::prelude::*;

pub mod api;
pub mod classes;
pub mod hint;
pub mod lifecycle;
pub mod marshal;
pub mod method_table;
pub mod methods;
pub mod special_methods;
mod strutil;
pub mod variant;

pub use strutil::str_eq;

verus! {

/// A method name that names a lifecycle primitive rather than a generic
/// binding: such methods never enter the generated method tables.
pub open spec fn spec_skip_method(name: Seq<char>) -> bool {
    name == "free"@ || name == "reference"@ || name == "unreference"@
}

/// Lifecycle methods are handled by the special-method generator and are
/// excluded from generic method tables and wrappers.
pub fn skip_method(name: &str) -> (r: bool)
    ensures
        r == spec_skip_method(name@),
{
    str_eq(name, "free") || str_eq(name, "reference") || str_eq(name, "unreference")
}

} // verus!
