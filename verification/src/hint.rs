//! Strongly typed property hints, and their rendering as hint strings.

use vstd::prelude::*;
use crate::strutil::{decimal_i64, spec_decimal};
use crate::variant::VariantType;

verus! {

/// The hint kind reported to the host alongside an exported property.
#[derive(Clone, Copy, PartialEq, Eq, Structural, Debug)]
pub enum PropertyHint {
    Range,
    ExpRange,
    Enum,
    Flags,
    ExpEasing,
    Layers2DRender,
    Layers2DPhysics,
    Layers3DRender,
    Layers3DPhysics,
    File,
    GlobalFile,
    Dir,
    GlobalDir,
    MultilineText,
    PlaceholderText,
    ColorNoAlpha,
}

/// Everything the host needs to know about an exported property: its value
/// type, its hint kind, and the hint string.
pub struct ExportInfo {
    pub variant_type: VariantType,
    pub hint_kind: PropertyHint,
    pub hint_string: String,
}

/// A value that can appear in a hint string.
pub trait HintValue {
    /// The rendering of the value in a hint string.
    spec fn hint_seq(&self) -> Seq<char>;

    fn to_hint_string(&self) -> (s: String)
        ensures
            s@ == self.hint_seq(),
    ;
}

impl HintValue for i64 {
    open spec fn hint_seq(&self) -> Seq<char> {
        spec_decimal(*self as int)
    }

    fn to_hint_string(&self) -> (s: String) {
        decimal_i64(*self)
    }
}

/// Hints that an integer property should be within an inclusive range.
#[derive(Copy, Clone, Eq, PartialEq, Debug, Default)]
pub struct RangeHint<T> {
    /// Minimal value, inclusive
    pub min: T,
    /// Maximal value, inclusive
    pub max: T,
    /// Optional step value for the slider
    pub step: Option<T>,
    /// Allow manual input above the `max` value
    pub or_greater: bool,
    /// Allow manual input below the `min` value
    pub or_lesser: bool,
}

/// The hint string of a range hint: minimum and maximum, then the step when
/// one was given, then the overflow markers.
pub open spec fn range_hint_seq<T: HintValue>(h: RangeHint<T>) -> Seq<char> {
    h.min.hint_seq() + ","@ + h.max.hint_seq() + (match h.step {
        Some(s) => ","@ + s.hint_seq(),
        None => Seq::<char>::empty(),
    }) + (if h.or_greater {
        ",or_greater"@
    } else {
        Seq::<char>::empty()
    }) + (if h.or_lesser {
        ",or_lesser"@
    } else {
        Seq::<char>::empty()
    })
}

impl<T: HintValue> RangeHint<T> {
    /// Creates a new `RangeHint`.
    pub fn new(min: T, max: T) -> (r: Self)
        ensures
            r.min == min,
            r.max == max,
            r.step is None,
            !r.or_greater,
            !r.or_lesser,
    {
        RangeHint { min, max, step: None, or_greater: false, or_lesser: false }
    }

    /// Builder-style method that returns `self` with the given step.
    pub fn with_step(self, step: T) -> (r: Self)
        ensures
            r.min == self.min,
            r.max == self.max,
            r.step == Some(step),
            r.or_greater == self.or_greater,
            r.or_lesser == self.or_lesser,
    {
        RangeHint { step: Some(step), ..self }
    }

    /// Builder-style method that returns `self` with the `or_greater` hint.
    pub fn or_greater(self) -> (r: Self)
        ensures
            r.min == self.min,
            r.max == self.max,
            r.step == self.step,
            r.or_greater,
            r.or_lesser == self.or_lesser,
    {
        RangeHint { or_greater: true, ..self }
    }

    /// Builder-style method that returns `self` with the `or_lesser` hint.
    pub fn or_lesser(self) -> (r: Self)
        ensures
            r.min == self.min,
            r.max == self.max,
            r.step == self.step,
            r.or_greater == self.or_greater,
            r.or_lesser,
    {
        RangeHint { or_lesser: true, ..self }
    }

    /// Formats the hint as a host hint string.
    pub fn to_godot_hint_string(&self) -> (r: String)
        ensures
            r@ == range_hint_seq(*self),
    {
        let mut s = self.min.to_hint_string();
        s.append(",");
        s.append(self.max.to_hint_string().as_str());
        match &self.step {
            Some(st) => {
                s.append(",");
                s.append(st.to_hint_string().as_str());
            },
            None => {},
        }
        if self.or_greater {
            s.append(",or_greater");
        }
        if self.or_lesser {
            s.append(",or_lesser");
        }
        assert(s@ =~= range_hint_seq(*self));
        s
    }
}

/// Hints that a property is an enumerated value to pick in a list.
#[derive(Clone, Eq, PartialEq, Debug, Default)]
pub struct EnumHint {
    values: Vec<String>,
}

impl View for EnumHint {
    type V = Seq<Seq<char>>;

    closed spec fn view(&self) -> Seq<Seq<char>> {
        self.values.deep_view()
    }
}

/// The trailing elements of an enumeration hint string, each preceded by a
/// comma.
pub open spec fn enum_hint_rest(vs: Seq<Seq<char>>, i: int) -> Seq<char>
    decreases vs.len() - i,
{
    if i < 0 || i >= vs.len() {
        Seq::<char>::empty()
    } else {
        ","@ + vs[i] + enum_hint_rest(vs, i + 1)
    }
}

/// The hint string of an enumeration hint: its values joined by commas.
pub open spec fn enum_hint_seq(vs: Seq<Seq<char>>) -> Seq<char> {
    if vs.len() == 0 {
        Seq::<char>::empty()
    } else {
        vs[0] + enum_hint_rest(vs, 1)
    }
}

impl EnumHint {
    pub fn new(values: Vec<String>) -> (r: Self)
        ensures
            r@ == values.deep_view(),
    {
        EnumHint { values }
    }

    /// Formats the hint as a host hint string.
    pub fn to_godot_hint_string(&self) -> (r: String)
        ensures
            r@ == enum_hint_seq(self@),
    {
        let mut s = String::new();
        let n = self.values.len();
        assert(self@.len() == n);
        if n == 0 {
            return s;
        }
        s.append(self.values[0].as_str());
        assert(s@ =~= self@[0]);
        let mut i: usize = 1;
        while i < n
            invariant
                n == self.values@.len(),
                self@ == self.values.deep_view(),
                1 <= i <= n,
                enum_hint_seq(self@) == s@ + enum_hint_rest(self@, i as int),
            decreases n - i,
        {
            let ghost old_s = s@;
            s.append(",");
            s.append(self.values[i].as_str());
            assert(self.values@[i as int]@ == self@[i as int]);
            assert(old_s + enum_hint_rest(self@, i as int) =~= s@ + enum_hint_rest(
                self@,
                i + 1,
            ));
            i += 1;
        }
        s
    }
}

/// Possible hints for integers.
#[derive(Clone, Debug)]
pub enum IntHint<T> {
    /// Hints that an integer property should be within a range.
    Range(RangeHint<T>),
    /// Hints that an integer property should be within an exponential range.
    ExpRange(RangeHint<T>),
    /// Hints that an integer property is an enumerated value to pick in a list.
    Enum(EnumHint),
    /// Hints that an integer property is a bitmask with named bit flags.
    Flags(EnumHint),
    /// Hints that an integer property is a bitmask using the optionally named 2D render layers.
    Layers2DRender,
    /// Hints that an integer property is a bitmask using the optionally named 2D physics layers.
    Layers2DPhysics,
    /// Hints that an integer property is a bitmask using the optionally named 3D render layers.
    Layers3DRender,
    /// Hints that an integer property is a bitmask using the optionally named 3D physics layers.
    Layers3DPhysics,
}

pub open spec fn int_hint_kind<T: HintValue>(h: IntHint<T>) -> PropertyHint {
    match h {
        IntHint::Range(_) => PropertyHint::Range,
        IntHint::ExpRange(_) => PropertyHint::ExpRange,
        IntHint::Enum(_) => PropertyHint::Enum,
        IntHint::Flags(_) => PropertyHint::Flags,
        IntHint::Layers2DRender => PropertyHint::Layers2DRender,
        IntHint::Layers2DPhysics => PropertyHint::Layers2DPhysics,
        IntHint::Layers3DRender => PropertyHint::Layers3DRender,
        IntHint::Layers3DPhysics => PropertyHint::Layers3DPhysics,
    }
}

pub open spec fn int_hint_string<T: HintValue>(h: IntHint<T>) -> Seq<char> {
    match h {
        IntHint::Range(range) => range_hint_seq(range),
        IntHint::ExpRange(range) => range_hint_seq(range),
        IntHint::Enum(e) => enum_hint_seq(e@),
        IntHint::Flags(e) => enum_hint_seq(e@),
        _ => Seq::<char>::empty(),
    }
}

impl<T: HintValue> IntHint<T> {
    pub fn export_info(self) -> (r: ExportInfo)
        ensures
            r.variant_type == VariantType::I64,
            r.hint_kind == int_hint_kind(self),
            r.hint_string@ == int_hint_string(self),
    {
        let hint_kind = match &self {
            IntHint::Range(_) => PropertyHint::Range,
            IntHint::ExpRange(_) => PropertyHint::ExpRange,
            IntHint::Enum(_) => PropertyHint::Enum,
            IntHint::Flags(_) => PropertyHint::Flags,
            IntHint::Layers2DRender => PropertyHint::Layers2DRender,
            IntHint::Layers2DPhysics => PropertyHint::Layers2DPhysics,
            IntHint::Layers3DRender => PropertyHint::Layers3DRender,
            IntHint::Layers3DPhysics => PropertyHint::Layers3DPhysics,
        };
        let hint_string = match &self {
            IntHint::Range(range) => range.to_godot_hint_string(),
            IntHint::ExpRange(range) => range.to_godot_hint_string(),
            IntHint::Enum(e) => e.to_godot_hint_string(),
            IntHint::Flags(e) => e.to_godot_hint_string(),
            _ => String::new(),
        };
        ExportInfo { variant_type: VariantType::I64, hint_kind, hint_string }
    }
}

/// Hints that a float property should be edited via an exponential easing
/// function.
#[derive(Copy, Clone, Eq, PartialEq, Debug, Default)]
pub struct ExpEasingHint {
    /// Flip the curve horizontally.
    pub is_attenuation: bool,
    /// Also include in/out easing.
    pub is_in_out: bool,
}

pub open spec fn exp_easing_seq(h: ExpEasingHint) -> Seq<char> {
    (if h.is_attenuation {
        "attenuation"@
    } else {
        Seq::<char>::empty()
    }) + (if h.is_in_out {
        (if h.is_attenuation {
            ","@
        } else {
            Seq::<char>::empty()
        }) + "inout"@
    } else {
        Seq::<char>::empty()
    })
}

impl ExpEasingHint {
    pub fn new() -> (r: Self)
        ensures
            !r.is_attenuation,
            !r.is_in_out,
    {
        ExpEasingHint { is_attenuation: false, is_in_out: false }
    }

    /// Formats the hint as a host hint string.
    pub fn to_godot_hint_string(&self) -> (r: String)
        ensures
            r@ == exp_easing_seq(*self),
    {
        let mut s = String::new();
        if self.is_attenuation {
            s.append("attenuation");
        }
        if self.is_in_out {
            if self.is_attenuation {
                s.append(",");
            }
            s.append("inout");
        }
        assert(s@ =~= exp_easing_seq(*self));
        s
    }
}

/// Possible hints for floats.
#[derive(Clone, Debug)]
pub enum FloatHint<T> {
    /// Hints that a float property should be within a range.
    Range(RangeHint<T>),
    /// Hints that a float property should be within an exponential range.
    ExpRange(RangeHint<T>),
    /// Hints that a float property is an enumerated value to pick in a list.
    Enum(EnumHint),
    /// Hints that a float property should be edited via an exponential easing function.
    ExpEasing(ExpEasingHint),
}

pub open spec fn float_hint_kind<T: HintValue>(h: FloatHint<T>) -> PropertyHint {
    match h {
        FloatHint::Range(_) => PropertyHint::Range,
        FloatHint::ExpRange(_) => PropertyHint::ExpRange,
        FloatHint::Enum(_) => PropertyHint::Enum,
        FloatHint::ExpEasing(_) => PropertyHint::ExpEasing,
    }
}

pub open spec fn float_hint_string<T: HintValue>(h: FloatHint<T>) -> Seq<char> {
    match h {
        FloatHint::Range(range) => range_hint_seq(range),
        FloatHint::ExpRange(range) => range_hint_seq(range),
        FloatHint::Enum(e) => enum_hint_seq(e@),
        FloatHint::ExpEasing(e) => exp_easing_seq(e),
    }
}

impl<T: HintValue> FloatHint<T> {
    pub fn export_info(self) -> (r: ExportInfo)
        ensures
            r.variant_type == VariantType::F64,
            r.hint_kind == float_hint_kind(self),
            r.hint_string@ == float_hint_string(self),
    {
        let hint_kind = match &self {
            FloatHint::Range(_) => PropertyHint::Range,
            FloatHint::ExpRange(_) => PropertyHint::ExpRange,
            FloatHint::Enum(_) => PropertyHint::Enum,
            FloatHint::ExpEasing(_) => PropertyHint::ExpEasing,
        };
        let hint_string = match &self {
            FloatHint::Range(range) => range.to_godot_hint_string(),
            FloatHint::ExpRange(range) => range.to_godot_hint_string(),
            FloatHint::Enum(e) => e.to_godot_hint_string(),
            FloatHint::ExpEasing(e) => e.to_godot_hint_string(),
        };
        ExportInfo { variant_type: VariantType::F64, hint_kind, hint_string }
    }
}

/// Possible hints for strings.
#[derive(Clone, Debug)]
pub enum StringHint {
    /// Hints that a string property is an enumerated value to pick in a list.
    Enum(EnumHint),
    /// Hints that a string property is a path to a file.
    File(EnumHint),
    /// Hints that a string property is an absolute path to a file outside the project folder.
    GlobalFile(EnumHint),
    /// Hints that a string property is a path to a directory.
    Dir,
    /// Hints that a string property is an absolute path to a directory outside the project folder.
    GlobalDir,
    /// Hints that a string property is text with line breaks.
    Multiline,
    /// Hints that a string property should have a placeholder text visible on its input field, whenever the property is empty.
    Placeholder { placeholder: String },
}

pub open spec fn string_hint_kind(h: StringHint) -> PropertyHint {
    match h {
        StringHint::Enum(_) => PropertyHint::Enum,
        StringHint::File(_) => PropertyHint::File,
        StringHint::GlobalFile(_) => PropertyHint::GlobalFile,
        StringHint::Dir => PropertyHint::Dir,
        StringHint::GlobalDir => PropertyHint::GlobalDir,
        StringHint::Multiline => PropertyHint::MultilineText,
        StringHint::Placeholder { .. } => PropertyHint::PlaceholderText,
    }
}

pub open spec fn string_hint_string(h: StringHint) -> Seq<char> {
    match h {
        StringHint::Enum(e) => enum_hint_seq(e@),
        StringHint::File(e) => enum_hint_seq(e@),
        StringHint::GlobalFile(e) => enum_hint_seq(e@),
        StringHint::Placeholder { placeholder } => placeholder@,
        _ => Seq::<char>::empty(),
    }
}

impl StringHint {
    pub fn export_info(self) -> (r: ExportInfo)
        ensures
            r.variant_type == VariantType::GodotString,
            r.hint_kind == string_hint_kind(self),
            r.hint_string@ == string_hint_string(self),
    {
        let hint_kind = match &self {
            StringHint::Enum(_) => PropertyHint::Enum,
            StringHint::File(_) => PropertyHint::File,
            StringHint::GlobalFile(_) => PropertyHint::GlobalFile,
            StringHint::Dir => PropertyHint::Dir,
            StringHint::GlobalDir => PropertyHint::GlobalDir,
            StringHint::Multiline => PropertyHint::MultilineText,
            StringHint::Placeholder { .. } => PropertyHint::PlaceholderText,
        };
        let hint_string = match self {
            StringHint::Enum(e) => e.to_godot_hint_string(),
            StringHint::File(e) => e.to_godot_hint_string(),
            StringHint::GlobalFile(e) => e.to_godot_hint_string(),
            StringHint::Placeholder { placeholder } => placeholder,
            _ => String::new(),
        };
        ExportInfo { variant_type: VariantType::GodotString, hint_kind, hint_string }
    }
}

/// Possible hints for colors.
#[derive(Clone, Debug)]
pub enum ColorHint {
    /// Hints that a color property should be edited without changing its alpha component.
    NoAlpha,
}

impl ColorHint {
    pub fn export_info(self) -> (r: ExportInfo)
        ensures
            r.variant_type == VariantType::Color,
            r.hint_kind == PropertyHint::ColorNoAlpha,
            r.hint_string@ == Seq::<char>::empty(),
    {
        ExportInfo {
            variant_type: VariantType::Color,
            hint_kind: match self {
                ColorHint::NoAlpha => PropertyHint::ColorNoAlpha,
            },
            hint_string: String::new(),
        }
    }
}

} // verus!
