use gdnative::hint::{
    ColorHint, EnumHint, ExpEasingHint, FloatHint, IntHint, PropertyHint, RangeHint, StringHint,
};
use gdnative::variant::VariantType;

#[test]
fn range_hint_min_max() {
    let hint: RangeHint<i64> = RangeHint::new(0, 20);
    assert_eq!(hint.to_godot_hint_string(), "0,20");
}

#[test]
fn range_hint_or_greater() {
    let hint: RangeHint<i64> = RangeHint::new(0, 20).or_greater();
    assert_eq!(hint.to_godot_hint_string(), "0,20,or_greater");
}

#[test]
fn range_hint_with_step_and_markers() {
    let hint: RangeHint<i64> = RangeHint::new(0, 20).with_step(2).or_greater().or_lesser();
    assert_eq!(hint.to_godot_hint_string(), "0,20,2,or_greater,or_lesser");
}

#[test]
fn range_hint_negative_bounds() {
    let hint: RangeHint<i64> = RangeHint::new(-5, 5);
    assert_eq!(hint.to_godot_hint_string(), "-5,5");
}

#[test]
fn range_hint_extreme_bounds() {
    let hint: RangeHint<i64> = RangeHint::new(i64::MIN, i64::MAX);
    assert_eq!(
        hint.to_godot_hint_string(),
        "-9223372036854775808,9223372036854775807"
    );
}

#[test]
fn enum_hint_joins_with_commas() {
    let hint = EnumHint::new(vec!["Foo".to_string(), "Bar".to_string(), "Baz".to_string()]);
    assert_eq!(hint.to_godot_hint_string(), "Foo,Bar,Baz");
}

#[test]
fn enum_hint_single_value() {
    let hint = EnumHint::new(vec!["Only".to_string()]);
    assert_eq!(hint.to_godot_hint_string(), "Only");
}

#[test]
fn enum_hint_empty() {
    let hint = EnumHint::new(vec![]);
    assert_eq!(hint.to_godot_hint_string(), "");
}

#[test]
fn exp_easing_hint_strings() {
    assert_eq!(ExpEasingHint::new().to_godot_hint_string(), "");
    let mut hint = ExpEasingHint::new();
    hint.is_attenuation = true;
    assert_eq!(hint.to_godot_hint_string(), "attenuation");
    hint.is_in_out = true;
    assert_eq!(hint.to_godot_hint_string(), "attenuation,inout");
    hint.is_attenuation = false;
    assert_eq!(hint.to_godot_hint_string(), "inout");
}

#[test]
fn int_hint_range_export_info() {
    let hint: IntHint<i64> = IntHint::Range(RangeHint::new(1, 10));
    let info = hint.export_info();
    assert_eq!(info.variant_type, VariantType::I64);
    assert_eq!(info.hint_kind, PropertyHint::Range);
    assert_eq!(info.hint_string, "1,10");
}

#[test]
fn int_hint_flags_export_info() {
    let hint: IntHint<i64> =
        IntHint::Flags(EnumHint::new(vec!["A".to_string(), "B".to_string()]));
    let info = hint.export_info();
    assert_eq!(info.variant_type, VariantType::I64);
    assert_eq!(info.hint_kind, PropertyHint::Flags);
    assert_eq!(info.hint_string, "A,B");
}

#[test]
fn int_hint_layers_export_info() {
    let hint: IntHint<i64> = IntHint::Layers2DPhysics;
    let info = hint.export_info();
    assert_eq!(info.hint_kind, PropertyHint::Layers2DPhysics);
    assert_eq!(info.hint_string, "");
}

#[test]
fn float_hint_exp_easing_export_info() {
    let mut easing = ExpEasingHint::new();
    easing.is_attenuation = true;
    let hint: FloatHint<i64> = FloatHint::ExpEasing(easing);
    let info = hint.export_info();
    assert_eq!(info.variant_type, VariantType::F64);
    assert_eq!(info.hint_kind, PropertyHint::ExpEasing);
    assert_eq!(info.hint_string, "attenuation");
}

#[test]
fn float_hint_exp_range_export_info() {
    let hint: FloatHint<i64> = FloatHint::ExpRange(RangeHint::new(0, 100));
    let info = hint.export_info();
    assert_eq!(info.hint_kind, PropertyHint::ExpRange);
    assert_eq!(info.hint_string, "0,100");
}

#[test]
fn string_hint_placeholder_export_info() {
    let hint = StringHint::Placeholder { placeholder: "type here".to_string() };
    let info = hint.export_info();
    assert_eq!(info.variant_type, VariantType::GodotString);
    assert_eq!(info.hint_kind, PropertyHint::PlaceholderText);
    assert_eq!(info.hint_string, "type here");
}

#[test]
fn string_hint_dir_export_info() {
    let info = StringHint::Dir.export_info();
    assert_eq!(info.hint_kind, PropertyHint::Dir);
    assert_eq!(info.hint_string, "");
}

#[test]
fn string_hint_file_export_info() {
    let info = StringHint::File(EnumHint::new(vec!["*.png".to_string()])).export_info();
    assert_eq!(info.hint_kind, PropertyHint::File);
    assert_eq!(info.hint_string, "*.png");
}

#[test]
fn color_hint_no_alpha_export_info() {
    let info = ColorHint::NoAlpha.export_info();
    assert_eq!(info.variant_type, VariantType::Color);
    assert_eq!(info.hint_kind, PropertyHint::ColorNoAlpha);
    assert_eq!(info.hint_string, "");
}
