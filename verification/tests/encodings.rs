use paragen::{
    is_default_alpha_cutoff, is_default_alpha_mode, is_default_byte_offset, is_default_double_sided,
    is_default_emissive_factor, is_default_metallic_factor, is_default_mode, is_default_normalized,
    is_default_roughness_factor, AlphaMode, ComponentType, ErrorCode, Mode, Real, Target, ToJson,
    Type,
};

fn real_of(x: f64) -> Real {
    Real::new(serde_json::Value::from(x)).unwrap()
}

fn written<T: ToJson>(value: &T) -> String {
    serde_json::to_string(&value.to_value()).unwrap()
}

#[test]
fn alpha_mode_mask_is_written_as_its_name() {
    assert_eq!(written(&AlphaMode::MASK), "\"MASK\"");
    assert_eq!(AlphaMode::MASK.tag(), "MASK");
}

#[test]
fn alpha_modes_have_the_names_of_the_format() {
    assert_eq!(written(&AlphaMode::OPAQUE), "\"OPAQUE\"");
    assert_eq!(written(&AlphaMode::BLEND), "\"BLEND\"");
}

#[test]
fn component_type_float_is_written_as_5126() {
    assert_eq!(written(&ComponentType::Float), "5126");
    assert_eq!(ComponentType::Float.code(), 5126);
}

#[test]
fn component_types_have_the_numbers_of_the_format() {
    assert_eq!(ComponentType::Byte.code(), 5120);
    assert_eq!(ComponentType::UnsignedByte.code(), 5121);
    assert_eq!(ComponentType::Short.code(), 5122);
    assert_eq!(ComponentType::UnsignedShort.code(), 5123);
    assert_eq!(ComponentType::UnsignedInt.code(), 5125);
    assert_eq!(written(&ComponentType::UnsignedInt), "5125");
}

#[test]
fn target_array_buffer_is_written_as_34962() {
    assert_eq!(written(&Target::ArrayBuffer), "34962");
    assert_eq!(Target::ArrayBuffer.code(), 34962);
    assert_eq!(written(&Target::ElementArrayBuffer), "34963");
    assert_eq!(Target::ElementArrayBuffer.code(), 34963);
}

#[test]
fn modes_have_the_numbers_of_the_format() {
    assert_eq!(Mode::Points.code(), 0);
    assert_eq!(Mode::Lines.code(), 1);
    assert_eq!(Mode::LineLoop.code(), 2);
    assert_eq!(Mode::LineStrip.code(), 3);
    assert_eq!(Mode::Triangles.code(), 4);
    assert_eq!(Mode::TriangleStrip.code(), 5);
    assert_eq!(Mode::TriangleFan.code(), 6);
    assert_eq!(written(&Mode::TriangleFan), "6");
}

#[test]
fn shapes_are_written_as_their_names() {
    assert_eq!(written(&Type::SCALAR), "\"SCALAR\"");
    assert_eq!(written(&Type::VEC2), "\"VEC2\"");
    assert_eq!(written(&Type::VEC3), "\"VEC3\"");
    assert_eq!(written(&Type::VEC4), "\"VEC4\"");
    assert_eq!(written(&Type::MAT2), "\"MAT2\"");
    assert_eq!(written(&Type::MAT3), "\"MAT3\"");
    assert_eq!(written(&Type::MAT4), "\"MAT4\"");
    assert_eq!(Type::MAT4.tag(), "MAT4");
}

#[test]
fn error_codes_have_fixed_numbers() {
    assert_eq!(ErrorCode::Success.code(), 0);
    assert_eq!(ErrorCode::Mutex.code(), 1);
    assert_eq!(ErrorCode::Generation.code(), 2);
}

#[test]
fn integers_are_written_without_a_fraction() {
    assert_eq!(written(&0u32), "0");
    assert_eq!(written(&4294967295u32), "4294967295");
}

#[test]
fn default_predicates_of_plain_fields() {
    assert!(is_default_alpha_mode(&AlphaMode::OPAQUE));
    assert!(!is_default_alpha_mode(&AlphaMode::MASK));
    assert!(!is_default_alpha_mode(&AlphaMode::BLEND));
    assert!(is_default_double_sided(&false));
    assert!(!is_default_double_sided(&true));
    assert!(is_default_normalized(&false));
    assert!(!is_default_normalized(&true));
    assert!(is_default_byte_offset(&0));
    assert!(!is_default_byte_offset(&1));
    assert!(is_default_mode(&Mode::Triangles));
    assert!(!is_default_mode(&Mode::Points));
    assert!(!is_default_mode(&Mode::TriangleStrip));
}

#[test]
fn default_predicates_of_numbers_compare_exactly() {
    assert!(is_default_metallic_factor(&real_of(1.0)));
    assert!(!is_default_metallic_factor(&real_of(0.9999999999999999)));
    assert!(is_default_roughness_factor(&real_of(1.0)));
    assert!(!is_default_roughness_factor(&real_of(0.0)));
    assert!(is_default_alpha_cutoff(&real_of(0.5)));
    assert!(!is_default_alpha_cutoff(&real_of(0.5000000000000001)));
    assert!(!is_default_alpha_cutoff(&real_of(-0.5)));
    assert!(is_default_emissive_factor(&[real_of(0.0), real_of(0.0), real_of(0.0)]));
    assert!(is_default_emissive_factor(&[real_of(0.0), real_of(-0.0), real_of(0.0)]));
    assert!(!is_default_emissive_factor(&[real_of(0.0), real_of(0.0), real_of(5e-324)]));
}
