use riri_imgui_vulkano::flags::{
    CompilerError, CompilerFlags, OptimizationLevel, ShaderKind, SourceLanguage,
    GENERATE_DEBUG_INFO, LANGUAGE_GLSL, LANGUAGE_HLSL, OPTIMIZATION_NONE, OPTIMIZATION_PERF,
    OPTIMIZATION_SIZE, SHADER_COMPUTE, SHADER_GEOMETRY, SHADER_PIXEL, SHADER_VERTEX,
    WARNINGS_AS_ERRORS,
};

#[test]
fn flag_values_follow_the_bit_layout() {
    assert_eq!(WARNINGS_AS_ERRORS, 1 << 0);
    assert_eq!(OPTIMIZATION_NONE, 1 << 1);
    assert_eq!(OPTIMIZATION_SIZE, 1 << 2);
    assert_eq!(OPTIMIZATION_PERF, 1 << 3);
    assert_eq!(SHADER_VERTEX, 1 << 4);
    assert_eq!(SHADER_PIXEL, 1 << 5);
    assert_eq!(SHADER_COMPUTE, 1 << 6);
    assert_eq!(SHADER_GEOMETRY, 1 << 7);
    assert_eq!(LANGUAGE_GLSL, 1 << 8);
    assert_eq!(LANGUAGE_HLSL, 1 << 9);
    assert_eq!(GENERATE_DEBUG_INFO, 1 << 10);
}

#[test]
fn warnings_as_errors_roundtrip() {
    let mut f = CompilerFlags::from_bits_retain(0x110);
    assert!(!f.get_warnings_as_errors());
    f.set_warnings_as_errors(true);
    assert!(f.get_warnings_as_errors());
    assert_eq!(f.bits(), 0x111);
    f.set_warnings_as_errors(false);
    assert!(!f.get_warnings_as_errors());
    assert_eq!(f.bits(), 0x110);
}

#[test]
fn debug_info_roundtrip() {
    let mut f = CompilerFlags::from_bits_retain(0);
    f.set_generate_debug_info(true);
    assert!(f.get_generate_debug_info());
    assert_eq!(f.bits(), 0x400);
    f.set_generate_debug_info(false);
    assert_eq!(f.bits(), 0);
}

#[test]
fn optimization_roundtrip_and_clear() {
    let mut f = CompilerFlags::from_bits_retain(0x111);
    assert_eq!(f.get_optimization(), None);
    f.set_optimization(OptimizationLevel::Zero);
    assert_eq!(f.get_optimization(), Some(OptimizationLevel::Zero));
    assert_eq!(f.bits(), 0x113);
    f.set_optimization(OptimizationLevel::Size);
    assert_eq!(f.get_optimization(), Some(OptimizationLevel::Size));
    assert_eq!(f.bits(), 0x115);
    f.set_optimization(OptimizationLevel::Performance);
    assert_eq!(f.get_optimization(), Some(OptimizationLevel::Performance));
    assert_eq!(f.bits(), 0x119);
    f.clear_optimization();
    assert_eq!(f.get_optimization(), None);
    assert_eq!(f.bits(), 0x111);
}

#[test]
fn optimization_reads_the_lowest_bit() {
    let f = CompilerFlags::from_bits_retain(OPTIMIZATION_SIZE | OPTIMIZATION_PERF);
    assert_eq!(f.get_optimization(), Some(OptimizationLevel::Size));
}

#[test]
fn shader_kind_roundtrip() {
    let mut f = CompilerFlags::from_bits_retain(0x110);
    assert_eq!(f.get_shader_kind(), ShaderKind::Vertex);
    for kind in [ShaderKind::Vertex, ShaderKind::Fragment, ShaderKind::Compute, ShaderKind::Geometry] {
        assert_eq!(f.set_shader_kind(kind), Ok(()));
        assert_eq!(f.get_shader_kind(), kind);
        assert_eq!(f.bits() & !0xf0, 0x100);
    }
    assert_eq!(f.bits(), 0x180);
}

#[test]
fn unsupported_shader_kind_is_refused_and_clears_the_stage() {
    let mut f = CompilerFlags::from_bits_retain(0x121);
    assert_eq!(f.set_shader_kind(ShaderKind::Mesh), Err(CompilerError::UnsupportedShaderKind));
    assert_eq!(f.bits(), 0x101);
    assert_eq!(f.get_shader_kind(), ShaderKind::DefaultTask);
}

#[test]
fn language_roundtrip() {
    let mut f = CompilerFlags::from_bits_retain(0x110);
    assert_eq!(f.get_language(), SourceLanguage::GLSL);
    f.set_language(SourceLanguage::HLSL);
    assert_eq!(f.get_language(), SourceLanguage::HLSL);
    assert_eq!(f.bits(), 0x210);
    f.set_language(SourceLanguage::GLSL);
    assert_eq!(f.bits(), 0x110);
}

#[test]
fn compiler_error_messages() {
    assert_eq!(CompilerError::NoFileName.message(), "NoFileName");
    assert_eq!(CompilerError::UnsupportedShaderKind.message(), "UnsupportedShaderKind");
}
