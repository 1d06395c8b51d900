use riri_imgui_vulkano::compiler::{AppCompiler, VULKAN_1_4};
use riri_imgui_vulkano::flags::{CompilerError, OptimizationLevel, ShaderKind, SourceLanguage};

#[test]
fn new_compiler_defaults() {
    let c = AppCompiler::from_string("void main() {}");
    assert_eq!(c.get_filename(), None);
    assert_eq!(c.get_entry_point(), "main");
    assert_eq!(c.flags().bits(), 0x110);
    let r = c.compile_request();
    assert_eq!(r.source, "void main() {}");
    assert_eq!(r.kind, ShaderKind::Vertex);
    assert_eq!(r.language, SourceLanguage::GLSL);
    assert_eq!(r.input_file_name, "No Name");
    assert_eq!(r.entry_point, "main");
    assert_eq!(r.target_env_version, (1 << 22) | (4 << 12));
    assert_eq!(r.target_env_version, VULKAN_1_4);
    assert_eq!(r.optimization, None);
    assert!(r.definitions.is_empty());
    assert!(!r.warnings_as_errors);
    assert!(!r.generate_debug_info);
}

#[test]
fn builder_settings_reach_the_request() {
    let c = AppCompiler::new("src".to_string(), Some("imgui.ps.glsl".to_string()))
        .set_shader_kind(ShaderKind::Fragment)
        .unwrap()
        .set_source_language(SourceLanguage::HLSL)
        .set_optimization(OptimizationLevel::Performance)
        .set_warnings_as_errors(true)
        .set_generate_debug_info(true)
        .set_entry_point("ps_main")
        .add_macro_definition("A", "1")
        .add_macro_definition("B", "two");
    assert_eq!(c.get_filename(), Some("imgui.ps.glsl"));
    let r = c.compile_request();
    assert_eq!(r.kind, ShaderKind::Fragment);
    assert_eq!(r.language, SourceLanguage::HLSL);
    assert_eq!(r.optimization, Some(OptimizationLevel::Performance));
    assert!(r.warnings_as_errors);
    assert!(r.generate_debug_info);
    assert_eq!(r.entry_point, "ps_main");
    assert_eq!(r.input_file_name, "imgui.ps.glsl");
    assert_eq!(
        r.definitions,
        vec![("A".to_string(), "1".to_string()), ("B".to_string(), "two".to_string())]
    );
}

#[test]
fn set_filename_names_the_input() {
    let c = AppCompiler::from_string("x").set_filename("a.vs.glsl");
    assert_eq!(c.get_filename(), Some("a.vs.glsl"));
    assert_eq!(c.compile_request().input_file_name, "a.vs.glsl");
}

#[test]
fn unsupported_shader_kind_is_refused() {
    let r = AppCompiler::from_string("x").set_shader_kind(ShaderKind::TessControl);
    assert_eq!(r.err(), Some(CompilerError::UnsupportedShaderKind));
}

#[test]
fn later_optimization_replaces_earlier() {
    let c = AppCompiler::from_string("x")
        .set_optimization(OptimizationLevel::Zero)
        .set_optimization(OptimizationLevel::Size);
    assert_eq!(c.compile_request().optimization, Some(OptimizationLevel::Size));
    assert_eq!(c.flags().bits() & 0xe, 0x4);
}

#[test]
fn last_setter_call_of_each_kind_wins() {
    let c = AppCompiler::from_string("src")
        .set_shader_kind(ShaderKind::Compute)
        .unwrap()
        .set_source_language(SourceLanguage::HLSL)
        .add_macro_definition("A", "1")
        .set_warnings_as_errors(true)
        .set_shader_kind(ShaderKind::Geometry)
        .unwrap()
        .set_source_language(SourceLanguage::GLSL)
        .add_macro_definition("B", "2")
        .set_warnings_as_errors(false)
        .set_generate_debug_info(true)
        .set_entry_point("entry");
    let r = c.compile_request();
    assert_eq!(r.kind, ShaderKind::Geometry);
    assert_eq!(r.language, SourceLanguage::GLSL);
    assert_eq!(r.optimization, None);
    assert!(!r.warnings_as_errors);
    assert!(r.generate_debug_info);
    assert_eq!(r.entry_point, "entry");
    assert_eq!(r.input_file_name, "No Name");
    assert_eq!(
        r.definitions,
        vec![("A".to_string(), "1".to_string()), ("B".to_string(), "2".to_string())]
    );
}
