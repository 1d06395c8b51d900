use riri_imgui_vulkano::flags::{ShaderKind, SourceLanguage};
use riri_imgui_vulkano::shader_tool::{parse_shader_file_name, parse_tool_options, CompilerError};
use riri_imgui_vulkano::text::split_str;

fn args(v: &[&str]) -> Vec<String> {
    v.iter().map(|s| s.to_string()).collect()
}

#[test]
fn split_keeps_empty_parts() {
    assert_eq!(split_str("a.b.c", '.'), vec!["a", "b", "c"]);
    assert_eq!(split_str("", '.'), vec![""]);
    assert_eq!(split_str(".x..", '.'), vec!["", "x", "", ""]);
}

#[test]
fn shader_names_follow_the_convention() {
    assert_eq!(parse_shader_file_name("imgui.vs.glsl"), Ok((ShaderKind::Vertex, SourceLanguage::GLSL)));
    assert_eq!(parse_shader_file_name("imgui.ps.glsl"), Ok((ShaderKind::Fragment, SourceLanguage::GLSL)));
    assert_eq!(parse_shader_file_name("x.cs.hlsl"), Ok((ShaderKind::Compute, SourceLanguage::HLSL)));
    assert_eq!(parse_shader_file_name("x.gs.hlsl"), Ok((ShaderKind::Geometry, SourceLanguage::HLSL)));
}

#[test]
fn bad_shader_names() {
    assert_eq!(
        parse_shader_file_name("imgui.vs"),
        Err(CompilerError::InvalidFileNameFormat("imgui.vs".to_string()))
    );
    assert_eq!(
        parse_shader_file_name("a.b.c.d"),
        Err(CompilerError::InvalidFileNameFormat("a.b.c.d".to_string()))
    );
    assert_eq!(
        parse_shader_file_name("imgui.xs.glsl"),
        Err(CompilerError::UnknownShaderType("xs".to_string()))
    );
    assert_eq!(
        parse_shader_file_name("imgui.vs.spv"),
        Err(CompilerError::UnknownSourceLangauge("spv".to_string()))
    );
}

#[test]
fn tool_arguments() {
    assert_eq!(parse_tool_options(&args(&["prog", "in"])).err(), Some(CompilerError::NotEnoughArguments));
    let o = parse_tool_options(&args(&["prog", "in.vs.glsl", "out.spv"])).unwrap();
    assert_eq!(o.input, "in.vs.glsl");
    assert_eq!(o.output, "out.spv");
    assert!(!o.warnings_are_errors && !o.generate_debug_info);
    let o = parse_tool_options(&args(&["prog", "i", "o", "debug", "nope", "werror"])).unwrap();
    assert!(o.warnings_are_errors && o.generate_debug_info);
    let o = parse_tool_options(&args(&["prog", "werror", "debug"])).unwrap();
    assert!(!o.warnings_are_errors && !o.generate_debug_info);
}
