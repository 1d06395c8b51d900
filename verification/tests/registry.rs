use riri_imgui_vulkano::descriptors::{
    Basic3dMVPUniform, DescriptorSetRegistry, ImguiFontBuilder, ImguiOrthoUniform, LibDescriptorSets,
    NULL_TEXTURE_ID,
};
use riri_imgui_vulkano::error::LibError;
use riri_imgui_vulkano::shaders::{
    plan_shader_load, shader_file_names, spirv_words, spirv_words_in_order, AppShader, LibShaderRegistry,
    ShaderLoadPlan, ShaderRegistry,
};

#[test]
fn descriptor_get_after_insert_and_remove() {
    let mut d: LibDescriptorSets<u8, &str> = LibDescriptorSets::new(7);
    assert_eq!(*d.allocator(), 7);
    assert!(matches!(d.get(5), Err(LibError::MissingDescriptorSet(5))));
    d.insert(5, "five");
    d.insert(6, "six");
    assert_eq!(d.get(5).ok(), Some(&"five"));
    assert!(d.contains(6));
    d.insert(5, "FIVE");
    assert_eq!(d.get(5).ok(), Some(&"FIVE"));
    d.remove(5);
    assert!(matches!(d.get(5), Err(LibError::MissingDescriptorSet(5))));
    assert_eq!(d.get(6).ok(), Some(&"six"));
    d.remove(99);
    assert_eq!(d.get(6).ok(), Some(&"six"));
}

#[test]
fn uniforms_replace_their_previous_set() {
    let mut d: LibDescriptorSets<(), u32> = LibDescriptorSets::new(());
    let mut ortho = ImguiOrthoUniform::new();
    assert_eq!(ortho.get(), NULL_TEXTURE_ID);
    d.insert(0, 100);
    ortho.create_descriptor_set(&mut d, 10, 1);
    assert_eq!(ortho.get(), 10);
    // the null identifier is never removed
    assert_eq!(d.get(0).ok(), Some(&100));
    ortho.create_descriptor_set(&mut d, 11, 2);
    assert_eq!(ortho.get(), 11);
    assert!(d.get(10).is_err());
    assert_eq!(d.get(11).ok(), Some(&2));

    let mut mvp = Basic3dMVPUniform::new();
    assert_eq!(mvp.get(), 0);
    mvp.create_descriptor_set(&mut d, 20, 3);
    mvp.create_descriptor_set(&mut d, 21, 4);
    assert!(d.get(20).is_err());
    assert_eq!(d.get(21).ok(), Some(&4));
    assert_eq!(d.get(11).ok(), Some(&2));
}

#[test]
fn font_texture_registration() {
    let mut d: LibDescriptorSets<(), u32> = LibDescriptorSets::new(());
    assert_eq!(ImguiFontBuilder::register_font(&mut d, 0, 30, 9), 30);
    assert_eq!(ImguiFontBuilder::register_font(&mut d, 30, 31, 10), 31);
    assert!(d.get(30).is_err());
    assert_eq!(d.get(31).ok(), Some(&10));
}

fn shader(name: &str, code: Vec<u32>) -> AppShader {
    AppShader::from_bytecode(code, Some(name.to_string()), "main".to_string(), None)
}

#[test]
fn shader_registry_lookup() {
    let mut r = LibShaderRegistry::default();
    assert!(r.get("imgui.vs").is_none());
    r.insert(shader("imgui.vs", vec![1]));
    r.insert(shader("imgui.ps", vec![2]));
    assert_eq!(r.get("imgui.vs").unwrap().code(), &vec![1]);
    r.insert(shader("imgui.vs", vec![3]));
    assert_eq!(r.get("imgui.vs").unwrap().code(), &vec![3]);
    let (v, p) = r.try_get_vertex_pixel("imgui.vs", "imgui.ps").unwrap();
    assert_eq!((v.filename(), p.filename()), ("imgui.vs", "imgui.ps"));
    assert_eq!(v.entry_point_name(), "main");
    assert!(v.module().is_none());
    match r.try_get_vertex_pixel("basic3d.vs", "imgui.ps") {
        Err(LibError::CouldNotFindShader(n)) => assert_eq!(n, "basic3d.vs"),
        _ => panic!("expected a missing vertex shader"),
    }
    match r.try_get_vertex_pixel("imgui.vs", "basic3d.ps") {
        Err(LibError::CouldNotFindShader(n)) => assert_eq!(n, "basic3d.ps"),
        _ => panic!("expected a missing pixel shader"),
    }
}

#[test]
fn unnamed_shader() {
    let s = AppShader::from_bytecode(vec![], None, "main".to_string(), None);
    assert_eq!(s.filename(), "No Name");
}

#[test]
fn shader_files() {
    let f = shader_file_names("imgui.vs").ok().unwrap();
    assert_eq!((f.extension.as_str(), f.bytecode.as_str(), f.source.as_str()), ("vs", "imgui.vs.spv", "imgui.vs.glsl"));
    let f = shader_file_names("a.b.ps").ok().unwrap();
    assert_eq!(f.extension, "ps");
    let f = shader_file_names("trailing.").ok().unwrap();
    assert_eq!((f.extension.as_str(), f.bytecode.as_str()), ("", "trailing..spv"));
    assert!(matches!(shader_file_names("noext"), Err(LibError::NoFileExtensionOnShader)));
    assert!(matches!(shader_file_names(".hidden"), Err(LibError::NoFileExtensionOnShader)));
    assert!(matches!(shader_file_names(".."), Err(LibError::NoFileExtensionOnShader)));
}

#[test]
fn shader_file_names_agree_with_std_paths() {
    for name in ["imgui.vs", "a.b.ps", "trailing.", ".hidden", "noext", "..."] {
        let p = std::path::Path::new(name);
        let ext = p.extension().map(|e| e.to_str().unwrap().to_string());
        match shader_file_names(name) {
            Ok(f) => {
                assert_eq!(Some(f.extension.clone()), ext);
                let expect = p.with_extension(format!("{}.spv", f.extension));
                assert_eq!(std::path::Path::new(&f.bytecode), expect.as_path());
                let expect = p.with_extension(format!("{}.glsl", f.extension));
                assert_eq!(std::path::Path::new(&f.source), expect.as_path());
            }
            Err(_) => assert_eq!(ext, None),
        }
    }
}

#[test]
fn shader_load_plans() {
    assert_eq!(plan_shader_load(false, true), ShaderLoadPlan::CompileThenLoad);
    assert_eq!(plan_shader_load(true, true), ShaderLoadPlan::Load);
    assert_eq!(plan_shader_load(true, false), ShaderLoadPlan::Load);
    assert_eq!(plan_shader_load(false, false), ShaderLoadPlan::Missing);
}

#[test]
fn spirv_words_are_in_native_order() {
    let bytes = vec![0x03, 0x02, 0x23, 0x07, 0x00, 0x00, 0x01, 0x00];
    let expected = vec![
        u32::from_ne_bytes([0x03, 0x02, 0x23, 0x07]),
        u32::from_ne_bytes([0x00, 0x00, 0x01, 0x00]),
    ];
    assert_eq!(spirv_words(&bytes).ok(), Some(expected));
    assert_eq!(spirv_words(&vec![]).ok(), Some(vec![]));
    assert!(matches!(spirv_words(&vec![1, 2, 3]), Err(LibError::InvalidFileSizeForSpirvBytecode(3))));
}

#[test]
fn spirv_words_in_either_order() {
    let bytes = vec![0x03, 0x02, 0x23, 0x07, 0x00, 0x00, 0x01, 0x00];
    assert_eq!(spirv_words_in_order(&bytes, true).ok(), Some(vec![0x07230203, 0x00010000]));
    assert_eq!(spirv_words_in_order(&bytes, false).ok(), Some(vec![0x03022307, 0x00000100]));
    assert!(matches!(
        spirv_words_in_order(&vec![1, 2, 3, 4, 5], true),
        Err(LibError::InvalidFileSizeForSpirvBytecode(5))
    ));
}

#[test]
fn release_removes_all_but_the_null_set() {
    let mut d: LibDescriptorSets<(), u8> = LibDescriptorSets::new(());
    d.insert(NULL_TEXTURE_ID, 1);
    d.insert(9, 2);
    d.release(NULL_TEXTURE_ID);
    assert_eq!(d.get(NULL_TEXTURE_ID).ok(), Some(&1));
    d.release(9);
    assert!(matches!(d.get(9), Err(LibError::MissingDescriptorSet(9))));
    assert_eq!(d.get(NULL_TEXTURE_ID).ok(), Some(&1));
}
