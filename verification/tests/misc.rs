use riri_imgui_vulkano::commands::image_copy_size;
use riri_imgui_vulkano::fonts::font_key;
use riri_imgui_vulkano::selection::{get_all_suitable_devices, DeviceCandidate, PhysicalDeviceKind};
use riri_imgui_vulkano::shaders::{AppShader, PipelineLayoutBuilder};
use riri_imgui_vulkano::vertex::AppDrawData3D;

#[test]
fn font_keys() {
    assert_eq!(font_key("NotoSansCJKjp-Medium.otf"), "NotoSansCJKjp-Medium");
    assert_eq!(font_key("LibreBodoni-Bold.ttf"), "LibreBodoni-Bold");
    assert_eq!(font_key("a.b.c"), "a.b");
    assert_eq!(font_key("plain"), "plain");
    assert_eq!(font_key(".hidden"), "");
}

#[test]
fn copy_sizes() {
    assert_eq!(image_copy_size(16, 8, 4), 512);
    assert_eq!(image_copy_size(0, 8, 4), 0);
    assert_eq!(image_copy_size(3, 5, (1u64 << 32) | 2), 30);
}

#[test]
fn suitable_devices() {
    let d = |s| DeviceCandidate { supports_extensions: s, kind: PhysicalDeviceKind::Other, queue_families: vec![] };
    assert_eq!(get_all_suitable_devices(&vec![d(true), d(false), d(true)]), vec![0, 2]);
    assert_eq!(get_all_suitable_devices(&vec![]), Vec::<usize>::new());
}

#[test]
fn pipeline_layout_stages() {
    let v = AppShader::from_bytecode(vec![1], Some("x.vs".to_string()), "main".to_string(), None);
    let p = AppShader::from_bytecode(vec![2], Some("x.ps".to_string()), "main".to_string(), None);
    let b = PipelineLayoutBuilder::from_vertex_pixel((&v, &p));
    let s = b.shaders();
    assert_eq!((s[0].filename(), s[1].filename()), ("x.vs", "x.ps"));
    let b3 = PipelineLayoutBuilder::new([&v, &p, &v]);
    assert_eq!(b3.shaders().len(), 3);
}

#[test]
fn draw_data() {
    let d = AppDrawData3D::new(vec!['a', 'b'], vec![0, 1, 1]);
    assert_eq!(d.get_vertices(), &['a', 'b']);
    assert_eq!(d.get_indices(), &[0, 1, 1]);
    let e: AppDrawData3D<u8> = AppDrawData3D::empty();
    assert!(e.get_vertices().is_empty() && e.get_indices().is_empty());
}
