use riri_imgui_vulkano::commands::{
    plan_imgui_draw, CommandBufferUsage, DrawCommand, DrawListSummary, DrawStep, EndRenderPass,
    GpuCommandUsage, GpuCommandUsageAsync, GpuCommandUsageMultiple, GpuCommandUsageOnce,
    NextSubpass, ScissorRect,
};
use riri_imgui_vulkano::descriptors::LibDescriptorSets;
use riri_imgui_vulkano::geometry::{is_presentable_size, GeometryBufferBuilder, ScissorBuilder};
use riri_imgui_vulkano::selection::{
    first_min_index, select_best_device, select_surface_format, swapchain_min_image_count,
    DeviceCandidate, PhysicalDeviceKind, QueueFamilyCandidate, SurfaceFormatCandidate,
    SurfaceFormatKind,
};
use riri_imgui_vulkano::error::LibError;
use riri_imgui_vulkano::vertex::{draw_vert_members, CreateVertexMembers, VertexMemberLayout};

#[test]
fn usages_and_markers() {
    assert_eq!(GpuCommandUsageOnce::usage(), CommandBufferUsage::OneTimeSubmit);
    assert_eq!(GpuCommandUsageMultiple::usage(), CommandBufferUsage::MultipleSubmit);
    assert_eq!(GpuCommandUsageAsync::usage(), CommandBufferUsage::SimultaneousUse);
    assert_eq!(NextSubpass::new(), NextSubpass);
    assert_eq!(EndRenderPass::new(), EndRenderPass);
}

fn rect(x: u32) -> ScissorRect {
    ScissorRect { offset_x: x, offset_y: 0, width: 10, height: 10 }
}

fn elements(count: usize, texture_id: usize, vtx_offset: usize, idx_offset: usize, scissor: Option<ScissorRect>) -> DrawCommand {
    DrawCommand::Elements { count, texture_id, vtx_offset, idx_offset, scissor }
}

#[test]
fn imgui_draw_plan() {
    let mut d: LibDescriptorSets<(), ()> = LibDescriptorSets::new(());
    d.insert(1, ());
    d.insert(2, ());
    let lists = vec![
        DrawListSummary {
            vtx_len: 100,
            idx_len: 300,
            commands: vec![
                elements(6, 1, 0, 0, Some(rect(0))),
                elements(3, 1, 4, 6, Some(rect(1))),
                elements(9, 2, 0, 9, None),
                elements(3, 7, 0, 12, Some(rect(2))),
                DrawCommand::ResetRenderState,
            ],
        },
        DrawListSummary {
            vtx_len: 10,
            idx_len: 30,
            commands: vec![elements(12, 2, 5, 3, Some(rect(3))), DrawCommand::RawCallback],
        },
    ];
    let steps = plan_imgui_draw(&lists, &d);
    assert_eq!(
        steps,
        vec![
            DrawStep::SetScissor(rect(0)),
            DrawStep::BindTexture(1),
            DrawStep::DrawIndexed { index_count: 6, first_index: 0, vertex_offset: 0 },
            DrawStep::SetScissor(rect(1)),
            DrawStep::DrawIndexed { index_count: 3, first_index: 6, vertex_offset: 4 },
            // texture 7 is not registered: drawn with the texture bound before
            DrawStep::SetScissor(rect(2)),
            DrawStep::DrawIndexed { index_count: 3, first_index: 12, vertex_offset: 0 },
            DrawStep::ResetRenderState,
            DrawStep::SetScissor(rect(3)),
            DrawStep::BindTexture(2),
            DrawStep::DrawIndexed { index_count: 12, first_index: 303, vertex_offset: 105 },
            DrawStep::RawCallback { list: 1, command: 1 },
        ]
    );
    assert_eq!(plan_imgui_draw(&vec![], &d), vec![]);
}

#[test]
fn first_minimum_is_chosen() {
    assert_eq!(first_min_index(&vec![None, Some(3), Some(1), Some(1), None]), Some(2));
    assert_eq!(first_min_index(&vec![None, None]), None);
    assert_eq!(first_min_index(&vec![]), None);
}

fn q(flags: bool, surface: bool) -> QueueFamilyCandidate {
    QueueFamilyCandidate { has_required_flags: flags, surface_supported: surface }
}

#[test]
fn device_selection() {
    let devices = vec![
        DeviceCandidate { supports_extensions: true, kind: PhysicalDeviceKind::Cpu, queue_families: vec![q(true, true)] },
        DeviceCandidate { supports_extensions: false, kind: PhysicalDeviceKind::DiscreteGpu, queue_families: vec![q(true, true)] },
        DeviceCandidate { supports_extensions: true, kind: PhysicalDeviceKind::IntegratedGpu, queue_families: vec![q(true, false), q(false, true), q(true, true), q(true, true)] },
        DeviceCandidate { supports_extensions: true, kind: PhysicalDeviceKind::IntegratedGpu, queue_families: vec![q(true, true)] },
        DeviceCandidate { supports_extensions: true, kind: PhysicalDeviceKind::DiscreteGpu, queue_families: vec![q(false, true)] },
    ];
    assert_eq!(select_best_device(&devices).ok(), Some((2, 2)));
    let none = vec![DeviceCandidate { supports_extensions: true, kind: PhysicalDeviceKind::DiscreteGpu, queue_families: vec![] }];
    assert!(matches!(select_best_device(&none), Err(LibError::NoSuitablePhysicalDevice)));
}

#[test]
fn surface_format_selection() {
    let f = |format, srgb_nonlinear| SurfaceFormatCandidate { format, srgb_nonlinear };
    let formats = vec![
        f(SurfaceFormatKind::Other, true),
        f(SurfaceFormatKind::B8G8R8A8Unorm, false),
        f(SurfaceFormatKind::R8G8B8A8Srgb, true),
        f(SurfaceFormatKind::R8G8B8A8Unorm, true),
        f(SurfaceFormatKind::R8G8B8A8Unorm, true),
    ];
    assert_eq!(select_surface_format(&formats).ok(), Some(3));
    assert!(matches!(
        select_surface_format(&vec![f(SurfaceFormatKind::B8G8R8A8Unorm, false)]),
        Err(LibError::NoSuitableSwapchainImageFormat)
    ));
    assert_eq!(swapchain_min_image_count(1), 2);
    assert_eq!(swapchain_min_image_count(3), 3);
}

#[test]
fn vertex_members() {
    let mut b = CreateVertexMembers::default();
    assert_eq!(b.create(12, 12), VertexMemberLayout { offset: 0, num_elements: 1, stride: 12 });
    assert_eq!(b.create(4, 4), VertexMemberLayout { offset: 12, num_elements: 1, stride: 4 });
    assert_eq!(b.offset(), 16);
    let (pos, uv, col) = draw_vert_members();
    assert_eq!((pos.offset, uv.offset, col.offset), (0, 8, 16));
    assert_eq!((pos.stride, uv.stride, col.stride), (8, 8, 4));
}

#[test]
fn buffers_are_combined() {
    assert_eq!(GeometryBufferBuilder::combine(&vec![vec![1u16, 2], vec![], vec![3]]), Some(vec![1, 2, 3]));
    assert_eq!(GeometryBufferBuilder::combine::<u16>(&vec![vec![], vec![]]), None);
    assert_eq!(GeometryBufferBuilder::combine::<u16>(&vec![]), None);
}

#[test]
fn scissors_and_sizes() {
    assert_eq!(ScissorBuilder::from_surface_size(1280, 720), ScissorRect { offset_x: 0, offset_y: 0, width: 1280, height: 720 });
    assert!(is_presentable_size(1, 1));
    assert!(!is_presentable_size(0, 720));
    assert!(!is_presentable_size(1280, 0));
}
