//! Tests of the planning pieces: buffers, memory types, swapchain
//! configuration, pipeline descriptions, drawing data, and the small helpers.

use gfx_core::FRAMES_IN_FLIGHT;
use gfx_core::adapter::{AdapterDesc, QueueFamilyDesc, find_adapter, find_queue_family};
use gfx_core::array_size;
use gfx_core::buffer_info::BufferInfo;
use gfx_core::drawing::{
    ClearColorBits, RenderCommand, Vec2Bits, quad_index_bytes, quad_vertex_bytes, record_commands,
};
use gfx_core::error::RenderError;
use gfx_core::flight;
use gfx_core::full_flight;
use gfx_core::memory::{MemoryRequirements, MemoryType, find_memory_type};
use gfx_core::pipeline_info::{PipelineInfo, PolygonMode, RectArea};
use gfx_core::swapchain::{
    ColorFormat, Extent2d, FrameTargets, PresentMode, SurfaceCaps, render_pass_desc,
    swapchain_config_from_caps,
};
use gfx_core::teardown::{BufferId, TeardownStep};

fn reqs(size: u64, type_mask: u64) -> MemoryRequirements {
    MemoryRequirements { size, alignment: 4, type_mask }
}

#[test]
fn upload_read_back_is_byte_identical() {
    let types = vec![MemoryType { cpu_visible: true }];
    let mut buffer = BufferInfo::new(8, reqs(64, 1), &types).unwrap();
    let data: Vec<u8> = vec![10, 20, 30, 40, 50, 60, 70, 80];
    buffer.load_data(&data).unwrap();
    assert_eq!(buffer.contents, data);
}

#[test]
fn upload_overwrites_front_and_keeps_tail() {
    let types = vec![MemoryType { cpu_visible: true }];
    let mut buffer = BufferInfo::new(6, reqs(64, 1), &types).unwrap();
    buffer.load_data(&[9, 9, 9, 9, 9, 9]).unwrap();
    buffer.load_data(&[1, 2, 3]).unwrap();
    assert_eq!(buffer.contents, vec![1, 2, 3, 9, 9, 9]);
}

#[test]
fn buffer_creation_starts_zeroed_and_unfreed() {
    let types = vec![MemoryType { cpu_visible: true }];
    let buffer = BufferInfo::new(4, reqs(16, 1), &types).unwrap();
    assert_eq!(buffer.contents, vec![0, 0, 0, 0]);
    assert!(!buffer.freed);
    assert_eq!(buffer.memory_type_id, 0);
}

#[test]
fn buffer_creation_fails_without_cpu_visible_type() {
    let types = vec![MemoryType { cpu_visible: false }, MemoryType { cpu_visible: false }];
    let result = BufferInfo::new(4, reqs(16, 0b11), &types);
    assert_eq!(result.unwrap_err(), RenderError::NoCompatibleMemoryType);
}

#[test]
fn buffer_creation_fails_when_mask_excludes_visible_types() {
    // The only CPU-visible type is masked out.
    let types = vec![MemoryType { cpu_visible: true }, MemoryType { cpu_visible: false }];
    let result = BufferInfo::new(4, reqs(16, 0b10), &types);
    assert_eq!(result.unwrap_err(), RenderError::NoCompatibleMemoryType);
}

#[test]
fn buffer_free_destroys_buffer_then_memory_once() {
    let types = vec![MemoryType { cpu_visible: true }];
    let mut buffer = BufferInfo::new(4, reqs(16, 1), &types).unwrap();
    let steps = buffer.free(BufferId::Vertex);
    assert_eq!(
        steps,
        vec![
            TeardownStep::DestroyBuffer { id: BufferId::Vertex },
            TeardownStep::FreeMemory { id: BufferId::Vertex },
        ]
    );
    assert!(buffer.freed);
    let again = buffer.free(BufferId::Vertex);
    assert!(again.is_empty());
}

#[test]
fn memory_type_selection_takes_first_compatible_visible() {
    let types = vec![
        MemoryType { cpu_visible: false },
        MemoryType { cpu_visible: true },
        MemoryType { cpu_visible: true },
    ];
    // Bit 1 is masked out, so the first hit is index 2.
    assert_eq!(find_memory_type(0b101, &types), Some(2));
    // With every bit allowed the first visible type wins.
    assert_eq!(find_memory_type(0b111, &types), Some(1));
    // Nothing both compatible and visible.
    assert_eq!(find_memory_type(0b001, &types), None);
}

#[test]
fn swapchain_config_takes_capability_minimum_and_mailbox() {
    let caps = SurfaceCaps {
        min_image_count: 3,
        max_image_count: 8,
        current_extent: None,
        min_extent: Extent2d { width: 1, height: 1 },
        max_extent: Extent2d { width: 4096, height: 4096 },
        supports_mailbox: true,
    };
    let config = swapchain_config_from_caps(&caps, Extent2d { width: 800, height: 600 });
    assert_eq!(config.image_count, 3);
    assert_eq!(config.extent, Extent2d { width: 800, height: 600 });
    assert_eq!(config.present_mode, PresentMode::Mailbox);
    assert_eq!(config.format, ColorFormat::Rgba8Srgb);
    assert_eq!(config.image_layers, 1);
}

#[test]
fn swapchain_config_clamps_extent_and_falls_back_to_fifo() {
    let caps = SurfaceCaps {
        min_image_count: 2,
        max_image_count: 4,
        current_extent: None,
        min_extent: Extent2d { width: 16, height: 16 },
        max_extent: Extent2d { width: 1024, height: 1024 },
        supports_mailbox: false,
    };
    let config = swapchain_config_from_caps(&caps, Extent2d { width: 9999, height: 4 });
    assert_eq!(config.extent, Extent2d { width: 1024, height: 16 });
    assert_eq!(config.present_mode, PresentMode::Fifo);
}

#[test]
fn swapchain_config_honors_fixed_surface_extent() {
    let caps = SurfaceCaps {
        min_image_count: 2,
        max_image_count: 4,
        current_extent: Some(Extent2d { width: 640, height: 480 }),
        min_extent: Extent2d { width: 1, height: 1 },
        max_extent: Extent2d { width: 4096, height: 4096 },
        supports_mailbox: true,
    };
    let config = swapchain_config_from_caps(&caps, Extent2d { width: 800, height: 600 });
    assert_eq!(config.extent, Extent2d { width: 640, height: 480 });
}

#[test]
fn frame_targets_counts_match_image_count() {
    let targets = FrameTargets::new(3);
    assert_eq!(targets.image_count, 3);
    assert_eq!(targets.view_count, 3);
    assert_eq!(targets.framebuffer_count, 3);
}

#[test]
fn render_pass_has_one_clearing_presenting_attachment() {
    let d = render_pass_desc();
    assert_eq!(d.color_attachment_count, 1);
    assert_eq!(d.samples, 1);
    assert!(d.load_clear);
    assert!(d.store_preserve);
    assert!(d.initial_layout_undefined);
    assert!(d.final_layout_present);
    assert_eq!(d.subpass_count, 1);
}

#[test]
fn pipeline_creation_is_deterministic() {
    let viewport = RectArea { x: 0, y: 0, w: 800, h: 600 };
    let vert = vec![0x0723_0203u32, 42];
    let frag = vec![0x0723_0203u32, 7];
    let p1 = PipelineInfo::new(vert.clone(), frag.clone(), 0, viewport);
    let p2 = PipelineInfo::new(vert, frag, 0, viewport);
    assert_eq!(p1.desc, p2.desc);
    assert_eq!(p1.desc.vertex_buffers, p2.desc.vertex_buffers);
    assert_eq!(p1.desc.blend_targets, p2.desc.blend_targets);
}

#[test]
fn pipeline_desc_pins_vertex_layout_and_blending() {
    let viewport = RectArea { x: 0, y: 0, w: 800, h: 600 };
    let p = PipelineInfo::new(vec![1], vec![2], 0, viewport);
    assert_eq!(p.desc.vertex_buffers.len(), 1);
    assert_eq!(p.desc.vertex_buffers[0].binding, 0);
    assert_eq!(p.desc.vertex_buffers[0].stride, 8);
    assert_eq!(p.desc.attributes.len(), 1);
    assert_eq!(p.desc.attributes[0].location, 0);
    assert_eq!(p.desc.attributes[0].offset, 0);
    assert_eq!(p.desc.polygon_mode, PolygonMode::Fill);
    assert_eq!(p.desc.blend_targets.len(), 1);
    assert!(p.desc.blend_targets[0].alpha_blend);
    assert!(!p.desc.depth_test);
    assert_eq!(p.desc.viewport, viewport);
    assert_eq!(p.desc.scissor, viewport);
    assert_eq!(p.desc.push_constants.len(), 1);
    assert!(p.desc.push_constants[0].vertex_stage);
    assert_eq!(p.desc.push_constants[0].start_word, 0);
    assert_eq!(p.desc.push_constants[0].end_word, 2);
    assert_eq!(p.desc.descriptor_layouts.len(), 1);
    assert_eq!(p.desc.descriptor_layouts[0].binding_count, 0);
}

#[test]
fn pipeline_free_order_and_idempotence() {
    let mut p = PipelineInfo::new(vec![1], vec![2], 0, RectArea { x: 0, y: 0, w: 1, h: 1 });
    let steps = p.free();
    assert_eq!(
        steps,
        vec![
            TeardownStep::DestroyDescriptorSetLayout { index: 0 },
            TeardownStep::DestroyPipelineLayout,
            TeardownStep::DestroyGraphicsPipeline,
        ]
    );
    assert!(p.free().is_empty());
}

#[test]
fn quad_vertex_bytes_encode_the_four_corners() {
    let bytes = quad_vertex_bytes();
    let mut expected: Vec<u8> = Vec::new();
    for corner in [
        (-0.5f32, -0.5f32),
        (-0.5f32, 0.5f32),
        (0.5f32, 0.5f32),
        (0.5f32, -0.5f32),
    ] {
        expected.extend_from_slice(&corner.0.to_le_bytes());
        expected.extend_from_slice(&corner.1.to_le_bytes());
    }
    assert_eq!(bytes, expected);
    assert_eq!(bytes.len(), 32);
}

#[test]
fn quad_index_bytes_encode_two_triangles() {
    let bytes = quad_index_bytes();
    let mut expected: Vec<u8> = Vec::new();
    for index in [0u16, 1, 2, 0, 2, 3] {
        expected.extend_from_slice(&index.to_le_bytes());
    }
    assert_eq!(bytes, expected);
    assert_eq!(bytes.len(), 12);
}

#[test]
fn recorded_commands_follow_the_frame_recipe() {
    let clear = ClearColorBits {
        r_bits: 0.2f32.to_bits(),
        g_bits: 0.2f32.to_bits(),
        b_bits: 0.2f32.to_bits(),
        a_bits: 1.0f32.to_bits(),
    };
    let mouse = Vec2Bits { x_bits: 0.5f32.to_bits(), y_bits: 0.5f32.to_bits() };
    assert_eq!(mouse.x_bits, 0x3F00_0000);
    let commands = record_commands(2, clear, mouse);
    assert_eq!(
        commands,
        vec![
            RenderCommand::BeginRecording,
            RenderCommand::BindGraphicsPipeline,
            RenderCommand::BindVertexBuffer { binding: 0 },
            RenderCommand::BindIndexBufferU16,
            RenderCommand::PushMouseConstants { mouse },
            RenderCommand::BeginRenderPass { image_index: 2, clear },
            RenderCommand::DrawIndexed { first_index: 0, index_count: 6, instance_count: 1 },
            RenderCommand::EndRenderPass,
            RenderCommand::FinishRecording,
        ]
    );
}

#[test]
fn array_size_multiplies_len_by_element_size() {
    assert_eq!(array_size(&[0u16, 1, 2, 0, 2, 3]), 12);
    assert_eq!(array_size(&[0.5f32; 8]), 32);
    assert_eq!(array_size::<u64>(&[]), 0);
}

#[test]
fn flight_builds_one_per_frame_in_flight() {
    let made = flight(|| Ok(7u32)).unwrap();
    assert_eq!(made, vec![7; FRAMES_IN_FLIGHT]);
    let failed: Result<Vec<u32>, &'static str> = flight(|| Err("Could not create semaphore"));
    assert_eq!(failed.unwrap_err(), "Could not create semaphore");
}

#[test]
fn full_flight_matches_flight() {
    let made = full_flight(|| Ok("fence")).unwrap();
    assert_eq!(made.len(), FRAMES_IN_FLIGHT);
    let failed: Result<Vec<u8>, &'static str> = full_flight(|| Err("Could not create fence"));
    assert_eq!(failed.unwrap_err(), "Could not create fence");
}

#[test]
fn queue_family_selection_needs_graphics_and_presentation() {
    let families = vec![
        QueueFamilyDesc { supports_graphics: true, supports_presentation: false },
        QueueFamilyDesc { supports_graphics: false, supports_presentation: true },
        QueueFamilyDesc { supports_graphics: true, supports_presentation: true },
        QueueFamilyDesc { supports_graphics: true, supports_presentation: true },
    ];
    assert_eq!(find_queue_family(&families), Some(2));
    let unsuitable = vec![QueueFamilyDesc { supports_graphics: true, supports_presentation: false }];
    assert_eq!(find_queue_family(&unsuitable), None);
}

#[test]
fn adapter_selection_takes_the_first_suitable() {
    let compute_only = AdapterDesc {
        queue_families: vec![QueueFamilyDesc {
            supports_graphics: false,
            supports_presentation: true,
        }],
    };
    let good = AdapterDesc {
        queue_families: vec![
            QueueFamilyDesc { supports_graphics: false, supports_presentation: false },
            QueueFamilyDesc { supports_graphics: true, supports_presentation: true },
        ],
    };
    let adapters = vec![compute_only, good];
    assert_eq!(find_adapter(&adapters), Some(1));
    let none: Vec<AdapterDesc> = Vec::new();
    assert_eq!(find_adapter(&none), None);
}

#[test]
fn error_reasons_are_short_and_stable() {
    assert_eq!(
        RenderError::NoCompatibleMemoryType.reason(),
        "Failed to find a memory type to support the buffer"
    );
    assert_eq!(RenderError::MapFailed.reason(), "Failed to memory map buffer");
    assert_eq!(RenderError::StateFreed.reason(), "Use of freed render state");
    assert_eq!(
        RenderError::AcquireFailed.reason(),
        "Failed to acquire an image from the swapchain"
    );
}
