//! The graphics pipeline resource: compiled shader stages plus fixed-function
//! state, immutable once created.
//!
//! The description is a pure function of the shader binaries, the subpass and
//! the viewport rectangle, which makes pipeline creation deterministic.

use vstd::prelude::*;
use crate::teardown::TeardownStep;

verus! {

/// How a vertex buffer binding advances.
#[derive(Clone, Copy, Debug, PartialEq, Eq, Structural)]
pub enum VertexInputRate {
    /// One element per vertex.
    PerVertex,
}

/// One vertex buffer binding.
#[derive(Clone, Copy, Debug, PartialEq, Eq, Structural)]
pub struct VertexBufferDesc {
    /// Identifier of the binding, matched by attributes.
    pub binding: u32,
    /// Bytes between consecutive elements.
    pub stride: u32,
    /// How the binding advances.
    pub rate: VertexInputRate,
}

/// Format of one vertex attribute.
#[derive(Clone, Copy, Debug, PartialEq, Eq, Structural)]
pub enum AttributeFormat {
    /// Two 32-bit floats.
    Rg32Sfloat,
}

/// One vertex attribute as the shader sees it.
#[derive(Clone, Copy, Debug, PartialEq, Eq, Structural)]
pub struct AttributeDesc {
    /// Attribute location in the shader.
    pub location: u32,
    /// Vertex buffer binding the attribute reads from.
    pub binding: u32,
    /// Element format.
    pub format: AttributeFormat,
    /// Byte offset of the attribute within one element.
    pub offset: u32,
}

/// How assembled vertices form primitives.
#[derive(Clone, Copy, Debug, PartialEq, Eq, Structural)]
pub enum PrimitiveTopology {
    TriangleList,
}

/// How the rasterizer fills primitives.
#[derive(Clone, Copy, Debug, PartialEq, Eq, Structural)]
pub enum PolygonMode {
    /// Rasterize the whole interior.
    Fill,
}

/// One descriptor set layout of the pipeline layout. The harness binds no
/// resources yet, so its one layout is empty: a placeholder for future
/// texture and uniform bindings.
#[derive(Clone, Copy, Debug, PartialEq, Eq, Structural)]
pub struct DescriptorSetLayoutDesc {
    /// Number of descriptor bindings in the layout.
    pub binding_count: usize,
}

/// Blend state of the one color target.
#[derive(Clone, Copy, Debug, PartialEq, Eq, Structural)]
pub struct ColorBlendDesc {
    /// All color channels are written.
    pub write_all_channels: bool,
    /// Standard alpha blending is applied.
    pub alpha_blend: bool,
}

/// One push-constant range.
#[derive(Clone, Copy, Debug, PartialEq, Eq, Structural)]
pub struct PushConstantRange {
    /// The range is visible to the vertex stage.
    pub vertex_stage: bool,
    /// First 32-bit word of the range.
    pub start_word: u32,
    /// One past the last 32-bit word of the range.
    pub end_word: u32,
}

/// A pixel rectangle: the baked viewport and scissor.
#[derive(Clone, Copy, Debug, PartialEq, Eq, Structural)]
pub struct RectArea {
    pub x: i16,
    pub y: i16,
    pub w: i16,
    pub h: i16,
}

/// Everything a graphics pipeline is built from: shader binaries and
/// fixed-function state.
#[derive(Debug, PartialEq, Eq)]
pub struct PipelineDesc {
    /// Compiled vertex shader, as 32-bit words.
    pub vert_shader: Vec<u32>,
    /// Compiled fragment shader, as 32-bit words.
    pub frag_shader: Vec<u32>,
    /// Vertex buffer bindings.
    pub vertex_buffers: Vec<VertexBufferDesc>,
    /// Vertex attributes.
    pub attributes: Vec<AttributeDesc>,
    /// Primitive topology.
    pub primitive: PrimitiveTopology,
    /// Rasterization mode.
    pub polygon_mode: PolygonMode,
    /// Blend state, one entry per color target.
    pub blend_targets: Vec<ColorBlendDesc>,
    /// Descriptor set layouts of the pipeline layout.
    pub descriptor_layouts: Vec<DescriptorSetLayoutDesc>,
    /// Whether depth testing is enabled; never, in this harness.
    pub depth_test: bool,
    /// Baked viewport rectangle.
    pub viewport: RectArea,
    /// Baked scissor rectangle.
    pub scissor: RectArea,
    /// Push-constant ranges of the pipeline layout.
    pub push_constants: Vec<PushConstantRange>,
    /// Render pass subpass the pipeline is bound to.
    pub subpass_index: u32,
}

/// The exact pipeline description the harness builds: one vertex binding of
/// two tightly packed 32-bit floats (stride 8), one two-component float
/// attribute at location 0 and offset 0, triangle-list topology, fill
/// rasterization, one color target with standard alpha blending, no depth
/// test, baked viewport and scissor equal to the given rectangle, one empty
/// descriptor set layout, and one push-constant range of two 32-bit words on
/// the vertex stage for the mouse coordinates.
pub open spec fn spec_desc_matches(
    d: PipelineDesc,
    vert: Seq<u32>,
    frag: Seq<u32>,
    subpass_index: u32,
    viewport: RectArea,
) -> bool {
    &&& d.vert_shader@ == vert
    &&& d.frag_shader@ == frag
    &&& d.vertex_buffers@ == seq![
        (VertexBufferDesc { binding: 0, stride: 8, rate: VertexInputRate::PerVertex }),
    ]
    &&& d.attributes@ == seq![
        (AttributeDesc {
            location: 0,
            binding: 0,
            format: AttributeFormat::Rg32Sfloat,
            offset: 0,
        }),
    ]
    &&& d.primitive == PrimitiveTopology::TriangleList
    &&& d.polygon_mode == PolygonMode::Fill
    &&& d.blend_targets@ == seq![
        (ColorBlendDesc { write_all_channels: true, alpha_blend: true }),
    ]
    &&& d.descriptor_layouts@ == seq![(DescriptorSetLayoutDesc { binding_count: 0 })]
    &&& !d.depth_test
    &&& d.viewport == viewport
    &&& d.scissor == viewport
    &&& d.push_constants@ == seq![
        (PushConstantRange { vertex_stage: true, start_word: 0, end_word: 2 }),
    ]
    &&& d.subpass_index == subpass_index
}

/// The pipeline resource: its description and whether it has been released.
#[derive(Debug)]
pub struct PipelineInfo {
    /// What the pipeline was built from.
    pub desc: PipelineDesc,
    /// Whether the resource has been released.
    pub freed: bool,
}

/// The release plan of the pipeline resource: descriptor set layouts, then
/// the pipeline layout, then the pipeline handle.
pub open spec fn spec_pipeline_teardown(layout_count: nat) -> Seq<TeardownStep> {
    Seq::new(layout_count, |i: int| (TeardownStep::DestroyDescriptorSetLayout {
        index: i as usize,
    })) + seq![TeardownStep::DestroyPipelineLayout, TeardownStep::DestroyGraphicsPipeline]
}

impl PipelineInfo {
    /// Builds the pipeline description from the two compiled shader binaries,
    /// the subpass and the viewport rectangle, together with one empty
    /// descriptor set layout.
    pub fn new(
        vert_shader: Vec<u32>,
        frag_shader: Vec<u32>,
        subpass_index: u32,
        viewport: RectArea,
    ) -> (p: PipelineInfo)
        ensures
            spec_desc_matches(p.desc, vert_shader@, frag_shader@, subpass_index, viewport),
            !p.freed,
    {
        let mut vertex_buffers: Vec<VertexBufferDesc> = Vec::new();
        vertex_buffers.push(
            VertexBufferDesc { binding: 0, stride: 8, rate: VertexInputRate::PerVertex },
        );
        let mut attributes: Vec<AttributeDesc> = Vec::new();
        attributes.push(
            AttributeDesc { location: 0, binding: 0, format: AttributeFormat::Rg32Sfloat, offset: 0 },
        );
        let mut blend_targets: Vec<ColorBlendDesc> = Vec::new();
        blend_targets.push(ColorBlendDesc { write_all_channels: true, alpha_blend: true });
        let mut push_constants: Vec<PushConstantRange> = Vec::new();
        push_constants.push(PushConstantRange { vertex_stage: true, start_word: 0, end_word: 2 });
        let mut descriptor_layouts: Vec<DescriptorSetLayoutDesc> = Vec::new();
        descriptor_layouts.push(DescriptorSetLayoutDesc { binding_count: 0 });
        let desc = PipelineDesc {
            vert_shader,
            frag_shader,
            vertex_buffers,
            attributes,
            primitive: PrimitiveTopology::TriangleList,
            polygon_mode: PolygonMode::Fill,
            blend_targets,
            descriptor_layouts,
            depth_test: false,
            viewport,
            scissor: viewport,
            push_constants,
            subpass_index,
        };
        PipelineInfo { desc, freed: false }
    }

    /// Releases the resource: destroys the descriptor set layouts, then the
    /// pipeline layout, then the pipeline handle. Asking again after release
    /// is a no-op with an empty plan.
    pub fn free(&mut self) -> (steps: Vec<TeardownStep>)
        ensures
            final(self).freed,
            final(self).desc == old(self).desc,
            steps@ == if old(self).freed {
                Seq::<TeardownStep>::empty()
            } else {
                spec_pipeline_teardown(old(self).desc.descriptor_layouts@.len())
            },
    {
        let mut steps: Vec<TeardownStep> = Vec::new();
        if self.freed {
            return steps;
        }
        self.freed = true;
        let layout_count = self.desc.descriptor_layouts.len();
        let mut i: usize = 0;
        while i < layout_count
            invariant
                i <= layout_count,
                steps@ == Seq::new(i as nat, |j: int| (TeardownStep::DestroyDescriptorSetLayout {
                    index: j as usize,
                })),
            decreases layout_count - i,
        {
            steps.push(TeardownStep::DestroyDescriptorSetLayout { index: i });
            proof {
                assert(steps@ =~= Seq::new((i + 1) as nat, |j: int| (
                TeardownStep::DestroyDescriptorSetLayout { index: j as usize })));
            }
            i = i + 1;
        }
        steps.push(TeardownStep::DestroyPipelineLayout);
        steps.push(TeardownStep::DestroyGraphicsPipeline);
        proof {
            assert(steps@ =~= spec_pipeline_teardown(self.desc.descriptor_layouts@.len()));
        }
        steps
    }
}

/// Pipeline creation is deterministic: two pipelines built from identical
/// shader binaries, subpass and viewport are structurally equivalent — same
/// shaders, same vertex layout, same topology, same rasterization mode, same
/// blend state, same descriptor set layouts, same baked viewport and scissor,
/// same push-constant ranges.
pub proof fn lemma_pipeline_deterministic(
    d1: PipelineDesc,
    d2: PipelineDesc,
    vert: Seq<u32>,
    frag: Seq<u32>,
    subpass_index: u32,
    viewport: RectArea,
)
    requires
        spec_desc_matches(d1, vert, frag, subpass_index, viewport),
        spec_desc_matches(d2, vert, frag, subpass_index, viewport),
    ensures
        d1.vert_shader@ == d2.vert_shader@,
        d1.frag_shader@ == d2.frag_shader@,
        d1.vertex_buffers@ == d2.vertex_buffers@,
        d1.attributes@ == d2.attributes@,
        d1.primitive == d2.primitive,
        d1.polygon_mode == d2.polygon_mode,
        d1.blend_targets@ == d2.blend_targets@,
        d1.descriptor_layouts@ == d2.descriptor_layouts@,
        d1.depth_test == d2.depth_test,
        d1.viewport == d2.viewport,
        d1.scissor == d2.scissor,
        d1.push_constants@ == d2.push_constants@,
        d1.subpass_index == d2.subpass_index,
{
}

} // verus!
