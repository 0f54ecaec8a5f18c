//! Per-frame drawing data: the quad geometry as upload bytes, the
//! push-constant wire values, and the exact command sequence recorded into a
//! command buffer for one frame.

use vstd::prelude::*;

verus! {

/// Byte length of the quad vertex data: four vertices of two 32-bit floats.
pub const QUAD_VERTEX_BYTES: usize = 32;

/// Byte length of the quad index data: six 16-bit indices.
pub const QUAD_INDEX_BYTES: usize = 12;

/// The quad's four corner positions as the bit patterns of eight IEEE-754
/// single-precision floats: (-0.5,-0.5), (-0.5,0.5), (0.5,0.5), (0.5,-0.5).
pub open spec fn spec_quad_vertex_words() -> Seq<u32> {
    seq![
        0xBF00_0000u32, 0xBF00_0000u32,
        0xBF00_0000u32, 0x3F00_0000u32,
        0x3F00_0000u32, 0x3F00_0000u32,
        0x3F00_0000u32, 0xBF00_0000u32,
    ]
}

/// The quad vertex data as the bytes written into the vertex buffer: the
/// eight words of `spec_quad_vertex_words`, each in little-endian order.
pub open spec fn spec_quad_vertex_bytes() -> Seq<u8> {
    seq![
        0u8, 0u8, 0u8, 0xBFu8, 0u8, 0u8, 0u8, 0xBFu8,
        0u8, 0u8, 0u8, 0xBFu8, 0u8, 0u8, 0u8, 0x3Fu8,
        0u8, 0u8, 0u8, 0x3Fu8, 0u8, 0u8, 0u8, 0x3Fu8,
        0u8, 0u8, 0u8, 0x3Fu8, 0u8, 0u8, 0u8, 0xBFu8,
    ]
}

/// The quad's two triangles as 16-bit indices: 0 1 2, 0 2 3.
pub open spec fn spec_quad_index_values() -> Seq<u16> {
    seq![0u16, 1u16, 2u16, 0u16, 2u16, 3u16]
}

/// The quad index data as the bytes written into the index buffer: the six
/// indices of `spec_quad_index_values`, each in little-endian order.
pub open spec fn spec_quad_index_bytes() -> Seq<u8> {
    seq![0u8, 0u8, 1u8, 0u8, 2u8, 0u8, 0u8, 0u8, 2u8, 0u8, 3u8, 0u8]
}

/// The quad vertex upload bytes.
pub fn quad_vertex_bytes() -> (v: Vec<u8>)
    ensures
        v@ == spec_quad_vertex_bytes(),
        v@.len() == QUAD_VERTEX_BYTES,
{
    let mut v: Vec<u8> = Vec::new();
    let mut i: usize = 0;
    while i < 8
        invariant
            i <= 8,
            v@ == spec_quad_vertex_bytes().subrange(0, 4 * i as int),
        decreases 8 - i,
    {
        v.push(0u8);
        v.push(0u8);
        v.push(0u8);
        let high = if i == 0 || i == 1 || i == 2 || i == 7 {
            0xBFu8
        } else {
            0x3Fu8
        };
        v.push(high);
        proof {
            assert(v@ =~= spec_quad_vertex_bytes().subrange(0, 4 * (i + 1) as int));
        }
        i = i + 1;
    }
    proof {
        assert(v@ =~= spec_quad_vertex_bytes());
    }
    v
}

/// The vertex upload bytes are exactly the little-endian encoding of the
/// eight quad corner words: byte `4i` is the least significant byte of word
/// `i`, byte `4i + 3` its most significant one.
pub proof fn lemma_quad_bytes_encode_words()
    ensures
        spec_quad_vertex_bytes().len() == 4 * spec_quad_vertex_words().len(),
        forall|i: int| 0 <= i < spec_quad_vertex_words().len()
            ==> #[trigger] spec_quad_vertex_words()[i] == spec_quad_vertex_bytes()[4 * i]
                + 0x100 * spec_quad_vertex_bytes()[4 * i + 1]
                + 0x1_0000 * spec_quad_vertex_bytes()[4 * i + 2]
                + 0x100_0000 * spec_quad_vertex_bytes()[4 * i + 3],
{
    assert forall|i: int| 0 <= i < spec_quad_vertex_words().len()
        implies #[trigger] spec_quad_vertex_words()[i] == spec_quad_vertex_bytes()[4 * i]
            + 0x100 * spec_quad_vertex_bytes()[4 * i + 1]
            + 0x1_0000 * spec_quad_vertex_bytes()[4 * i + 2]
            + 0x100_0000 * spec_quad_vertex_bytes()[4 * i + 3] by {
        if i == 0 || i == 1 || i == 2 || i == 7 {
            assert(spec_quad_vertex_words()[i] == 0xBF00_0000u32);
        } else {
            assert(spec_quad_vertex_words()[i] == 0x3F00_0000u32);
        }
    }
}

/// The quad index upload bytes.
pub fn quad_index_bytes() -> (v: Vec<u8>)
    ensures
        v@ == spec_quad_index_bytes(),
        v@.len() == QUAD_INDEX_BYTES,
{
    let mut v: Vec<u8> = Vec::new();
    v.push(0u8);
    v.push(0u8);
    v.push(1u8);
    v.push(0u8);
    v.push(2u8);
    v.push(0u8);
    v.push(0u8);
    v.push(0u8);
    v.push(2u8);
    v.push(0u8);
    v.push(3u8);
    v.push(0u8);
    proof {
        assert(v@ =~= spec_quad_index_bytes());
    }
    v
}

/// The clear color for one frame: the bit patterns of four IEEE-754
/// single-precision floats (red, green, blue, alpha).
#[derive(Clone, Copy, Debug, PartialEq, Eq, Structural)]
pub struct ClearColorBits {
    pub r_bits: u32,
    pub g_bits: u32,
    pub b_bits: u32,
    pub a_bits: u32,
}

/// The push-constant payload: two 32-bit words holding the bit patterns of
/// the normalized mouse coordinates, pushed to the vertex stage at offset 0.
#[derive(Clone, Copy, Debug, PartialEq, Eq, Structural)]
pub struct Vec2Bits {
    pub x_bits: u32,
    pub y_bits: u32,
}

/// One command recorded into a primary command buffer.
#[derive(Clone, Copy, Debug, PartialEq, Eq, Structural)]
pub enum RenderCommand {
    /// Begin recording the primary command buffer.
    BeginRecording,
    /// Bind the graphics pipeline.
    BindGraphicsPipeline,
    /// Bind the vertex buffer at the given binding, offset 0.
    BindVertexBuffer { binding: u32 },
    /// Bind the index buffer with 16-bit indices, offset 0.
    BindIndexBufferU16,
    /// Push the mouse coordinates to the vertex stage at word offset 0.
    PushMouseConstants { mouse: Vec2Bits },
    /// Begin the render pass on the framebuffer of the given image, clearing
    /// its color attachment.
    BeginRenderPass { image_index: usize, clear: ClearColorBits },
    /// Issue the one indexed draw.
    DrawIndexed { first_index: u32, index_count: u32, instance_count: u32 },
    /// End the render pass.
    EndRenderPass,
    /// Finish recording.
    FinishRecording,
}

/// The exact command sequence of one frame: begin, bind pipeline, bind both
/// buffers, push the mouse constants, render pass with the frame's clear
/// color on the acquired image, one indexed draw of six indices and one
/// instance, end, finish.
pub open spec fn spec_record_commands(
    image_index: usize,
    clear: ClearColorBits,
    mouse: Vec2Bits,
) -> Seq<RenderCommand> {
    seq![
        RenderCommand::BeginRecording,
        RenderCommand::BindGraphicsPipeline,
        (RenderCommand::BindVertexBuffer { binding: 0 }),
        RenderCommand::BindIndexBufferU16,
        (RenderCommand::PushMouseConstants { mouse }),
        (RenderCommand::BeginRenderPass { image_index, clear }),
        (RenderCommand::DrawIndexed { first_index: 0, index_count: 6, instance_count: 1 }),
        RenderCommand::EndRenderPass,
        RenderCommand::FinishRecording,
    ]
}

/// Records the command sequence of one frame.
pub fn record_commands(image_index: usize, clear: ClearColorBits, mouse: Vec2Bits) -> (v: Vec<
    RenderCommand,
>)
    ensures
        v@ == spec_record_commands(image_index, clear, mouse),
{
    let mut v: Vec<RenderCommand> = Vec::new();
    v.push(RenderCommand::BeginRecording);
    v.push(RenderCommand::BindGraphicsPipeline);
    v.push(RenderCommand::BindVertexBuffer { binding: 0 });
    v.push(RenderCommand::BindIndexBufferU16);
    v.push(RenderCommand::PushMouseConstants { mouse });
    v.push(RenderCommand::BeginRenderPass { image_index, clear });
    v.push(RenderCommand::DrawIndexed { first_index: 0, index_count: 6, instance_count: 1 });
    v.push(RenderCommand::EndRenderPass);
    v.push(RenderCommand::FinishRecording);
    proof {
        assert(v@ =~= spec_record_commands(image_index, clear, mouse));
    }
    v
}

} // verus!
