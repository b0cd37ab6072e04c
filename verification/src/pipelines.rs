//! The draw calls of the render pipelines, recorded as plain commands.
//!
//! Nothing here touches the GPU. A drawer appends to a list of
//! [`DrawCommand`]s what its pipeline would issue to a render pass; the
//! application replays the list against the pass.

use vstd::prelude::*;
use crate::buffer::RawSlice;

pub mod line;
pub mod mesh;

verus! {

/// Size of one uniform block in bytes: the alignment that the GPU demands of
/// a dynamic offset.
pub const UNIFORM_STRIDE: u32 = 256;

/// The render pipelines of a chart.
#[derive(Clone, Copy, Debug, PartialEq, Eq, Structural)]
pub enum PipelineKind {
    /// Independent segments: every two vertices are one line.
    Line,
    /// Connected segments: every vertex continues the line.
    LineStrip,
    /// Indexed triangles, drawn once per instance.
    Mesh,
}

/// The bind groups of a chart.
#[derive(Clone, Copy, Debug, PartialEq, Eq, Structural)]
pub enum BindGroupId {
    Line,
    Mesh,
}

/// The width of the indices in an index buffer.
#[derive(Clone, Copy, Debug, PartialEq, Eq, Structural)]
pub enum IndexFormat {
    Uint16,
    Uint32,
}

/// One call on a render pass.
#[derive(Clone, Copy, Debug, PartialEq, Eq, Structural)]
pub enum DrawCommand {
    SetPipeline { pipeline: PipelineKind },
    SetVertexBuffer { slot: u32, slice: RawSlice },
    SetIndexBuffer { slice: RawSlice, format: IndexFormat },
    /// Binds a group at index 0 with one dynamic offset, in bytes.
    SetBindGroup { group: BindGroupId, offset: u32 },
    SetScissorRect { x: u32, y: u32, width: u32, height: u32 },
    /// Draws the first `vertices` vertices for the first `instances`
    /// instances.
    Draw { vertices: u32, instances: u32 },
    /// Draws the first `indices` indices, from base vertex 0, for the first
    /// `instances` instances.
    DrawIndexed { indices: u32, instances: u32 },
}

/// The byte offset of uniform block `uniform_id`.
pub open spec fn uniform_offset(uniform_id: int) -> int {
    uniform_id * UNIFORM_STRIDE
}

/// The largest index of a uniform block whose offset is representable.
pub const MAX_UNIFORM_ID: u32 = 0x00ff_ffff;

} // verus!
