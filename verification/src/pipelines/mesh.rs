//! Indexed meshes drawn once per instance.

use vstd::prelude::*;
use crate::buffer::{BufferSlice, RawSlice};
use crate::fixed::Point2d;
use crate::pipelines::line::Rgba;
use crate::pipelines::{uniform_offset, BindGroupId, DrawCommand, IndexFormat, PipelineKind, MAX_UNIFORM_ID, UNIFORM_STRIDE};

verus! {

/// The uniform block of one drawable of the mesh pipeline.
#[derive(Clone, Copy, Debug, PartialEq, Eq, Structural)]
pub struct MeshUniform {
    pub color: Rgba,
    pub scale: Point2d,
    pub translate: Point2d,
    pub mesh_scale: Point2d,
}

/// The bytes of a slice.
pub open spec fn raw_of(slice: BufferSlice) -> RawSlice {
    RawSlice {
        buf: slice.buf,
        start: (slice.start * slice.stride) as u64,
        end: (slice.end * slice.stride) as u64,
    }
}

/// The number of elements of a slice.
pub open spec fn len_of(slice: BufferSlice) -> int {
    if slice.end >= slice.start {
        slice.end - slice.start
    } else {
        0
    }
}

/// Records the draw calls of the mesh pipeline.
#[derive(Debug)]
pub struct MeshDrawer {
    pub commands: Vec<DrawCommand>,
    /// Number of vertices bound by the last [`MeshDrawer::set_vertices`].
    pub vertices_len: u32,
    /// Number of indices bound by the last [`MeshDrawer::set_indices`].
    pub indices_len: u32,
}

impl MeshDrawer {
    /// Binds the mesh pipeline after the commands recorded so far. No
    /// vertices and no indices are bound yet.
    pub fn begin(commands: Vec<DrawCommand>) -> (drawer: MeshDrawer)
        ensures
            drawer.commands@ == commands@.push(
                DrawCommand::SetPipeline { pipeline: PipelineKind::Mesh },
            ),
            drawer.vertices_len == 0,
            drawer.indices_len == 0,
    {
        let mut commands = commands;
        commands.push(DrawCommand::SetPipeline { pipeline: PipelineKind::Mesh });
        MeshDrawer { commands, vertices_len: 0, indices_len: 0 }
    }

    /// Binds the vertices of the mesh.
    pub fn set_vertices(&mut self, vertices: BufferSlice)
        ensures
            final(self).commands@ == old(self).commands@.push(
                DrawCommand::SetVertexBuffer { slot: 0, slice: raw_of(vertices) },
            ),
            final(self).vertices_len == len_of(vertices),
            final(self).indices_len == old(self).indices_len,
    {
        self.vertices_len = vertices.len();
        self.commands.push(DrawCommand::SetVertexBuffer { slot: 0, slice: vertices.to_raw_slice() });
    }

    /// Binds the indices of the mesh.
    pub fn set_indices(&mut self, indices: BufferSlice, format: IndexFormat)
        ensures
            final(self).commands@ == old(self).commands@.push(
                DrawCommand::SetIndexBuffer { slice: raw_of(indices), format },
            ),
            final(self).indices_len == len_of(indices),
            final(self).vertices_len == old(self).vertices_len,
    {
        self.indices_len = indices.len();
        self.commands.push(DrawCommand::SetIndexBuffer { slice: indices.to_raw_slice(), format });
    }

    /// Selects the uniform block that the following draws read.
    pub fn set_bind_group(&mut self, uniform_id: u32)
        requires
            uniform_id <= MAX_UNIFORM_ID,
        ensures
            final(self).commands@ == old(self).commands@.push(
                DrawCommand::SetBindGroup {
                    group: BindGroupId::Mesh,
                    offset: uniform_offset(uniform_id as int) as u32,
                },
            ),
            final(self).indices_len == old(self).indices_len,
            final(self).vertices_len == old(self).vertices_len,
    {
        self.commands.push(
            DrawCommand::SetBindGroup {
                group: BindGroupId::Mesh,
                offset: uniform_id * UNIFORM_STRIDE,
            },
        );
    }

    /// Draws all bound indices once for each instance of the slice.
    pub fn draw(&mut self, instances: BufferSlice)
        ensures
            final(self).commands@ == old(self).commands@ + seq![
                DrawCommand::SetVertexBuffer { slot: 1, slice: raw_of(instances) },
                DrawCommand::DrawIndexed {
                    indices: old(self).indices_len,
                    instances: len_of(instances) as u32,
                },
            ],
            final(self).indices_len == old(self).indices_len,
            final(self).vertices_len == old(self).vertices_len,
    {
        let ghost before = self.commands@;
        self.commands.push(DrawCommand::SetVertexBuffer { slot: 1, slice: instances.to_raw_slice() });
        self.commands.push(
            DrawCommand::DrawIndexed { indices: self.indices_len, instances: instances.len() },
        );
        assert(self.commands@ =~= before + seq![
            DrawCommand::SetVertexBuffer { slot: 1, slice: raw_of(instances) },
            DrawCommand::DrawIndexed {
                indices: self.indices_len,
                instances: len_of(instances) as u32,
            },
        ]);
    }
}

} // verus!
