//! Lines drawn as instanced quads.
//!
//! Each line segment is one instance of a unit quad that the vertex shader
//! stretches between two neighbouring points of the vertex buffer. The two
//! pipelines differ in how far the instance buffers step from one instance
//! to the next: by one point for a strip, by two for independent segments.

use vstd::prelude::*;
use crate::buffer::{BufferId, BufferSlice, RawSlice};
use crate::fixed::Point2d;
use crate::pipelines::{uniform_offset, BindGroupId, DrawCommand, PipelineKind, MAX_UNIFORM_ID, UNIFORM_STRIDE};

verus! {

/// A colour with fixed-point channels between zero and one.
#[derive(Clone, Copy, Debug, PartialEq, Eq, Structural)]
pub struct Rgba {
    pub r: i64,
    pub g: i64,
    pub b: i64,
    pub a: i64,
}

/// The uniform block of one drawable of the line pipelines.
#[derive(Clone, Copy, Debug, PartialEq, Eq, Structural)]
pub struct LineUniform {
    pub color: Rgba,
    /// Zoom factor per axis, from data space to normalized device space.
    pub scale: Point2d,
    /// Pan offset in normalized device space.
    pub translate: Point2d,
    /// Line width per axis in normalized device space.
    pub line_scale: Point2d,
}

/// Number of vertices of the unit quad of a segment.
pub const SEGMENT_VERTICES: u32 = 6;

/// Size of a [`Point2d`] vertex in bytes.
pub const POINT_STRIDE: u32 = 8;

/// The unit quad that every line instance stretches: two triangles between
/// `x = 0` and `x = 1`, half a unit to either side of the line.
pub open spec fn segment_quad() -> Seq<Point2d> {
    let half: i64 = 500_000_000;
    let low: i64 = (-half) as i64;
    let one: i64 = 1_000_000_000;
    seq![
        Point2d { x: 0, y: low },
        Point2d { x: one, y: low },
        Point2d { x: one, y: half },
        Point2d { x: 0, y: low },
        Point2d { x: one, y: half },
        Point2d { x: 0, y: half },
    ]
}

/// The vertices of the unit quad, the contents of the segment buffer.
pub fn segment_vertices() -> (vertices: Vec<Point2d>)
    ensures
        vertices@ == segment_quad(),
        vertices@.len() == SEGMENT_VERTICES,
{
    let half: i64 = 500_000_000;
    let low: i64 = -500_000_000;
    let one: i64 = 1_000_000_000;
    let mut vertices: Vec<Point2d> = Vec::new();
    vertices.push(Point2d { x: 0, y: low });
    vertices.push(Point2d { x: one, y: low });
    vertices.push(Point2d { x: one, y: half });
    vertices.push(Point2d { x: 0, y: low });
    vertices.push(Point2d { x: one, y: half });
    vertices.push(Point2d { x: 0, y: half });
    assert(vertices@ =~= segment_quad());
    vertices
}

/// Keeps [`LineRenderer`] to the pipelines of this module.
pub trait Sealed {

}

/// A pipeline that draws lines out of a buffer of points.
pub trait LineRenderer: Sealed {
    /// How many points the instance buffers advance per line.
    spec fn multiplier() -> u32;

    /// The pipeline that is bound.
    spec fn pipeline() -> PipelineKind;

    /// How many points the instance buffers advance per line: 1 or 2.
    fn line_multiplier() -> (m: u32)
        ensures
            m == Self::multiplier(),
            1 <= m <= 2,
    ;

    /// The pipeline that is bound.
    fn pipeline_id() -> (p: PipelineKind)
        ensures
            p == Self::pipeline(),
    ;
}

/// Draws every two points as one independent segment.
#[derive(Clone, Copy, Debug)]
pub struct LinePipeline {}

/// Draws every point as the continuation of one connected line.
#[derive(Clone, Copy, Debug)]
pub struct LineStripPipeline {}

impl Sealed for LinePipeline {

}

impl Sealed for LineStripPipeline {

}

impl LineRenderer for LinePipeline {
    open spec fn multiplier() -> u32 {
        2
    }

    open spec fn pipeline() -> PipelineKind {
        PipelineKind::Line
    }

    fn line_multiplier() -> (m: u32) {
        2
    }

    fn pipeline_id() -> (p: PipelineKind) {
        PipelineKind::Line
    }
}

impl LineRenderer for LineStripPipeline {
    open spec fn multiplier() -> u32 {
        1
    }

    open spec fn pipeline() -> PipelineKind {
        PipelineKind::LineStrip
    }

    fn line_multiplier() -> (m: u32) {
        1
    }

    fn pipeline_id() -> (p: PipelineKind) {
        PipelineKind::LineStrip
    }
}

impl LinePipeline {
    /// The pipeline of independent segments.
    pub fn new() -> (pipeline: LinePipeline) {
        LinePipeline {  }
    }

    /// Binds the pipeline after the commands recorded so far.
    pub fn drawer(&self, commands: Vec<DrawCommand>) -> (drawer: LineDrawer)
        ensures
            drawer.wf(),
            drawer.step() == 2,
            drawer.recorded() == commands@ + line_setup(PipelineKind::Line),
    {
        LineDrawer::begin::<LinePipeline>(commands)
    }
}

impl LineStripPipeline {
    /// The pipeline of connected segments.
    pub fn new() -> (pipeline: LineStripPipeline) {
        LineStripPipeline {  }
    }

    /// Binds the pipeline after the commands recorded so far.
    pub fn drawer(&self, commands: Vec<DrawCommand>) -> (drawer: LineDrawer)
        ensures
            drawer.wf(),
            drawer.step() == 1,
            drawer.recorded() == commands@ + line_setup(PipelineKind::LineStrip),
    {
        LineDrawer::begin::<LineStripPipeline>(commands)
    }
}

/// The number of lines in `points` points: one less than the points of a
/// strip (none for an empty strip), half the points of independent segments.
pub open spec fn instance_count(multiplier: int, points: int) -> int {
    if multiplier == 1 {
        if points >= 1 {
            points - 1
        } else {
            0
        }
    } else {
        points / multiplier
    }
}

/// The unit quad of the line pipelines as a slice of its buffer.
pub open spec fn segment_slice() -> RawSlice {
    RawSlice {
        buf: BufferId::Segment,
        start: 0,
        end: (SEGMENT_VERTICES * POINT_STRIDE) as u64,
    }
}

/// The commands that start a line pipeline.
pub open spec fn line_setup(pipeline: PipelineKind) -> Seq<DrawCommand> {
    seq![
        DrawCommand::SetPipeline { pipeline },
        DrawCommand::SetVertexBuffer { slot: 0, slice: segment_slice() },
    ]
}

/// The commands that draw the points of `vertices` as lines.
pub open spec fn line_draw(multiplier: int, vertices: BufferSlice) -> Seq<DrawCommand> {
    let raw = RawSlice {
        buf: vertices.buf,
        start: (vertices.start * vertices.stride) as u64,
        end: (vertices.end * vertices.stride) as u64,
    };
    let points = if vertices.end >= vertices.start {
        vertices.end - vertices.start
    } else {
        0
    };
    seq![
        DrawCommand::SetVertexBuffer { slot: 1, slice: raw },
        DrawCommand::SetVertexBuffer { slot: 2, slice: raw },
        DrawCommand::Draw {
            vertices: SEGMENT_VERTICES,
            instances: instance_count(multiplier, points) as u32,
        },
    ]
}

/// Records the draw calls of a line pipeline.
#[derive(Debug)]
pub struct LineDrawer {
    multiplier: u32,
    commands: Vec<DrawCommand>,
}

impl LineDrawer {
    /// The commands recorded so far.
    pub closed spec fn recorded(self) -> Seq<DrawCommand> {
        self.commands@
    }

    /// How many points the instance buffers advance per line.
    pub closed spec fn step(self) -> int {
        self.multiplier as int
    }

    /// Whether the drawer belongs to one of the two line pipelines.
    pub closed spec fn wf(self) -> bool {
        1 <= self.multiplier <= 2
    }

    /// Binds pipeline `P` after the commands recorded so far.
    pub fn begin<P: LineRenderer>(commands: Vec<DrawCommand>) -> (drawer: LineDrawer)
        ensures
            drawer.wf(),
            drawer.step() == P::multiplier(),
            drawer.recorded() == commands@ + line_setup(P::pipeline()),
    {
        let mut commands = commands;
        let ghost before = commands@;
        commands.push(DrawCommand::SetPipeline { pipeline: P::pipeline_id() });
        commands.push(
            DrawCommand::SetVertexBuffer {
                slot: 0,
                slice: RawSlice {
                    buf: BufferId::Segment,
                    start: 0,
                    end: (SEGMENT_VERTICES * POINT_STRIDE) as u64,
                },
            },
        );
        assert(commands@ =~= before + line_setup(P::pipeline()));
        LineDrawer { multiplier: P::line_multiplier(), commands }
    }

    /// Selects the uniform block that the following draws read.
    pub fn set_bind_group(&mut self, uniform_id: u32)
        requires
            uniform_id <= MAX_UNIFORM_ID,
        ensures
            final(self).wf() == old(self).wf(),
            final(self).step() == old(self).step(),
            final(self).recorded() == old(self).recorded().push(
                DrawCommand::SetBindGroup {
                    group: BindGroupId::Line,
                    offset: uniform_offset(uniform_id as int) as u32,
                },
            ),
    {
        self.commands.push(
            DrawCommand::SetBindGroup {
                group: BindGroupId::Line,
                offset: uniform_id * UNIFORM_STRIDE,
            },
        );
    }

    /// Confines the following draws to a rectangle of pixels.
    pub fn set_scissor_rect(&mut self, x: u32, y: u32, width: u32, height: u32)
        ensures
            final(self).wf() == old(self).wf(),
            final(self).step() == old(self).step(),
            final(self).recorded() == old(self).recorded().push(
                DrawCommand::SetScissorRect { x, y, width, height },
            ),
    {
        self.commands.push(DrawCommand::SetScissorRect { x, y, width, height });
    }

    /// Draws the points of a slice as lines, one instance per line.
    pub fn draw(&mut self, vertices: BufferSlice)
        requires
            old(self).wf(),
        ensures
            final(self).wf(),
            final(self).step() == old(self).step(),
            final(self).recorded() == old(self).recorded() + line_draw(old(self).step(), vertices),
    {
        let ghost before = self.commands@;
        let raw = vertices.to_raw_slice();
        self.commands.push(DrawCommand::SetVertexBuffer { slot: 1, slice: raw });
        self.commands.push(DrawCommand::SetVertexBuffer { slot: 2, slice: raw });
        let points: u32 = vertices.len();
        let count: u32 = if self.multiplier == 1 {
            if points >= 1 {
                points - 1
            } else {
                0
            }
        } else {
            points / self.multiplier
        };
        self.commands.push(DrawCommand::Draw { vertices: SEGMENT_VERTICES, instances: count });
        assert(self.commands@ =~= before + line_draw(self.multiplier as int, vertices));
    }

    /// Hands back the commands.
    pub fn finish(self) -> (commands: Vec<DrawCommand>)
        ensures
            commands@ == self.recorded(),
    {
        self.commands
    }
}

} // verus!
