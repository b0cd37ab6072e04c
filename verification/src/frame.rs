//! The order of work in one frame.
//!
//! A frame has two render passes over the same target. The first clears the
//! target and draws the opaque geometry: border, data line, grid, and the
//! crosshair last so that it lies on top; the tick labels are flushed after
//! it. The second pass keeps what the first drew and lays the readout
//! backgrounds and the readouts over it. Both are submitted together, first
//! pass first, and the staging memory of the text is recycled afterwards.
//!
//! The backgrounds of the readouts are sized from the extent that the
//! readout text had when it was last laid out, so they trail the text by
//! one frame. This is deliberate: a frame never waits for a measurement of
//! its own text.

use vstd::prelude::*;
use crate::buffer::{Bound, BufferId, BufferSlice, BufferWrite};
use crate::chart::{Chart, Update, Viewport, BORDER_ID, CROSSHAIR_ID, GRID_ID, LINES_ID, N_BORDER_VERTICES, N_HOVER_VERTICES, N_HOVER_INDICES, INDEX_STRIDE, N_UI_VERTICES};
use crate::fixed::{add_spec, mul_div, mul_div_spec, sat_add, sat_sub, sub_spec, Point2d, UNIT};
use crate::pipelines::line::{line_draw, line_setup, LinePipeline, LineStripPipeline, POINT_STRIDE};
use crate::pipelines::mesh::{raw_of, MeshDrawer};
use crate::pipelines::{uniform_offset, BindGroupId, DrawCommand, IndexFormat, PipelineKind};
use crate::transform::{line_width, line_width_of};

verus! {

/// The texts of a chart that are laid out and drawn together.
#[derive(Clone, Copy, Debug, PartialEq, Eq, Structural)]
pub enum TextGroup {
    /// The tick labels of the horizontal axis.
    XTicks,
    /// The tick labels of the vertical axis.
    YTicks,
    /// The two readouts at the crosshair.
    Crosshair,
}

/// One step of a frame, in the order of execution.
#[derive(Clone, Copy, Debug, PartialEq, Eq, Structural)]
pub enum FrameStep {
    /// Starts a command encoder and a render pass on the frame's target.
    /// With `clear` the pass clears the target first, without it the pass
    /// keeps what is there.
    BeginPass { clear: bool },
    /// A call on the current render pass.
    Command { command: DrawCommand },
    /// Queues the sections of a group in the text layer.
    QueueText { group: TextGroup },
    /// Ends the current render pass.
    EndPass,
    /// Draws the queued text into the current encoder, on top of the
    /// target, and empties the queue.
    FlushText,
    /// Uploads a buffer region.
    Write { write: BufferWrite },
    /// Submits all encoders of the frame in the order they were started.
    Submit,
    /// Schedules the recycling of the staging memory of the text layer.
    RecycleStaging,
    /// Runs the scheduled tasks until none can make progress.
    RunUntilStalled,
}

/// Why no image could be acquired from the surface.
#[derive(Clone, Copy, Debug, PartialEq, Eq, Structural)]
pub enum SurfaceError {
    Lost,
    OutOfMemory,
    Outdated,
    Timeout,
}

/// What to do when no image could be acquired.
#[derive(Clone, Copy, Debug, PartialEq, Eq, Structural)]
pub enum Recovery {
    /// Configure the surface again with the size it had, then go on.
    Reconfigure,
    /// Give up and end the application.
    Exit,
    /// Drop this frame and try again with the next.
    Skip,
}

/// How to go on after a failed acquisition: a lost surface is configured
/// again, exhausted memory ends the application, anything else costs one
/// frame.
pub open spec fn recovery_for_spec(error: SurfaceError) -> Recovery {
    match error {
        SurfaceError::Lost => Recovery::Reconfigure,
        SurfaceError::OutOfMemory => Recovery::Exit,
        SurfaceError::Outdated => Recovery::Skip,
        SurfaceError::Timeout => Recovery::Skip,
    }
}

/// Decides how to go on after a failed acquisition.
pub fn recovery_for(error: SurfaceError) -> (recovery: Recovery)
    ensures
        recovery == recovery_for_spec(error),
{
    match error {
        SurfaceError::Lost => Recovery::Reconfigure,
        SurfaceError::OutOfMemory => Recovery::Exit,
        SurfaceError::Outdated => Recovery::Skip,
        SurfaceError::Timeout => Recovery::Skip,
    }
}

/// Whether a component has drawn all it had to draw in a pass.
#[derive(Clone, Copy, Debug, PartialEq, Eq, Structural)]
pub enum DrawControlFlow {
    /// Nothing is left to draw.
    Finished,
    /// Another round over the components is needed.
    DrawRequested,
}

impl DrawControlFlow {
    /// What a round over components that returned `flows` amounts to:
    /// another round is needed as soon as one of them asks for it.
    pub open spec fn merged(flows: Seq<DrawControlFlow>) -> DrawControlFlow {
        if exists|i: int| 0 <= i < flows.len() && flows[i] == DrawControlFlow::DrawRequested {
            DrawControlFlow::DrawRequested
        } else {
            DrawControlFlow::Finished
        }
    }

    /// Merges what the components of one round returned.
    pub fn merge(flows: &Vec<DrawControlFlow>) -> (flow: DrawControlFlow)
        ensures
            flow == Self::merged(flows@),
    {
        let mut i: usize = 0;
        while i < flows.len()
            invariant
                i <= flows@.len(),
                forall|k: int| 0 <= k < i ==> flows@[k] == DrawControlFlow::Finished,
            decreases flows@.len() - i,
        {
            match flows[i] {
                DrawControlFlow::DrawRequested => {
                    return DrawControlFlow::DrawRequested;
                },
                DrawControlFlow::Finished => {},
            }
            i = i + 1;
        }
        DrawControlFlow::Finished
    }
}

/// Padding around the readout text inside its background, in pixels.
pub const HOVER_PADDING: u32 = 10;

/// `a - b`, or zero where `b` exceeds `a`.
pub open spec fn minus_or_zero(a: int, b: int) -> int {
    if a >= b {
        a - b
    } else {
        0
    }
}

/// The rectangle of pixels inside the border, to which the data line is
/// confined.
pub open spec fn plot_scissor(view: Viewport) -> DrawCommand {
    DrawCommand::SetScissorRect {
        x: (view.margin + view.border_width / 2) as u32,
        y: (view.margin + view.border_width / 2) as u32,
        width: minus_or_zero(view.width - 2 * view.margin, view.border_width as int) as u32,
        height: minus_or_zero(view.height - 2 * view.margin, view.border_width as int) as u32,
    }
}

/// The elements `start..end` of the buffer `buf` with elements of `stride`
/// bytes.
pub open spec fn slice_of(buf: BufferId, stride: u32, start: int, end: int) -> BufferSlice {
    BufferSlice { buf, stride, start: start as u32, end: end as u32 }
}

/// The selection of uniform block `id` of the line pipelines.
pub open spec fn bind_line(id: usize) -> DrawCommand {
    DrawCommand::SetBindGroup { group: BindGroupId::Line, offset: uniform_offset(id as int) as u32 }
}

/// The two quads behind the readouts for backgrounds of `width` by `height`
/// pixels: each is centred on the pointer along its axis and fills the
/// margin across it. The coordinates that position a quad along the margin
/// stay as they are in `vertices`.
pub open spec fn hover_quads(vertices: Seq<Point2d>, width: u32, height: u32, view: Viewport) -> Seq<
    Point2d,
> {
    let half_width = mul_div_spec(width as int, view.pixel_scale.x as int, 2);
    let half_height = mul_div_spec(height as int, view.pixel_scale.y as int, 2);
    let left = sub_spec(0, half_width) as i64;
    let right = half_width as i64;
    let low = sub_spec(0, half_height) as i64;
    let high = half_height as i64;
    let inner_x = add_spec(-UNIT, line_width(view.margin, view.pixel_scale.x as int)) as i64;
    let inner_y = add_spec(-UNIT, line_width(view.margin, view.pixel_scale.y as int)) as i64;
    seq![
        Point2d { x: left, y: vertices[0].y },
        Point2d { x: right, y: vertices[1].y },
        Point2d { x: right, y: inner_y },
        Point2d { x: left, y: inner_y },
        Point2d { x: vertices[4].x, y: low },
        Point2d { x: inner_x, y: low },
        Point2d { x: inner_x, y: high },
        Point2d { x: vertices[7].x, y: high },
    ]
}

/// The steps that hand `commands` to the current render pass.
pub open spec fn as_steps(commands: Seq<DrawCommand>) -> Seq<FrameStep> {
    Seq::new(commands.len(), |i: int| FrameStep::Command { command: commands[i] })
}

fn append_commands(steps: &mut Vec<FrameStep>, commands: &Vec<DrawCommand>)
    ensures
        final(steps)@ == old(steps)@ + as_steps(commands@),
{
    let ghost before = steps@;
    let mut i: usize = 0;
    while i < commands.len()
        invariant
            i <= commands@.len(),
            steps@ == before + as_steps(commands@.subrange(0, i as int)),
        decreases commands@.len() - i,
    {
        steps.push(FrameStep::Command { command: commands[i] });
        assert(steps@ =~= before + as_steps(commands@.subrange(0, i + 1)));
        i = i + 1;
    }
    assert(commands@.subrange(0, i as int) =~= commands@);
}

impl Chart {
    /// The write of all vertices of the readout backgrounds.
    pub open spec fn hover_region() -> BufferWrite {
        BufferWrite {
            buffer: BufferId::HoverVertices,
            offset: 0,
            count: N_HOVER_VERTICES as u32,
            source: 0,
            byte_offset: 0,
            byte_len: (N_HOVER_VERTICES * POINT_STRIDE) as u64,
        }
    }

    /// The draw calls of the first pass: the border, then inside the
    /// scissor rectangle the data line, then the grid and the crosshair.
    pub open spec fn opaque_commands(self) -> Seq<DrawCommand> {
        let ui = BufferId::LineVertices;
        line_setup(PipelineKind::LineStrip) + seq![bind_line(BORDER_ID)] + line_draw(
            1,
            slice_of(ui, POINT_STRIDE, 0, N_BORDER_VERTICES as int),
        ) + seq![plot_scissor(self.view), bind_line(LINES_ID)] + line_draw(
            1,
            slice_of(ui, POINT_STRIDE, self.data_base(), self.line_vertices@.len() as int),
        ) + line_setup(PipelineKind::Line) + seq![bind_line(GRID_ID)] + line_draw(
            2,
            slice_of(ui, POINT_STRIDE, N_UI_VERTICES as int, self.data_base()),
        ) + seq![bind_line(CROSSHAIR_ID)] + line_draw(
            2,
            slice_of(ui, POINT_STRIDE, N_BORDER_VERTICES as int, N_UI_VERTICES as int),
        )
    }

    /// The draw calls of the second pass: the background of the horizontal
    /// readout, then that of the vertical readout, each one quad drawn
    /// at its own instance offset.
    pub open spec fn overlay_commands() -> Seq<DrawCommand> {
        let quads = BufferId::HoverVertices;
        let offsets = BufferId::MeshInstances;
        seq![
            DrawCommand::SetPipeline { pipeline: PipelineKind::Mesh },
            DrawCommand::SetBindGroup { group: BindGroupId::Mesh, offset: 0 },
            DrawCommand::SetVertexBuffer {
                slot: 0,
                slice: raw_of(slice_of(quads, POINT_STRIDE, 0, 4)),
            },
            DrawCommand::SetIndexBuffer {
                slice: raw_of(
                    slice_of(BufferId::HoverIndices, INDEX_STRIDE, 0, N_HOVER_INDICES as int),
                ),
                format: IndexFormat::Uint16,
            },
            DrawCommand::SetVertexBuffer {
                slot: 1,
                slice: raw_of(slice_of(offsets, POINT_STRIDE, 0, 1)),
            },
            DrawCommand::DrawIndexed { indices: N_HOVER_INDICES as u32, instances: 1 },
            DrawCommand::SetVertexBuffer {
                slot: 0,
                slice: raw_of(slice_of(quads, POINT_STRIDE, 4, N_HOVER_VERTICES as int)),
            },
            DrawCommand::SetVertexBuffer {
                slot: 1,
                slice: raw_of(slice_of(offsets, POINT_STRIDE, 1, 2)),
            },
            DrawCommand::DrawIndexed { indices: N_HOVER_INDICES as u32, instances: 1 },
        ]
    }

    /// The steps of a frame of this chart.
    pub open spec fn frame_steps(self) -> Seq<FrameStep> {
        seq![FrameStep::BeginPass { clear: true }] + as_steps(self.opaque_commands()) + seq![
            FrameStep::QueueText { group: TextGroup::XTicks },
            FrameStep::QueueText { group: TextGroup::YTicks },
            FrameStep::EndPass,
            FrameStep::FlushText,
            FrameStep::BeginPass { clear: false },
            FrameStep::Write { write: Self::hover_region() },
        ] + as_steps(Self::overlay_commands()) + seq![
            FrameStep::QueueText { group: TextGroup::Crosshair },
            FrameStep::EndPass,
            FrameStep::FlushText,
            FrameStep::Submit,
            FrameStep::RecycleStaging,
            FrameStep::RunUntilStalled,
        ]
    }

    /// Whether `self` differs from `other` at most in the readout
    /// backgrounds.
    pub open spec fn same_but_hover(self, other: Chart) -> bool {
        &&& self.view == other.view
        &&& self.uniforms == other.uniforms
        &&& self.line_vertices == other.line_vertices
        &&& self.x_sections == other.x_sections
        &&& self.y_sections == other.y_sections
        &&& self.buffers == other.buffers
        &&& self.left_hold == other.left_hold
        &&& self.pointer == other.pointer
        &&& self.crosshair.mouse_pos == other.crosshair.mouse_pos
        &&& self.crosshair.sections == other.crosshair.sections
        &&& self.crosshair.mesh_uniforms == other.crosshair.mesh_uniforms
        &&& self.crosshair.mesh_instance_positions == other.crosshair.mesh_instance_positions
    }

    /// Fits the two readout backgrounds to the current hover extents and
    /// screen.
    pub fn update_bg_hover(&mut self) -> (write: BufferWrite)
        requires
            old(self).view.wf(),
            old(self).layout_wf(),
        ensures
            final(self).same_but_hover(*old(self)),
            final(self).crosshair.x_hover_width == old(self).crosshair.x_hover_width,
            final(self).crosshair.y_hover_height == old(self).crosshair.y_hover_height,
            final(self).crosshair.hover_vertices@ == hover_quads(
                old(self).crosshair.hover_vertices@,
                old(self).crosshair.x_hover_width,
                old(self).crosshair.y_hover_height,
                old(self).view,
            ),
            write == Self::hover_region(),
            write.within(final(self).buffers.hover_vbo.capacity()),
    {
        let view = self.view;
        let half_width: i64 = mul_div(self.crosshair.x_hover_width as i64, view.pixel_scale.x, 2);
        let half_height: i64 = mul_div(
            self.crosshair.y_hover_height as i64,
            view.pixel_scale.y,
            2,
        );
        let left: i64 = sat_sub(0, half_width);
        let low: i64 = sat_sub(0, half_height);
        let inner_x: i64 = sat_add(-1_000_000_000, line_width_of(view.margin, view.pixel_scale.x));
        let inner_y: i64 = sat_add(-1_000_000_000, line_width_of(view.margin, view.pixel_scale.y));
        let v0: Point2d = self.crosshair.hover_vertices[0];
        let v1: Point2d = self.crosshair.hover_vertices[1];
        let v4: Point2d = self.crosshair.hover_vertices[4];
        let v7: Point2d = self.crosshair.hover_vertices[7];
        self.crosshair.hover_vertices.set(0, Point2d { x: left, y: v0.y });
        self.crosshair.hover_vertices.set(1, Point2d { x: half_width, y: v1.y });
        self.crosshair.hover_vertices.set(2, Point2d { x: half_width, y: inner_y });
        self.crosshair.hover_vertices.set(3, Point2d { x: left, y: inner_y });
        self.crosshair.hover_vertices.set(4, Point2d { x: v4.x, y: low });
        self.crosshair.hover_vertices.set(5, Point2d { x: inner_x, y: low });
        self.crosshair.hover_vertices.set(6, Point2d { x: inner_x, y: half_height });
        self.crosshair.hover_vertices.set(7, Point2d { x: v7.x, y: half_height });
        assert(self.crosshair.hover_vertices@ =~= hover_quads(
            old(self).crosshair.hover_vertices@,
            old(self).crosshair.x_hover_width,
            old(self).crosshair.y_hover_height,
            old(self).view,
        ));
        let write = self.buffers.hover_vbo.write_sliced(
            Bound::Unbounded,
            Bound::Unbounded,
            self.crosshair.hover_vertices.len(),
        );
        write.unwrap()
    }

    /// Lays out one frame.
    ///
    /// `readout_width` is the width in pixels that the text of the
    /// horizontal readout had when it was last laid out. The background of
    /// that readout is made that wide plus [`HOVER_PADDING`], and both
    /// backgrounds are fitted to the screen, before the steps are laid out.
    pub fn draw(&mut self, readout_width: u32) -> (steps: Vec<FrameStep>)
        requires
            old(self).wf(),
        ensures
            final(self).wf(),
            old(self).ticks_current() ==> final(self).ticks_current(),
            final(self).same_but_hover(*old(self)),
            final(self).crosshair.x_hover_width == (if readout_width + HOVER_PADDING <= u32::MAX {
                (readout_width + HOVER_PADDING) as u32
            } else {
                u32::MAX
            }),
            final(self).crosshair.y_hover_height == old(self).crosshair.y_hover_height,
            final(self).crosshair.hover_vertices@ == hover_quads(
                old(self).crosshair.hover_vertices@,
                final(self).crosshair.x_hover_width,
                final(self).crosshair.y_hover_height,
                final(self).view,
            ),
            steps@ == final(self).frame_steps(),
    {
        let mut steps: Vec<FrameStep> = Vec::new();
        steps.push(FrameStep::BeginPass { clear: true });
        let view = self.view;
        let ui = self.buffers.line_vbo;
        let mut lines = LineStripPipeline::new().drawer(Vec::new());
        lines.set_bind_group(BORDER_ID as u32);
        lines.draw(ui.slice(Bound::Unbounded, Bound::Excluded(N_BORDER_VERTICES as u32)).unwrap());
        let inside: u32 = view.margin + view.border_width / 2;
        let across: u32 = view.width - 2 * view.margin;
        let down: u32 = view.height - 2 * view.margin;
        lines.set_scissor_rect(
            inside,
            inside,
            if across >= view.border_width {
                across - view.border_width
            } else {
                0
            },
            if down >= view.border_width {
                down - view.border_width
            } else {
                0
            },
        );
        lines.set_bind_group(LINES_ID as u32);
        let data_base: u32 = (N_UI_VERTICES + 2 * self.x_sections.len() + 2
            * self.y_sections.len()) as u32;
        lines.draw(ui.slice(Bound::Included(data_base), Bound::Unbounded).unwrap());
        let strip = lines.finish();
        let mut lines = LinePipeline::new().drawer(strip);
        lines.set_bind_group(GRID_ID as u32);
        lines.draw(
            ui.slice(Bound::Included(N_UI_VERTICES as u32), Bound::Excluded(data_base)).unwrap(),
        );
        lines.set_bind_group(CROSSHAIR_ID as u32);
        lines.draw(
            ui.slice(
                Bound::Included(N_BORDER_VERTICES as u32),
                Bound::Excluded(N_UI_VERTICES as u32),
            ).unwrap(),
        );
        let opaque = lines.finish();
        assert(opaque@ =~= self.opaque_commands());
        append_commands(&mut steps, &opaque);
        steps.push(FrameStep::QueueText { group: TextGroup::XTicks });
        steps.push(FrameStep::QueueText { group: TextGroup::YTicks });
        steps.push(FrameStep::EndPass);
        steps.push(FrameStep::FlushText);
        steps.push(FrameStep::BeginPass { clear: false });
        self.crosshair.x_hover_width = if readout_width <= u32::MAX - HOVER_PADDING {
            readout_width + HOVER_PADDING
        } else {
            u32::MAX
        };
        let hover = self.update_bg_hover();
        steps.push(FrameStep::Write { write: hover });
        let quads = self.buffers.hover_vbo;
        let offsets = self.buffers.mesh_instance_vbo;
        let mut mesh = MeshDrawer::begin(Vec::new());
        mesh.set_bind_group(0);
        mesh.set_vertices(quads.slice(Bound::Unbounded, Bound::Excluded(4)).unwrap());
        mesh.set_indices(
            self.buffers.hover_ibo.slice(Bound::Unbounded, Bound::Unbounded).unwrap(),
            IndexFormat::Uint16,
        );
        mesh.draw(offsets.slice(Bound::Unbounded, Bound::Excluded(1)).unwrap());
        mesh.set_vertices(quads.slice(Bound::Included(4), Bound::Unbounded).unwrap());
        mesh.draw(offsets.slice(Bound::Included(1), Bound::Excluded(2)).unwrap());
        assert(mesh.commands@ =~= Self::overlay_commands());
        append_commands(&mut steps, &mesh.commands);
        steps.push(FrameStep::QueueText { group: TextGroup::Crosshair });
        steps.push(FrameStep::EndPass);
        steps.push(FrameStep::FlushText);
        steps.push(FrameStep::Submit);
        steps.push(FrameStep::RecycleStaging);
        steps.push(FrameStep::RunUntilStalled);
        assert(steps@ =~= self.frame_steps());
        steps
    }
}


impl Chart {
    /// Reacts to a failed acquisition of the frame's image. After a lost
    /// surface the chart takes the size it has once more, which brings the
    /// uniform blocks of border and grid and the ticks to the GPU again;
    /// otherwise the chart stays as it is.
    pub fn recover(&mut self, error: SurfaceError) -> (r: (Recovery, Update))
        requires
            old(self).wf(),
        ensures
            final(self).wf(),
            r.0 == recovery_for_spec(error),
            error != SurfaceError::Lost ==> *final(self) == *old(self) && !r.1.accepted
                && r.1.writes@.len() == 0,
            error == SurfaceError::Lost ==> ({
                &&& r.1.accepted
                &&& final(self).ticks_current()
                &&& final(self).view == old(self).view
                &&& final(self).uniforms@ == crate::chart::resized_series(
                    old(self).uniforms@,
                    old(self).view,
                )
                &&& final(self).crosshair == old(self).crosshair
                &&& final(self).buffers == old(self).buffers
                &&& final(self).left_hold == old(self).left_hold
                &&& final(self).pointer == old(self).pointer
                &&& r.1.writes@ == seq![
                    Self::uniform_region(0, GRID_ID + 1),
                    old(self).tick_region(),
                ]
            }),
            final(self).writes_in_range(r.1.writes@),
    {
        let recovery = recovery_for(error);
        match recovery {
            Recovery::Reconfigure => {
                let update = self.resize(self.view.width, self.view.height);
                (recovery, update)
            },
            _ => (recovery, Update { accepted: false, writes: Vec::new() }),
        }
    }
}

} // verus!
