//! The chart: view transform, ticks, crosshair and their GPU buffers.
//!
//! A [`Chart`] owns the CPU-side copies of everything the GPU draws the
//! chart from. Every operation that changes state returns the regions of
//! the GPU buffers that no longer match those copies, so the application
//! uploads exactly what changed.

use vstd::prelude::*;
use crate::buffer::{Bound, Buffer, BufferId, BufferWrite};
use crate::components::scale::{compute_ticks, law_slots_suffice, Axis, Orientation, TickSet, MAX_EMITTED_TICKS};
use crate::fixed::{add_spec, div_spec, fixed_div, mul_div, mul_div_spec, sat_add, sat_sub, sub_spec, Point2d, UNIT};
use crate::label::{convert_to_text, label_text};
use crate::pipelines::line::{LineUniform, Rgba, POINT_STRIDE};
use crate::pipelines::mesh::MeshUniform;
use crate::pipelines::{MAX_UNIFORM_ID, UNIFORM_STRIDE};
use crate::transform::{inset_scale, inset_scale_of, law_pan_adds, law_zoom_inverts, line_width, line_width_of, pan_shift, pan_shift_of, pan_uniform, panned, scale_in_range, zoom_factor, zoom_factor_of, zoom_uniform, zoomed, MAX_SCALE, MIN_SCALE};

verus! {

/// Index of the uniform block of the border.
pub const BORDER_ID: usize = 0;

/// Index of the uniform block of the grid.
pub const GRID_ID: usize = 1;

/// Index of the uniform block of the crosshair.
pub const CROSSHAIR_ID: usize = 2;

/// Index of the uniform block of the first data series; the blocks of
/// further series follow it.
pub const LINES_ID: usize = 3;

/// Number of vertices of the border polyline.
pub const N_BORDER_VERTICES: usize = 5;

/// Number of vertices of the two crosshair lines.
pub const N_CROSSHAIR_VERTICES: usize = 4;

/// Number of vertices in front of the grid lines.
pub const N_UI_VERTICES: usize = N_BORDER_VERTICES + N_CROSSHAIR_VERTICES;

/// Most tick slots that an axis can have.
pub const MAX_TICK_SLOTS: usize = 0x00ff_ffff;

/// Largest width or height of a viewport, in pixels.
pub const MAX_EXTENT: u32 = 1_000_000;

/// A line of text and where it goes on screen.
#[derive(Debug)]
pub struct Section {
    /// Anchor of the text in pixels, from the top left corner.
    pub screen_position: Point2d,
    /// Extent that the text may take, in pixels.
    pub bounds: Point2d,
    pub text: String,
}

/// The screen that the chart is drawn on.
#[derive(Clone, Copy, Debug, PartialEq, Eq, Structural)]
pub struct Viewport {
    pub width: u32,
    pub height: u32,
    /// Inset of the plot area from each edge, in pixels.
    pub margin: u32,
    /// Width of the border line in pixels.
    pub border_width: u32,
    /// Width of the grid lines in pixels.
    pub grid_line_width: u32,
    /// Normalized device units per pixel, for each axis.
    pub pixel_scale: Point2d,
}

impl Viewport {
    /// Whether a viewport of this size leaves a plot area inside the margin
    /// and is small enough for a pixel to be a representable distance.
    pub open spec fn admits(width: u32, height: u32, margin: u32) -> bool {
        &&& width > 2 * margin
        &&& height > 2 * margin
        &&& width <= MAX_EXTENT
        &&& height <= MAX_EXTENT
    }

    /// Normalized device units per pixel of an extent of `pixels`.
    pub open spec fn pixel_scale_of(pixels: u32) -> int {
        2 * UNIT / (pixels as int)
    }

    /// Where the position `screen_space` of normalized device space lies
    /// on screen, in pixels from the top left corner: the corner `(-1, 1)`
    /// is pixel `(0, 0)`, the corner `(1, -1)` is pixel `(width, height)`.
    pub open spec fn pixel_of(self, screen_space: Point2d) -> Point2d {
        Point2d {
            x: div_spec(
                add_spec(screen_space.x as int, UNIT as int),
                self.pixel_scale.x as int,
            ) as i64,
            y: div_spec(
                sub_spec(UNIT as int, screen_space.y as int),
                self.pixel_scale.y as int,
            ) as i64,
        }
    }

    /// Converts a position of normalized device space to pixels from the
    /// top left corner of the screen.
    pub fn screen_to_pixel_space(&self, screen_space: Point2d) -> (pixel: Point2d)
        ensures
            pixel == self.pixel_of(screen_space),
    {
        Point2d {
            x: fixed_div(sat_add(screen_space.x, 1_000_000_000), self.pixel_scale.x),
            y: fixed_div(sat_sub(1_000_000_000, screen_space.y), self.pixel_scale.y),
        }
    }

    /// Converts a position in pixels from the top left corner of the
    /// screen to normalized device space.
    pub fn pixel_to_screen_space(&self, pixel_space: Point2d) -> (screen: Point2d)
        ensures
            screen == pointer_ndc(pixel_space, *self),
    {
        let height: i64 = (self.height as i64) * 1_000_000_000;
        Point2d {
            x: sat_sub(mul_div(pixel_space.x, 2, self.width as i64), 1_000_000_000),
            y: sat_sub(
                mul_div(sat_sub(height, pixel_space.y), 2, self.height as i64),
                1_000_000_000,
            ),
        }
    }

    /// Whether the size is admitted and the pixel scale belongs to it.
    pub open spec fn wf(self) -> bool {
        &&& Self::admits(self.width, self.height, self.margin)
        &&& self.pixel_scale.x == Self::pixel_scale_of(self.width)
        &&& self.pixel_scale.y == Self::pixel_scale_of(self.height)
    }
}

/// The zero vector.
pub open spec fn origin() -> Point2d {
    Point2d { x: 0, y: 0 }
}

/// The end `end` (0 or 1) of the grid line of a tick at screen position
/// `position`: the line spans the screen across the axis.
pub open spec fn tick_vertex(orientation: Orientation, position: int, end: int) -> Point2d {
    let across: int = if end == 0 {
        -UNIT
    } else {
        UNIT as int
    };
    match orientation {
        Orientation::Horizontal => Point2d { x: position as i64, y: across as i64 },
        Orientation::Vertical => Point2d { x: across as i64, y: position as i64 },
    }
}

/// Where the label of a tick at screen position `position` is anchored, in
/// pixels: below the plot for the horizontal axis, at the left edge for the
/// vertical one.
pub open spec fn label_anchor(orientation: Orientation, position: int, view: Viewport) -> Point2d {
    match orientation {
        Orientation::Horizontal => Point2d {
            x: div_spec(add_spec(position, UNIT as int), view.pixel_scale.x as int) as i64,
            y: div_spec(1_950_000_000, view.pixel_scale.y as int) as i64,
        },
        Orientation::Vertical => Point2d {
            x: 0,
            y: sub_spec(
                view.height * UNIT,
                div_spec(add_spec(position, UNIT as int), view.pixel_scale.y as int),
            ) as i64,
        },
    }
}

/// The extent that a tick label may take, in pixels, for ticks `spacing`
/// apart: the screen width divided by the number of ticks that fit across
/// the screen, and the screen height.
pub open spec fn label_bounds(spacing: int, view: Viewport) -> Point2d {
    Point2d {
        x: div_spec(view.width * UNIT, div_spec(2 * UNIT, spacing)) as i64,
        y: (view.height * UNIT) as i64,
    }
}

/// Whether a tick slot is cleared: its grid line is a point at the origin
/// and its label is empty.
pub open spec fn slot_cleared(near: Point2d, far: Point2d, section: Section) -> bool {
    &&& near == origin()
    &&& far == origin()
    &&& section.screen_position == origin()
    &&& section.bounds == origin()
    &&& section.text@ == Seq::<char>::empty()
}

/// Whether the `sections.len()` tick slots of an axis, whose grid lines
/// start at index `base` of `lines`, are all cleared.
pub open spec fn axis_cleared(lines: Seq<Point2d>, base: int, sections: Seq<Section>) -> bool {
    &&& 0 <= base
    &&& base + 2 * sections.len() <= lines.len()
    &&& forall|i: int|
        0 <= i < sections.len() ==> slot_cleared(
            lines[base + 2 * i],
            lines[base + 2 * i + 1],
            #[trigger] sections[i],
        )
}

/// Whether tick slot `i` of an axis with `slots` slots reflects the axis:
/// an emitted tick has its grid line and its label, any other slot is
/// cleared.
pub open spec fn slot_current(
    near: Point2d,
    far: Point2d,
    section: Section,
    axis: Axis,
    slots: int,
    i: int,
    orientation: Orientation,
    view: Viewport,
) -> bool {
    if i < axis.tick_count(slots) {
        &&& near == tick_vertex(orientation, axis.tick_position(i), 0)
        &&& far == tick_vertex(orientation, axis.tick_position(i), 1)
        &&& section.screen_position == label_anchor(orientation, axis.tick_position(i), view)
        &&& section.bounds == label_bounds(axis.tick_spacing(), view)
        &&& section.text@ == label_text(axis.tick_value(i))
    } else {
        slot_cleared(near, far, section)
    }
}

/// Whether the `sections.len()` tick slots of an axis, whose grid lines
/// start at index `base` of `lines`, all reflect the axis.
pub open spec fn axis_current(
    lines: Seq<Point2d>,
    base: int,
    sections: Seq<Section>,
    axis: Axis,
    orientation: Orientation,
    view: Viewport,
) -> bool {
    &&& 0 <= base
    &&& base + 2 * sections.len() <= lines.len()
    &&& forall|i: int|
        0 <= i < sections.len() ==> slot_current(
            lines[base + 2 * i],
            lines[base + 2 * i + 1],
            #[trigger] sections[i],
            axis,
            sections.len() as int,
            i,
            orientation,
            view,
        )
}

/// Fills the tick slots of one axis from its tick set: grid lines into
/// `lines` from index `base` on, labels into `sections`.
fn fill_axis(
    lines: &mut Vec<Point2d>,
    base: usize,
    sections: &mut Vec<Section>,
    ticks: &TickSet,
    axis: Axis,
    orientation: Orientation,
    view: Viewport,
)
    requires
        old(sections)@.len() <= MAX_TICK_SLOTS,
        base <= MAX_TICK_SLOTS * 4,
        base + 2 * old(sections)@.len() <= old(lines)@.len(),
        ticks.is_of(axis, old(sections)@.len() as int),
        view.wf(),
    ensures
        final(lines)@.len() == old(lines)@.len(),
        final(sections)@.len() == old(sections)@.len(),
        forall|j: int|
            0 <= j < base || base + 2 * old(sections)@.len() <= j < old(lines)@.len()
                ==> final(lines)@[j] == old(lines)@[j],
        axis_current(final(lines)@, base as int, final(sections)@, axis, orientation, view),
{
    let slots: usize = sections.len();
    let emitted: usize = ticks.ticks.len();
    let bounds: Point2d = Point2d {
        x: fixed_div(
            (view.width as i64) * 1_000_000_000,
            fixed_div(2_000_000_000, ticks.spacing),
        ),
        y: (view.height as i64) * 1_000_000_000,
    };
    let mut i: usize = 0;
    while i < slots
        invariant
            i <= slots,
            slots == sections@.len(),
            slots == old(sections)@.len(),
            slots <= MAX_TICK_SLOTS,
            base <= MAX_TICK_SLOTS * 4,
            lines@.len() == old(lines)@.len(),
            base + 2 * slots <= lines@.len(),
            emitted == ticks.ticks@.len(),
            ticks.is_of(axis, slots as int),
            view.wf(),
            emitted > 0 ==> bounds == label_bounds(axis.tick_spacing(), view),
            forall|j: int|
                0 <= j < base || base + 2 * slots <= j < lines@.len() ==> lines@[j] == old(
                    lines,
                )@[j],
            forall|k: int|
                0 <= k < i ==> slot_current(
                    lines@[base + 2 * k],
                    lines@[base + 2 * k + 1],
                    #[trigger] sections@[k],
                    axis,
                    slots as int,
                    k,
                    orientation,
                    view,
                ),
        decreases slots - i,
    {
        let ghost lines_before = lines@;
        let ghost sections_before = sections@;
        if i < emitted {
            let position: i64 = ticks.ticks[i].screen_position;
            let shifted: i64 = fixed_div(sat_add(position, 1_000_000_000), match orientation {
                Orientation::Horizontal => view.pixel_scale.x,
                Orientation::Vertical => view.pixel_scale.y,
            });
            let (near, far, anchor) = match orientation {
                Orientation::Horizontal => (
                    Point2d { x: position, y: -1_000_000_000 },
                    Point2d { x: position, y: 1_000_000_000 },
                    Point2d { x: shifted, y: fixed_div(1_950_000_000, view.pixel_scale.y) },
                ),
                Orientation::Vertical => (
                    Point2d { x: -1_000_000_000, y: position },
                    Point2d { x: 1_000_000_000, y: position },
                    Point2d { x: 0, y: sat_sub((view.height as i64) * 1_000_000_000, shifted) },
                ),
            };
            lines.set(base + 2 * i, near);
            lines.set(base + 2 * i + 1, far);
            let text = ticks.ticks[i].label.clone();
            sections.set(i, Section { screen_position: anchor, bounds, text });
        } else {
            lines.set(base + 2 * i, Point2d { x: 0, y: 0 });
            lines.set(base + 2 * i + 1, Point2d { x: 0, y: 0 });
            sections.set(
                i,
                Section {
                    screen_position: Point2d { x: 0, y: 0 },
                    bounds: Point2d { x: 0, y: 0 },
                    text: String::new(),
                },
            );
        }
        proof {
            assert forall|k: int| 0 <= k < i + 1 implies slot_current(
                lines@[base + 2 * k],
                lines@[base + 2 * k + 1],
                #[trigger] sections@[k],
                axis,
                slots as int,
                k,
                orientation,
                view,
            ) by {
                if k < i {
                    assert(sections@[k] == sections_before[k]);
                    assert(lines@[base + 2 * k] == lines_before[base + 2 * k]);
                    assert(lines@[base + 2 * k + 1] == lines_before[base + 2 * k + 1]);
                }
            }
        }
        i = i + 1;
    }
}


/// The crosshair and the value readouts that follow the pointer.
#[derive(Debug)]
pub struct Crosshair {
    /// The pointer in normalized device space.
    pub mouse_pos: Point2d,
    /// The readout on the horizontal axis, then the one on the vertical axis.
    pub sections: Vec<Section>,
    pub mesh_uniforms: Vec<MeshUniform>,
    /// Offset of the readout background on the horizontal axis, then of the
    /// one on the vertical axis.
    pub mesh_instance_positions: Vec<Point2d>,
    /// The quad behind the horizontal readout, then the one behind the
    /// vertical readout.
    pub hover_vertices: Vec<Point2d>,
    /// Width of the background of the horizontal readout in pixels.
    pub x_hover_width: u32,
    /// Height of the background of the vertical readout in pixels.
    pub y_hover_height: u32,
}

/// The GPU buffers of a chart.
#[derive(Clone, Copy, Debug, PartialEq, Eq, Structural)]
pub struct Buffers {
    pub line_vbo: Buffer,
    pub line_ubo: Buffer,
    pub hover_vbo: Buffer,
    pub hover_ibo: Buffer,
    pub mesh_ubo: Buffer,
    pub mesh_instance_vbo: Buffer,
}

/// Number of vertices of the two readout backgrounds.
pub const N_HOVER_VERTICES: usize = 8;

/// Number of indices of one readout background.
pub const N_HOVER_INDICES: usize = 6;

/// Size of one index of the readout backgrounds in bytes.
pub const INDEX_STRIDE: u32 = 2;

/// The indices of one readout background: two triangles over the four
/// corners of a quad.
pub fn hover_indices() -> (indices: Vec<u16>)
    ensures
        indices@ == seq![0u16, 1u16, 2u16, 2u16, 3u16, 0u16],
        indices@.len() == N_HOVER_INDICES,
{
    let mut indices: Vec<u16> = Vec::new();
    indices.push(0);
    indices.push(1);
    indices.push(2);
    indices.push(2);
    indices.push(3);
    indices.push(0);
    assert(indices@ =~= seq![0u16, 1u16, 2u16, 2u16, 3u16, 0u16]);
    indices
}

/// Whether `buffer` is the buffer `id` with `len` elements of `stride` bytes.
pub open spec fn buffer_is(buffer: Buffer, id: BufferId, len: int, stride: int) -> bool {
    &&& buffer.ident() == id
    &&& buffer.capacity() == len
    &&& buffer.element_size() == stride
}

/// An interactive chart.
#[derive(Debug)]
pub struct Chart {
    pub view: Viewport,
    /// The uniform blocks of border, grid, crosshair and each data series,
    /// in this order.
    pub uniforms: Vec<LineUniform>,
    /// The border polyline, the crosshair lines, the grid lines of the
    /// horizontal axis, those of the vertical axis and the data line strip,
    /// in this order.
    pub line_vertices: Vec<Point2d>,
    /// The tick labels of the horizontal axis, one per tick slot.
    pub x_sections: Vec<Section>,
    /// The tick labels of the vertical axis, one per tick slot.
    pub y_sections: Vec<Section>,
    pub crosshair: Crosshair,
    pub buffers: Buffers,
    /// Whether the primary pointer button is held.
    pub left_hold: bool,
    /// Last known pointer position in pixels.
    pub pointer: Point2d,
}

impl Chart {
    /// The horizontal axis of the first data series.
    pub open spec fn x_axis(self) -> Axis {
        Axis {
            scale: self.uniforms@[LINES_ID as int].scale.x,
            translate: self.uniforms@[LINES_ID as int].translate.x,
            pixel_scale: self.view.pixel_scale.x,
            margin: self.view.margin,
        }
    }

    /// The vertical axis of the first data series.
    pub open spec fn y_axis(self) -> Axis {
        Axis {
            scale: self.uniforms@[LINES_ID as int].scale.y,
            translate: self.uniforms@[LINES_ID as int].translate.y,
            pixel_scale: self.view.pixel_scale.y,
            margin: self.view.margin,
        }
    }

    /// Index of the first grid line vertex of the vertical axis.
    pub open spec fn y_base(self) -> int {
        N_UI_VERTICES + 2 * self.x_sections@.len()
    }

    /// Index of the first vertex of the data line strip.
    pub open spec fn data_base(self) -> int {
        N_UI_VERTICES + 2 * self.x_sections@.len() + 2 * self.y_sections@.len()
    }

    /// Whether the vertices in front of the grid lines and the data line
    /// strip are the same in `self` and `other`.
    pub open spec fn same_around_ticks(self, other: Chart) -> bool {
        &&& self.line_vertices@.len() == other.line_vertices@.len()
        &&& self.x_sections@.len() == other.x_sections@.len()
        &&& self.y_sections@.len() == other.y_sections@.len()
        &&& forall|j: int|
            0 <= j < N_UI_VERTICES || self.data_base() <= j < self.line_vertices@.len()
                ==> self.line_vertices@[j] == other.line_vertices@[j]
    }

    /// Whether the lengths of all sequences fit together and the buffers
    /// have the capacity of the data they mirror.
    pub open spec fn layout_wf(self) -> bool {
        &&& LINES_ID < self.uniforms@.len() <= MAX_UNIFORM_ID
        &&& self.x_sections@.len() <= MAX_TICK_SLOTS
        &&& self.y_sections@.len() <= MAX_TICK_SLOTS
        &&& self.data_base() <= self.line_vertices@.len() <= u32::MAX
        &&& self.crosshair.sections@.len() == 2
        &&& self.crosshair.mesh_uniforms@.len() == 1
        &&& self.crosshair.mesh_instance_positions@.len() == 2
        &&& self.crosshair.hover_vertices@.len() == N_HOVER_VERTICES
        &&& buffer_is(
            self.buffers.line_vbo,
            BufferId::LineVertices,
            self.line_vertices@.len() as int,
            POINT_STRIDE as int,
        )
        &&& buffer_is(
            self.buffers.line_ubo,
            BufferId::LineUniforms,
            self.uniforms@.len() as int,
            UNIFORM_STRIDE as int,
        )
        &&& buffer_is(
            self.buffers.hover_vbo,
            BufferId::HoverVertices,
            N_HOVER_VERTICES as int,
            POINT_STRIDE as int,
        )
        &&& buffer_is(
            self.buffers.hover_ibo,
            BufferId::HoverIndices,
            N_HOVER_INDICES as int,
            INDEX_STRIDE as int,
        )
        &&& buffer_is(self.buffers.mesh_ubo, BufferId::MeshUniforms, 1, UNIFORM_STRIDE as int)
        &&& buffer_is(
            self.buffers.mesh_instance_vbo,
            BufferId::MeshInstances,
            2,
            POINT_STRIDE as int,
        )
    }

    /// Whether every data series has a zoom factor within the allowed range.
    pub open spec fn scales_wf(self) -> bool {
        forall|i: int|
            LINES_ID <= i < self.uniforms@.len() ==> scale_in_range(
                (#[trigger] self.uniforms@[i]).scale,
            )
    }

    /// Whether the grid lines and tick labels reflect the current transform
    /// of the first data series.
    pub open spec fn ticks_current(self) -> bool {
        &&& axis_current(
            self.line_vertices@,
            N_UI_VERTICES as int,
            self.x_sections@,
            self.x_axis(),
            Orientation::Horizontal,
            self.view,
        )
        &&& axis_current(
            self.line_vertices@,
            self.y_base(),
            self.y_sections@,
            self.y_axis(),
            Orientation::Vertical,
            self.view,
        )
    }

    /// Whether every tick slot of both axes is cleared, as it is until the
    /// ticks are computed for the first time.
    pub open spec fn ticks_cleared(self) -> bool {
        &&& axis_cleared(self.line_vertices@, N_UI_VERTICES as int, self.x_sections@)
        &&& axis_cleared(self.line_vertices@, self.y_base(), self.y_sections@)
    }

    /// The invariant of a chart. The ticks are not part of it: they are
    /// cleared at creation and current after every zoom, pan and resize.
    pub open spec fn wf(self) -> bool {
        &&& self.view.wf()
        &&& self.layout_wf()
        &&& self.scales_wf()
    }

    /// The write of the elements `first..last` of the vertex data to the
    /// same positions of the vertex buffer.
    pub open spec fn ui_region(first: int, last: int) -> BufferWrite {
        BufferWrite {
            buffer: BufferId::LineVertices,
            offset: first as u32,
            count: (last - first) as u32,
            source: first as usize,
            byte_offset: (first * POINT_STRIDE) as u64,
            byte_len: ((last - first) * POINT_STRIDE) as u64,
        }
    }

    /// The write of the uniform blocks `first..last` to the same positions
    /// of the uniform buffer.
    pub open spec fn uniform_region(first: int, last: int) -> BufferWrite {
        BufferWrite {
            buffer: BufferId::LineUniforms,
            offset: first as u32,
            count: (last - first) as u32,
            source: first as usize,
            byte_offset: (first * UNIFORM_STRIDE) as u64,
            byte_len: ((last - first) * UNIFORM_STRIDE) as u64,
        }
    }

    /// The write that brings the grid lines of both axes to the GPU.
    pub open spec fn tick_region(self) -> BufferWrite {
        Self::ui_region(N_UI_VERTICES as int, self.data_base())
    }

    /// Recomputes the ticks of both axes from the transform of the first
    /// data series and fills every tick slot: grid line and label for an
    /// emitted tick, zeros and an empty label for the rest.
    pub fn update_ticks(&mut self) -> (write: BufferWrite)
        requires
            old(self).view.wf(),
            old(self).layout_wf(),
        ensures
            final(self).ticks_current(),
            final(self).layout_wf(),
            final(self).view == old(self).view,
            final(self).uniforms == old(self).uniforms,
            final(self).crosshair == old(self).crosshair,
            final(self).buffers == old(self).buffers,
            final(self).left_hold == old(self).left_hold,
            final(self).pointer == old(self).pointer,
            final(self).same_around_ticks(*old(self)),
            write == old(self).tick_region(),
            write.within(final(self).buffers.line_vbo.capacity()),
    {
        let uni: LineUniform = self.uniforms[LINES_ID];
        let x_slots: usize = self.x_sections.len();
        let y_slots: usize = self.y_sections.len();
        let ghost x_axis = self.x_axis();
        let x_ticks = compute_ticks(
            uni.scale.x,
            uni.translate.x,
            self.view.pixel_scale.x,
            self.view.margin,
            x_slots,
        );
        fill_axis(
            &mut self.line_vertices,
            N_UI_VERTICES,
            &mut self.x_sections,
            &x_ticks,
            Axis {
                scale: uni.scale.x,
                translate: uni.translate.x,
                pixel_scale: self.view.pixel_scale.x,
                margin: self.view.margin,
            },
            Orientation::Horizontal,
            self.view,
        );
        let ghost lines_mid = self.line_vertices@;
        let y_ticks = compute_ticks(
            uni.scale.y,
            uni.translate.y,
            self.view.pixel_scale.y,
            self.view.margin,
            y_slots,
        );
        fill_axis(
            &mut self.line_vertices,
            N_UI_VERTICES + 2 * x_slots,
            &mut self.y_sections,
            &y_ticks,
            Axis {
                scale: uni.scale.y,
                translate: uni.translate.y,
                pixel_scale: self.view.pixel_scale.y,
                margin: self.view.margin,
            },
            Orientation::Vertical,
            self.view,
        );
        proof {
            assert forall|i: int| 0 <= i < self.x_sections@.len() implies slot_current(
                self.line_vertices@[N_UI_VERTICES + 2 * i],
                self.line_vertices@[N_UI_VERTICES + 2 * i + 1],
                #[trigger] self.x_sections@[i],
                x_axis,
                self.x_sections@.len() as int,
                i,
                Orientation::Horizontal,
                self.view,
            ) by {
                assert(self.line_vertices@[N_UI_VERTICES + 2 * i] == lines_mid[N_UI_VERTICES + 2 * i]);
                assert(self.line_vertices@[N_UI_VERTICES + 2 * i + 1] == lines_mid[N_UI_VERTICES + 2
                    * i + 1]);
            }
        }
        let write = self.buffers.line_vbo.write_sliced(
            Bound::Included(N_UI_VERTICES),
            Bound::Excluded(N_UI_VERTICES + 2 * x_slots + 2 * y_slots),
            self.line_vertices.len(),
        );
        write.unwrap()
    }
}


/// What an operation on a chart did.
#[derive(Debug)]
pub struct Update {
    /// Whether the operation was carried out. A refused operation leaves
    /// the chart as it was.
    pub accepted: bool,
    /// The buffer regions to upload, in this order.
    pub writes: Vec<BufferWrite>,
}

/// The uniform blocks `uniforms` with every data series zoomed by `factor`.
pub open spec fn zoomed_series(uniforms: Seq<LineUniform>, factor: int) -> Seq<LineUniform> {
    Seq::new(
        uniforms.len(),
        |i: int|
            if i >= LINES_ID {
                zoomed(uniforms[i], factor)
            } else {
                uniforms[i]
            },
    )
}

/// Whether a zoom by `factor` keeps the scale of every data series within
/// the allowed range.
pub open spec fn zoom_accepts(uniforms: Seq<LineUniform>, factor: int) -> bool {
    forall|i: int|
        LINES_ID <= i < uniforms.len() ==> scale_in_range(
            zoomed(#[trigger] uniforms[i], factor).scale,
        )
}

/// The uniform blocks `uniforms` with every data series moved by `shift`.
pub open spec fn panned_series(uniforms: Seq<LineUniform>, shift: Point2d) -> Seq<LineUniform> {
    Seq::new(
        uniforms.len(),
        |i: int|
            if i >= LINES_ID {
                panned(uniforms[i], shift)
            } else {
                uniforms[i]
            },
    )
}

/// The uniform blocks `uniforms` after the screen changed to `view`: the
/// border is scaled to the plot area and gets its line width, the grid gets
/// its line width.
pub open spec fn resized_series(uniforms: Seq<LineUniform>, view: Viewport) -> Seq<LineUniform> {
    Seq::new(
        uniforms.len(),
        |i: int|
            if i == BORDER_ID {
                LineUniform {
                    color: uniforms[i].color,
                    scale: Point2d {
                        x: inset_scale(view.width, view.margin) as i64,
                        y: inset_scale(view.height, view.margin) as i64,
                    },
                    translate: uniforms[i].translate,
                    line_scale: Point2d {
                        x: line_width(view.border_width, view.pixel_scale.x as int) as i64,
                        y: line_width(view.border_width, view.pixel_scale.y as int) as i64,
                    },
                }
            } else if i == GRID_ID {
                LineUniform {
                    color: uniforms[i].color,
                    scale: uniforms[i].scale,
                    translate: uniforms[i].translate,
                    line_scale: Point2d {
                        x: line_width(view.grid_line_width, view.pixel_scale.x as int) as i64,
                        y: line_width(view.grid_line_width, view.pixel_scale.y as int) as i64,
                    },
                }
            } else {
                uniforms[i]
            },
    )
}

/// The pointer position `pos`, given in pixels from the top left corner, in
/// normalized device space.
pub open spec fn pointer_ndc(pos: Point2d, view: Viewport) -> Point2d {
    Point2d {
        x: sub_spec(mul_div_spec(pos.x as int, 2, view.width as int), UNIT as int) as i64,
        y: sub_spec(
            mul_div_spec(sub_spec(view.height * UNIT, pos.y as int), 2, view.height as int),
            UNIT as int,
        ) as i64,
    }
}

/// The data-space value under the screen position `mouse`.
pub open spec fn readout_value(mouse: Point2d, u: LineUniform) -> Point2d {
    Point2d {
        x: div_spec(sub_spec(mouse.x as int, u.translate.x as int), u.scale.x as int) as i64,
        y: div_spec(sub_spec(mouse.y as int, u.translate.y as int), u.scale.y as int) as i64,
    }
}

/// Whether the two readouts show the value under `mouse`, each anchored at
/// the pointer along its axis, with the bounds `x_bounds` and `y_bounds`.
pub open spec fn readouts_current(
    sections: Seq<Section>,
    x_bounds: Point2d,
    y_bounds: Point2d,
    mouse: Point2d,
    u: LineUniform,
    view: Viewport,
) -> bool {
    &&& sections.len() == 2
    &&& sections[0].screen_position == label_anchor(Orientation::Horizontal, mouse.x as int, view)
    &&& sections[0].bounds == x_bounds
    &&& sections[0].text@ == label_text(readout_value(mouse, u).x as int)
    &&& sections[1].screen_position == label_anchor(Orientation::Vertical, mouse.y as int, view)
    &&& sections[1].bounds == y_bounds
    &&& sections[1].text@ == label_text(readout_value(mouse, u).y as int)
}

/// The four crosshair vertices for a pointer at `mouse`: the horizontal
/// line from the left to the right edge, then the vertical line from the
/// bottom to the top edge.
pub open spec fn crosshair_vertices(mouse: Point2d) -> Seq<Point2d> {
    seq![
        Point2d { x: (-UNIT) as i64, y: mouse.y },
        Point2d { x: 1_000_000_000, y: mouse.y },
        Point2d { x: mouse.x, y: (-UNIT) as i64 },
        Point2d { x: mouse.x, y: 1_000_000_000 },
    ]
}

fn label_anchor_of(orientation: Orientation, position: i64, view: Viewport) -> (r: Point2d)
    ensures
        r == label_anchor(orientation, position as int, view),
{
    match orientation {
        Orientation::Horizontal => Point2d {
            x: fixed_div(sat_add(position, 1_000_000_000), view.pixel_scale.x),
            y: fixed_div(1_950_000_000, view.pixel_scale.y),
        },
        Orientation::Vertical => Point2d {
            x: 0,
            y: sat_sub(
                (view.height as i64) * 1_000_000_000,
                fixed_div(sat_add(position, 1_000_000_000), view.pixel_scale.y),
            ),
        },
    }
}

impl Chart {
    /// How many elements the buffer `id` of this chart holds; zero for a
    /// buffer that the chart does not write to.
    pub open spec fn capacity_of(self, id: BufferId) -> int {
        match id {
            BufferId::LineVertices => self.buffers.line_vbo.capacity(),
            BufferId::LineUniforms => self.buffers.line_ubo.capacity(),
            BufferId::HoverVertices => self.buffers.hover_vbo.capacity(),
            BufferId::HoverIndices => self.buffers.hover_ibo.capacity(),
            BufferId::MeshUniforms => self.buffers.mesh_ubo.capacity(),
            BufferId::MeshInstances => self.buffers.mesh_instance_vbo.capacity(),
            BufferId::Segment => 0,
        }
    }

    /// Whether every write stays within the capacity of its buffer.
    pub open spec fn writes_in_range(self, writes: Seq<BufferWrite>) -> bool {
        forall|i: int|
            0 <= i < writes.len() ==> (#[trigger] writes[i]).within(
                self.capacity_of(writes[i].buffer),
            )
    }

    /// The write of all instance offsets of the readout backgrounds.
    pub open spec fn instance_region() -> BufferWrite {
        BufferWrite {
            buffer: BufferId::MeshInstances,
            offset: 0,
            count: 2,
            source: 0,
            byte_offset: 0,
            byte_len: (2 * POINT_STRIDE) as u64,
        }
    }

    /// Whether everything but the uniform blocks, the ticks and the
    /// readouts is the same in `self` and `other`.
    pub open spec fn same_frame(self, other: Chart) -> bool {
        &&& self.view == other.view
        &&& self.buffers == other.buffers
        &&& self.left_hold == other.left_hold
        &&& self.pointer == other.pointer
        &&& self.uniforms@.len() == other.uniforms@.len()
        &&& self.same_around_ticks(other)
        &&& self.crosshair.mouse_pos == other.crosshair.mouse_pos
        &&& self.crosshair.mesh_uniforms == other.crosshair.mesh_uniforms
        &&& self.crosshair.mesh_instance_positions == other.crosshair.mesh_instance_positions
        &&& self.crosshair.hover_vertices == other.crosshair.hover_vertices
        &&& self.crosshair.x_hover_width == other.crosshair.x_hover_width
        &&& self.crosshair.y_hover_height == other.crosshair.y_hover_height
    }

    /// Writes both readouts anew for the current pointer position and the
    /// transform of the first data series.
    pub fn update_crosshair_scale_values(&mut self)
        requires
            old(self).layout_wf(),
        ensures
            readouts_current(
                final(self).crosshair.sections@,
                old(self).crosshair.sections@[0].bounds,
                old(self).crosshair.sections@[1].bounds,
                old(self).crosshair.mouse_pos,
                old(self).uniforms@[LINES_ID as int],
                old(self).view,
            ),
            final(self).same_frame(*old(self)),
            final(self).uniforms == old(self).uniforms,
            final(self).line_vertices == old(self).line_vertices,
            final(self).x_sections == old(self).x_sections,
            final(self).y_sections == old(self).y_sections,
    {
        let uni: LineUniform = self.uniforms[LINES_ID];
        let mouse: Point2d = self.crosshair.mouse_pos;
        let value_x: i64 = fixed_div(sat_sub(mouse.x, uni.translate.x), uni.scale.x);
        let value_y: i64 = fixed_div(sat_sub(mouse.y, uni.translate.y), uni.scale.y);
        let x_bounds: Point2d = self.crosshair.sections[0].bounds;
        let y_bounds: Point2d = self.crosshair.sections[1].bounds;
        let x_anchor = label_anchor_of(Orientation::Horizontal, mouse.x, self.view);
        let y_anchor = label_anchor_of(Orientation::Vertical, mouse.y, self.view);
        self.crosshair.sections.set(
            0,
            Section {
                screen_position: x_anchor,
                bounds: x_bounds,
                text: convert_to_text(value_x),
            },
        );
        self.crosshair.sections.set(
            1,
            Section {
                screen_position: y_anchor,
                bounds: y_bounds,
                text: convert_to_text(value_y),
            },
        );
    }

    /// Zooms every data series by the factor that belongs to a scroll of
    /// `delta` notches, then recomputes the ticks and the readouts.
    ///
    /// The zoom is refused, and nothing changes, when it would take the
    /// scale of a data series out of the allowed range.
    pub fn zoom(&mut self, delta: i64) -> (update: Update)
        requires
            old(self).wf(),
        ensures
            final(self).wf(),
            update.accepted == zoom_accepts(old(self).uniforms@, zoom_factor(delta as int)),
            update.accepted ==> ({
                &&& final(self).ticks_current()
                &&& final(self).uniforms@ == zoomed_series(
                    old(self).uniforms@,
                    zoom_factor(delta as int),
                )
                &&& readouts_current(
                    final(self).crosshair.sections@,
                    old(self).crosshair.sections@[0].bounds,
                    old(self).crosshair.sections@[1].bounds,
                    final(self).crosshair.mouse_pos,
                    final(self).uniforms@[LINES_ID as int],
                    final(self).view,
                )
                &&& final(self).same_frame(*old(self))
                &&& update.writes@ == seq![
                    old(self).tick_region(),
                    Self::uniform_region(LINES_ID as int, old(self).uniforms@.len() as int),
                ]
            }),
            !update.accepted ==> *final(self) == *old(self) && update.writes@.len() == 0,
            final(self).writes_in_range(update.writes@),
    {
        let factor: i64 = zoom_factor_of(delta);
        let len: usize = self.uniforms.len();
        let mut i: usize = LINES_ID;
        while i < len
            invariant
                LINES_ID <= i <= len,
                len == self.uniforms@.len(),
                *self == *old(self),
                old(self).wf(),
                factor == zoom_factor(delta as int),
                forall|k: int|
                    LINES_ID <= k < i ==> scale_in_range(
                        zoomed(#[trigger] self.uniforms@[k], factor as int).scale,
                    ),
            decreases len - i,
        {
            let z: LineUniform = zoom_uniform(self.uniforms[i], factor);
            if z.scale.x < MIN_SCALE || z.scale.x > MAX_SCALE || z.scale.y < MIN_SCALE || z.scale.y
                > MAX_SCALE {
                assert(!scale_in_range(zoomed(self.uniforms@[i as int], factor as int).scale));
                return Update { accepted: false, writes: Vec::new() };
            }
            i = i + 1;
        }
        let mut i: usize = LINES_ID;
        while i < len
            invariant
                LINES_ID <= i <= len,
                len == self.uniforms@.len(),
                len == old(self).uniforms@.len(),
                self.view == old(self).view,
                self.line_vertices == old(self).line_vertices,
                self.x_sections == old(self).x_sections,
                self.y_sections == old(self).y_sections,
                self.crosshair == old(self).crosshair,
                self.buffers == old(self).buffers,
                self.left_hold == old(self).left_hold,
                self.pointer == old(self).pointer,
                forall|k: int|
                    0 <= k < i ==> self.uniforms@[k] == zoomed_series(
                        old(self).uniforms@,
                        factor as int,
                    )[k],
                forall|k: int| i <= k < len ==> self.uniforms@[k] == old(self).uniforms@[k],
            decreases len - i,
        {
            let z: LineUniform = zoom_uniform(self.uniforms[i], factor);
            self.uniforms.set(i, z);
            i = i + 1;
        }
        assert(self.uniforms@ =~= zoomed_series(old(self).uniforms@, factor as int));
        let ticks = self.update_ticks();
        let uniforms = self.buffers.line_ubo.write_sliced(
            Bound::Included(LINES_ID),
            Bound::Unbounded,
            len,
        );
        self.update_crosshair_scale_values();
        let mut writes: Vec<BufferWrite> = Vec::new();
        writes.push(ticks);
        writes.push(uniforms.unwrap());
        proof {
            assert(writes@ =~= seq![
                old(self).tick_region(),
                Self::uniform_region(LINES_ID as int, old(self).uniforms@.len() as int),
            ]);
            assert(self.scales_wf()) by {
                assert forall|k: int| LINES_ID <= k < self.uniforms@.len() implies scale_in_range(
                    (#[trigger] self.uniforms@[k]).scale,
                ) by {
                    assert(scale_in_range(
                        zoomed(old(self).uniforms@[k], factor as int).scale,
                    ));
                }
            }
        }
        Update { accepted: true, writes }
    }

    /// Moves every data series by a pointer movement of `physical_delta`
    /// pixels, then recomputes the ticks.
    pub fn pan(&mut self, physical_delta: Point2d) -> (update: Update)
        requires
            old(self).wf(),
        ensures
            final(self).wf(),
            final(self).ticks_current(),
            update.accepted,
            final(self).uniforms@ == panned_series(
                old(self).uniforms@,
                pan_shift(physical_delta, old(self).view.width, old(self).view.height),
            ),
            final(self).same_frame(*old(self)),
            final(self).crosshair == old(self).crosshair,
            update.writes@ == seq![
                old(self).tick_region(),
                Self::uniform_region(LINES_ID as int, old(self).uniforms@.len() as int),
            ],
            final(self).writes_in_range(update.writes@),
    {
        let shift: Point2d = pan_shift_of(physical_delta, self.view.width, self.view.height);
        let len: usize = self.uniforms.len();
        let mut i: usize = LINES_ID;
        while i < len
            invariant
                LINES_ID <= i <= len,
                len == self.uniforms@.len(),
                len == old(self).uniforms@.len(),
                self.view == old(self).view,
                self.line_vertices == old(self).line_vertices,
                self.x_sections == old(self).x_sections,
                self.y_sections == old(self).y_sections,
                self.crosshair == old(self).crosshair,
                self.buffers == old(self).buffers,
                self.left_hold == old(self).left_hold,
                self.pointer == old(self).pointer,
                forall|k: int|
                    0 <= k < i ==> self.uniforms@[k] == panned_series(old(self).uniforms@, shift)[k],
                forall|k: int| i <= k < len ==> self.uniforms@[k] == old(self).uniforms@[k],
            decreases len - i,
        {
            let moved: LineUniform = pan_uniform(self.uniforms[i], shift);
            self.uniforms.set(i, moved);
            i = i + 1;
        }
        assert(self.uniforms@ =~= panned_series(old(self).uniforms@, shift));
        let ticks = self.update_ticks();
        let uniforms = self.buffers.line_ubo.write_sliced(
            Bound::Included(LINES_ID),
            Bound::Unbounded,
            len,
        );
        let mut writes: Vec<BufferWrite> = Vec::new();
        writes.push(ticks);
        writes.push(uniforms.unwrap());
        proof {
            assert(writes@ =~= seq![
                old(self).tick_region(),
                Self::uniform_region(LINES_ID as int, old(self).uniforms@.len() as int),
            ]);
            assert(self.scales_wf()) by {
                assert forall|k: int| LINES_ID <= k < self.uniforms@.len() implies scale_in_range(
                    (#[trigger] self.uniforms@[k]).scale,
                ) by {
                    assert(scale_in_range(old(self).uniforms@[k].scale));
                }
            }
        }
        Update { accepted: true, writes }
    }
}


impl Viewport {
    /// This viewport with another size.
    pub open spec fn resized(self, width: u32, height: u32) -> Viewport {
        Viewport {
            width,
            height,
            margin: self.margin,
            border_width: self.border_width,
            grid_line_width: self.grid_line_width,
            pixel_scale: Point2d {
                x: Self::pixel_scale_of(width) as i64,
                y: Self::pixel_scale_of(height) as i64,
            },
        }
    }
}

impl Chart {
    /// Whether `self` differs from `other` at most in the crosshair lines
    /// and in what the crosshair owns.
    pub open spec fn same_but_crosshair(self, other: Chart) -> bool {
        &&& self.view == other.view
        &&& self.uniforms == other.uniforms
        &&& self.x_sections == other.x_sections
        &&& self.y_sections == other.y_sections
        &&& self.buffers == other.buffers
        &&& self.left_hold == other.left_hold
        &&& self.pointer == other.pointer
        &&& self.line_vertices@.len() == other.line_vertices@.len()
        &&& forall|j: int|
            0 <= j < N_BORDER_VERTICES || N_UI_VERTICES <= j < self.line_vertices@.len()
                ==> self.line_vertices@[j] == other.line_vertices@[j]
    }

    /// Whether the crosshair of `self` is that of `before` moved to the
    /// pointer position `pos`, given in pixels: the crosshair lines, the
    /// translation of the readout backgrounds and their offsets follow the
    /// pointer, and the readouts show the value under it for the transform
    /// that the first data series had in `before`.
    pub open spec fn crosshair_follows(self, before: Chart, pos: Point2d) -> bool {
        let mouse = pointer_ndc(pos, before.view);
        &&& self.crosshair.mouse_pos == mouse
        &&& self.line_vertices@.subrange(N_BORDER_VERTICES as int, N_UI_VERTICES as int)
            == crosshair_vertices(mouse)
        &&& self.crosshair.mesh_uniforms@ == seq![
            MeshUniform {
                color: before.crosshair.mesh_uniforms@[0].color,
                scale: before.crosshair.mesh_uniforms@[0].scale,
                translate: mouse,
                mesh_scale: before.crosshair.mesh_uniforms@[0].mesh_scale,
            },
        ]
        &&& self.crosshair.mesh_instance_positions@ == seq![
            Point2d { x: mouse.x, y: before.crosshair.mesh_instance_positions@[0].y },
            Point2d { x: before.crosshair.mesh_instance_positions@[1].x, y: mouse.y },
        ]
        &&& readouts_current(
            self.crosshair.sections@,
            before.crosshair.sections@[0].bounds,
            before.crosshair.sections@[1].bounds,
            mouse,
            before.uniforms@[LINES_ID as int],
            before.view,
        )
        &&& self.crosshair.hover_vertices == before.crosshair.hover_vertices
        &&& self.crosshair.x_hover_width == before.crosshair.x_hover_width
        &&& self.crosshair.y_hover_height == before.crosshair.y_hover_height
    }

    /// Takes a new screen size: the pixel scale follows it, the border is
    /// fitted to the new plot area, border and grid keep their width in
    /// pixels, and the ticks are recomputed.
    ///
    /// A size that leaves no plot area inside the margin, or that is larger
    /// than [`MAX_EXTENT`], is refused and nothing changes.
    pub fn resize(&mut self, width: u32, height: u32) -> (update: Update)
        requires
            old(self).wf(),
        ensures
            final(self).wf(),
            update.accepted == Viewport::admits(width, height, old(self).view.margin),
            update.accepted ==> ({
                &&& final(self).ticks_current()
                &&& final(self).view == old(self).view.resized(width, height)
                &&& final(self).uniforms@ == resized_series(old(self).uniforms@, final(self).view)
                &&& final(self).crosshair == old(self).crosshair
                &&& final(self).buffers == old(self).buffers
                &&& final(self).left_hold == old(self).left_hold
                &&& final(self).pointer == old(self).pointer
                &&& final(self).same_around_ticks(*old(self))
                &&& update.writes@ == seq![
                    Self::uniform_region(0, GRID_ID + 1),
                    old(self).tick_region(),
                ]
            }),
            !update.accepted ==> *final(self) == *old(self) && update.writes@.len() == 0,
            final(self).writes_in_range(update.writes@),
    {
        let margin: u32 = self.view.margin;
        if width > MAX_EXTENT || height > MAX_EXTENT || margin >= MAX_EXTENT || width <= 2 * margin
            || height <= 2 * margin {
            return Update { accepted: false, writes: Vec::new() };
        }
        self.view.width = width;
        self.view.height = height;
        self.view.pixel_scale = Point2d {
            x: 2_000_000_000 / (width as i64),
            y: 2_000_000_000 / (height as i64),
        };
        let border: LineUniform = self.uniforms[BORDER_ID];
        let grid: LineUniform = self.uniforms[GRID_ID];
        self.uniforms.set(
            BORDER_ID,
            LineUniform {
                color: border.color,
                scale: Point2d {
                    x: inset_scale_of(width, margin),
                    y: inset_scale_of(height, margin),
                },
                translate: border.translate,
                line_scale: Point2d {
                    x: line_width_of(self.view.border_width, self.view.pixel_scale.x),
                    y: line_width_of(self.view.border_width, self.view.pixel_scale.y),
                },
            },
        );
        self.uniforms.set(
            GRID_ID,
            LineUniform {
                color: grid.color,
                scale: grid.scale,
                translate: grid.translate,
                line_scale: Point2d {
                    x: line_width_of(self.view.grid_line_width, self.view.pixel_scale.x),
                    y: line_width_of(self.view.grid_line_width, self.view.pixel_scale.y),
                },
            },
        );
        assert(self.uniforms@ =~= resized_series(old(self).uniforms@, self.view));
        let uniforms = self.buffers.line_ubo.write(0, GRID_ID + 1);
        let ticks = self.update_ticks();
        let mut writes: Vec<BufferWrite> = Vec::new();
        writes.push(uniforms.unwrap());
        writes.push(ticks);
        proof {
            assert(writes@ =~= seq![
                Self::uniform_region(0, GRID_ID + 1),
                old(self).tick_region(),
            ]);
            assert(self.scales_wf()) by {
                assert forall|k: int| LINES_ID <= k < self.uniforms@.len() implies scale_in_range(
                    (#[trigger] self.uniforms@[k]).scale,
                ) by {
                    assert(scale_in_range(old(self).uniforms@[k].scale));
                }
            }
        }
        Update { accepted: true, writes }
    }

    /// Moves the crosshair to the pointer position `pos`, given in pixels
    /// from the top left corner, and writes the readouts anew for it.
    pub fn cursor_moved(&mut self, pos: Point2d) -> (update: Update)
        requires
            old(self).wf(),
        ensures
            final(self).wf(),
            old(self).ticks_current() ==> final(self).ticks_current(),
            old(self).ticks_cleared() ==> final(self).ticks_cleared(),
            update.accepted,
            final(self).same_but_crosshair(*old(self)),
            final(self).crosshair_follows(*old(self), pos),
            update.writes@ == seq![
                Self::ui_region(N_BORDER_VERTICES as int, N_UI_VERTICES as int),
                Self::instance_region(),
            ],
            final(self).writes_in_range(update.writes@),
    {
        let mouse: Point2d = self.view.pixel_to_screen_space(pos);
        self.crosshair.mouse_pos = mouse;
        self.line_vertices.set(N_BORDER_VERTICES, Point2d { x: -1_000_000_000, y: mouse.y });
        self.line_vertices.set(N_BORDER_VERTICES + 1, Point2d { x: 1_000_000_000, y: mouse.y });
        self.line_vertices.set(N_BORDER_VERTICES + 2, Point2d { x: mouse.x, y: -1_000_000_000 });
        self.line_vertices.set(N_BORDER_VERTICES + 3, Point2d { x: mouse.x, y: 1_000_000_000 });
        let mesh: MeshUniform = self.crosshair.mesh_uniforms[0];
        self.crosshair.mesh_uniforms.set(
            0,
            MeshUniform {
                color: mesh.color,
                scale: mesh.scale,
                translate: mouse,
                mesh_scale: mesh.mesh_scale,
            },
        );
        let on_x: Point2d = self.crosshair.mesh_instance_positions[0];
        let on_y: Point2d = self.crosshair.mesh_instance_positions[1];
        self.crosshair.mesh_instance_positions.set(0, Point2d { x: mouse.x, y: on_x.y });
        self.crosshair.mesh_instance_positions.set(1, Point2d { x: on_y.x, y: mouse.y });
        let lines = self.buffers.line_vbo.write_sliced(
            Bound::Included(N_BORDER_VERTICES),
            Bound::Excluded(N_UI_VERTICES),
            self.line_vertices.len(),
        );
        let instances = self.buffers.mesh_instance_vbo.write_sliced(
            Bound::Unbounded,
            Bound::Unbounded,
            self.crosshair.mesh_instance_positions.len(),
        );
        proof {
            assert(self.line_vertices@.subrange(N_BORDER_VERTICES as int, N_UI_VERTICES as int)
                =~= crosshair_vertices(mouse));
            let before = old(self).line_vertices@;
            if old(self).ticks_current() {
                assert forall|i: int| 0 <= i < self.x_sections@.len() implies slot_current(
                    self.line_vertices@[N_UI_VERTICES + 2 * i],
                    self.line_vertices@[N_UI_VERTICES + 2 * i + 1],
                    #[trigger] self.x_sections@[i],
                    self.x_axis(),
                    self.x_sections@.len() as int,
                    i,
                    Orientation::Horizontal,
                    self.view,
                ) by {
                    assert(self.line_vertices@[N_UI_VERTICES + 2 * i] == before[N_UI_VERTICES + 2 * i]);
                    assert(self.line_vertices@[N_UI_VERTICES + 2 * i + 1] == before[N_UI_VERTICES + 2 * i
                        + 1]);
                }
                assert forall|i: int| 0 <= i < self.y_sections@.len() implies slot_current(
                    self.line_vertices@[self.y_base() + 2 * i],
                    self.line_vertices@[self.y_base() + 2 * i + 1],
                    #[trigger] self.y_sections@[i],
                    self.y_axis(),
                    self.y_sections@.len() as int,
                    i,
                    Orientation::Vertical,
                    self.view,
                ) by {
                    assert(self.line_vertices@[self.y_base() + 2 * i] == before[self.y_base() + 2 * i]);
                    assert(self.line_vertices@[self.y_base() + 2 * i + 1] == before[self.y_base() + 2 * i
                        + 1]);
                }
            }
            if old(self).ticks_cleared() {
                assert forall|i: int| 0 <= i < self.x_sections@.len() implies slot_cleared(
                    self.line_vertices@[N_UI_VERTICES + 2 * i],
                    self.line_vertices@[N_UI_VERTICES + 2 * i + 1],
                    #[trigger] self.x_sections@[i],
                ) by {
                    assert(self.line_vertices@[N_UI_VERTICES + 2 * i] == before[N_UI_VERTICES + 2 * i]);
                    assert(self.line_vertices@[N_UI_VERTICES + 2 * i + 1] == before[N_UI_VERTICES + 2
                        * i + 1]);
                }
                assert forall|i: int| 0 <= i < self.y_sections@.len() implies slot_cleared(
                    self.line_vertices@[self.y_base() + 2 * i],
                    self.line_vertices@[self.y_base() + 2 * i + 1],
                    #[trigger] self.y_sections@[i],
                ) by {
                    assert(self.line_vertices@[self.y_base() + 2 * i] == before[self.y_base() + 2 * i]);
                    assert(self.line_vertices@[self.y_base() + 2 * i + 1] == before[self.y_base() + 2
                        * i + 1]);
                }
            }
            assert(self.crosshair.mesh_uniforms@ =~= seq![
                MeshUniform {
                    color: mesh.color,
                    scale: mesh.scale,
                    translate: mouse,
                    mesh_scale: mesh.mesh_scale,
                },
            ]);
            assert(self.crosshair.mesh_instance_positions@ =~= seq![
                Point2d { x: mouse.x, y: on_x.y },
                Point2d { x: on_y.x, y: mouse.y },
            ]);
        }
        self.update_crosshair_scale_values();
        let mut writes: Vec<BufferWrite> = Vec::new();
        writes.push(lines.unwrap());
        writes.push(instances.unwrap());
        assert(writes@ =~= seq![
            Self::ui_region(N_BORDER_VERTICES as int, N_UI_VERTICES as int),
            Self::instance_region(),
        ]);
        Update { accepted: true, writes }
    }
}


/// What a chart is created from.
#[derive(Debug)]
pub struct ChartConfig {
    /// Width of the screen in pixels.
    pub width: u32,
    /// Height of the screen in pixels.
    pub height: u32,
    /// Inset of the plot area from each edge of the screen, in pixels.
    pub margin: u32,
    /// Width of the border line in pixels.
    pub border_width: u32,
    /// Width of the grid lines in pixels.
    pub grid_line_width: u32,
    /// Number of tick slots of the horizontal axis.
    pub max_x_ticks: usize,
    /// Number of tick slots of the vertical axis.
    pub max_y_ticks: usize,
    /// Zoom factor that every data series starts with.
    pub scale: Point2d,
    /// Pan offset that every data series starts with.
    pub translate: Point2d,
    pub border_color: Rgba,
    pub grid_color: Rgba,
    pub crosshair_color: Rgba,
    /// Colour of the readout backgrounds.
    pub hover_color: Rgba,
    /// The colour of each data series; at least one.
    pub series: Vec<Rgba>,
    /// The data line strip.
    pub points: Vec<Point2d>,
}

/// Why a chart could not be created.
#[derive(Clone, Copy, Debug, PartialEq, Eq, Structural)]
pub enum ChartError {
    /// The screen leaves no plot area inside the margin, or is larger than
    /// [`MAX_EXTENT`].
    ViewportRefused,
    /// There is no data series.
    NoSeries,
    /// There are more data series than uniform blocks can be addressed.
    TooManySeries,
    /// An axis has more than [`MAX_TICK_SLOTS`] tick slots.
    TooManyTicks,
    /// The starting scale is outside the allowed range.
    ScaleOutOfRange,
    /// There are more points than the vertex buffer can hold behind the
    /// grid lines.
    TooManyPoints,
}

/// Line width that border, grid and crosshair start with, in normalized
/// device units; a resize replaces the first two by widths in pixels.
pub const BORDER_LINE_SCALE: i64 = 10_000_000;

/// Line width that grid, crosshair and data series start with.
pub const THIN_LINE_SCALE: i64 = 2_000_000;

/// Width that the background of the horizontal readout starts with, in
/// pixels.
pub const X_HOVER_WIDTH: u32 = 20;

/// Height of the background of the vertical readout, in pixels.
pub const Y_HOVER_HEIGHT: u32 = 25;

/// Extent that a readout may take, in pixels, along either axis.
pub const READOUT_BOUNDS: i64 = 100_000_000_000;

impl ChartConfig {
    /// The first reason, if any, why no chart can be created from this
    /// configuration.
    pub open spec fn refusal(self) -> Option<ChartError> {
        if !Viewport::admits(self.width, self.height, self.margin) {
            Some(ChartError::ViewportRefused)
        } else if self.series@.len() == 0 {
            Some(ChartError::NoSeries)
        } else if LINES_ID + self.series@.len() > MAX_UNIFORM_ID {
            Some(ChartError::TooManySeries)
        } else if self.max_x_ticks > MAX_TICK_SLOTS || self.max_y_ticks > MAX_TICK_SLOTS {
            Some(ChartError::TooManyTicks)
        } else if !scale_in_range(self.scale) {
            Some(ChartError::ScaleOutOfRange)
        } else if N_UI_VERTICES + 2 * self.max_x_ticks + 2 * self.max_y_ticks + self.points@.len()
            > u32::MAX {
            Some(ChartError::TooManyPoints)
        } else {
            None
        }
    }

    /// The screen that the configuration describes.
    pub open spec fn viewport(self) -> Viewport {
        Viewport {
            width: self.width,
            height: self.height,
            margin: self.margin,
            border_width: self.border_width,
            grid_line_width: self.grid_line_width,
            pixel_scale: Point2d {
                x: Viewport::pixel_scale_of(self.width) as i64,
                y: Viewport::pixel_scale_of(self.height) as i64,
            },
        }
    }

    /// The uniform blocks that a chart starts with: the border fitted to
    /// the plot area, grid and crosshair at identity, and every data series
    /// at the configured transform.
    pub open spec fn uniforms(self) -> Seq<LineUniform> {
        Seq::new(
            (LINES_ID + self.series@.len()) as nat,
            |i: int|
                if i == BORDER_ID {
                    LineUniform {
                        color: self.border_color,
                        scale: Point2d {
                            x: inset_scale(self.width, self.margin) as i64,
                            y: inset_scale(self.height, self.margin) as i64,
                        },
                        translate: origin(),
                        line_scale: Point2d { x: BORDER_LINE_SCALE, y: BORDER_LINE_SCALE },
                    }
                } else if i == GRID_ID {
                    LineUniform {
                        color: self.grid_color,
                        scale: Point2d { x: UNIT, y: UNIT },
                        translate: origin(),
                        line_scale: Point2d { x: THIN_LINE_SCALE, y: THIN_LINE_SCALE },
                    }
                } else if i == CROSSHAIR_ID {
                    LineUniform {
                        color: self.crosshair_color,
                        scale: Point2d { x: UNIT, y: UNIT },
                        translate: origin(),
                        line_scale: Point2d { x: THIN_LINE_SCALE, y: THIN_LINE_SCALE },
                    }
                } else {
                    LineUniform {
                        color: self.series@[i - LINES_ID],
                        scale: self.scale,
                        translate: self.translate,
                        line_scale: Point2d { x: THIN_LINE_SCALE, y: THIN_LINE_SCALE },
                    }
                },
        )
    }
}

/// The border polyline around the whole of normalized device space,
/// followed by the four crosshair vertices at rest in its first corner.
pub open spec fn frame_vertices() -> Seq<Point2d> {
    let low: i64 = (-UNIT) as i64;
    seq![
        Point2d { x: low, y: low },
        Point2d { x: UNIT, y: low },
        Point2d { x: UNIT, y: UNIT },
        Point2d { x: low, y: UNIT },
        Point2d { x: low, y: low },
        Point2d { x: low, y: low },
        Point2d { x: low, y: low },
        Point2d { x: low, y: low },
        Point2d { x: low, y: low },
    ]
}

/// The readout backgrounds that a chart starts with: each quad reaches from
/// the pointer along its axis by its extent and fills the margin across it.
pub open spec fn initial_hover_quads(view: Viewport) -> Seq<Point2d> {
    let low: i64 = (-UNIT) as i64;
    let width = line_width(X_HOVER_WIDTH, view.pixel_scale.x as int) as i64;
    let height = line_width(Y_HOVER_HEIGHT, view.pixel_scale.y as int) as i64;
    let inner_x = add_spec(-UNIT, line_width(view.margin, view.pixel_scale.x as int)) as i64;
    let inner_y = add_spec(-UNIT, line_width(view.margin, view.pixel_scale.y as int)) as i64;
    seq![
        Point2d { x: 0, y: low },
        Point2d { x: width, y: low },
        Point2d { x: width, y: inner_y },
        Point2d { x: 0, y: inner_y },
        Point2d { x: low, y: 0 },
        Point2d { x: inner_x, y: 0 },
        Point2d { x: inner_x, y: height },
        Point2d { x: low, y: height },
    ]
}

/// Whether `section` is an empty readout at rest.
pub open spec fn readout_at_rest(section: Section) -> bool {
    &&& section.screen_position == origin()
    &&& section.bounds == (Point2d { x: READOUT_BOUNDS, y: READOUT_BOUNDS })
    &&& section.text@ == Seq::<char>::empty()
}

fn empty_sections(n: usize) -> (sections: Vec<Section>)
    ensures
        sections@.len() == n,
        forall|k: int|
            0 <= k < n ==> slot_cleared(origin(), origin(), #[trigger] sections@[k]),
{
    let mut sections: Vec<Section> = Vec::new();
    let mut i: usize = 0;
    while i < n
        invariant
            i <= n,
            sections@.len() == i,
            forall|k: int|
                0 <= k < i ==> slot_cleared(origin(), origin(), #[trigger] sections@[k]),
        decreases n - i,
    {
        sections.push(
            Section {
                screen_position: Point2d { x: 0, y: 0 },
                bounds: Point2d { x: 0, y: 0 },
                text: String::new(),
            },
        );
        i = i + 1;
    }
    sections
}

impl Chart {
    /// Creates the chart of a configuration, with every tick slot cleared,
    /// the crosshair at rest and empty readouts. The ticks appear with the
    /// first zoom, pan or resize.
    pub fn new(config: ChartConfig) -> (r: Result<Chart, ChartError>)
        ensures
            (match config.refusal() {
                Some(e) => r == Err::<Chart, ChartError>(e),
                None => {
                    &&& r is Ok
                    &&& r->Ok_0.wf()
                    &&& r->Ok_0.ticks_cleared()
                    &&& r->Ok_0.view == config.viewport()
                    &&& r->Ok_0.uniforms@ == config.uniforms()
                    &&& r->Ok_0.line_vertices@.subrange(0, N_UI_VERTICES as int) == frame_vertices()
                    &&& r->Ok_0.x_sections@.len() == config.max_x_ticks
                    &&& r->Ok_0.y_sections@.len() == config.max_y_ticks
                    &&& r->Ok_0.line_vertices@.subrange(
                        r->Ok_0.data_base(),
                        r->Ok_0.line_vertices@.len() as int,
                    ) == config.points@
                    &&& !r->Ok_0.left_hold
                    &&& r->Ok_0.pointer == origin()
                    &&& r->Ok_0.crosshair.mouse_pos == origin()
                    &&& readout_at_rest(r->Ok_0.crosshair.sections@[0])
                    &&& readout_at_rest(r->Ok_0.crosshair.sections@[1])
                    &&& r->Ok_0.crosshair.mesh_uniforms@ == seq![
                        MeshUniform {
                            color: config.hover_color,
                            scale: Point2d { x: UNIT, y: UNIT },
                            translate: origin(),
                            mesh_scale: Point2d { x: UNIT, y: UNIT },
                        },
                    ]
                    &&& r->Ok_0.crosshair.mesh_instance_positions@ == seq![origin(), origin()]
                    &&& r->Ok_0.crosshair.hover_vertices@ == initial_hover_quads(config.viewport())
                    &&& r->Ok_0.crosshair.x_hover_width == X_HOVER_WIDTH
                    &&& r->Ok_0.crosshair.y_hover_height == Y_HOVER_HEIGHT
                },
            }),
    {
        let margin: u32 = config.margin;
        if config.width > MAX_EXTENT || config.height > MAX_EXTENT || margin >= MAX_EXTENT
            || config.width <= 2 * margin || config.height <= 2 * margin {
            return Err(ChartError::ViewportRefused);
        }
        let n_series: usize = config.series.len();
        if n_series == 0 {
            return Err(ChartError::NoSeries);
        }
        if n_series > MAX_UNIFORM_ID as usize - LINES_ID {
            return Err(ChartError::TooManySeries);
        }
        if config.max_x_ticks > MAX_TICK_SLOTS || config.max_y_ticks > MAX_TICK_SLOTS {
            return Err(ChartError::TooManyTicks);
        }
        if config.scale.x < MIN_SCALE || config.scale.x > MAX_SCALE || config.scale.y < MIN_SCALE
            || config.scale.y > MAX_SCALE {
            return Err(ChartError::ScaleOutOfRange);
        }
        let n_tick_vertices: usize = 2 * config.max_x_ticks + 2 * config.max_y_ticks;
        let n_points: usize = config.points.len();
        if n_points > u32::MAX as usize - N_UI_VERTICES - n_tick_vertices {
            return Err(ChartError::TooManyPoints);
        }
        let view = Viewport {
            width: config.width,
            height: config.height,
            margin,
            border_width: config.border_width,
            grid_line_width: config.grid_line_width,
            pixel_scale: Point2d {
                x: 2_000_000_000 / (config.width as i64),
                y: 2_000_000_000 / (config.height as i64),
            },
        };
        let zero = Point2d { x: 0, y: 0 };
        let one = Point2d { x: UNIT, y: UNIT };
        let thin = Point2d { x: THIN_LINE_SCALE, y: THIN_LINE_SCALE };
        let mut uniforms: Vec<LineUniform> = Vec::new();
        uniforms.push(
            LineUniform {
                color: config.border_color,
                scale: Point2d {
                    x: inset_scale_of(config.width, margin),
                    y: inset_scale_of(config.height, margin),
                },
                translate: zero,
                line_scale: Point2d { x: BORDER_LINE_SCALE, y: BORDER_LINE_SCALE },
            },
        );
        uniforms.push(
            LineUniform { color: config.grid_color, scale: one, translate: zero, line_scale: thin },
        );
        uniforms.push(
            LineUniform {
                color: config.crosshair_color,
                scale: one,
                translate: zero,
                line_scale: thin,
            },
        );
        let mut i: usize = 0;
        while i < n_series
            invariant
                i <= n_series,
                n_series == config.series@.len(),
                uniforms@.len() == LINES_ID + i,
                one == (Point2d { x: UNIT, y: UNIT }),
                zero == origin(),
                thin == (Point2d { x: THIN_LINE_SCALE, y: THIN_LINE_SCALE }),
                forall|k: int| 0 <= k < LINES_ID + i ==> uniforms@[k] == config.uniforms()[k],
            decreases n_series - i,
        {
            uniforms.push(
                LineUniform {
                    color: config.series[i],
                    scale: config.scale,
                    translate: config.translate,
                    line_scale: thin,
                },
            );
            i = i + 1;
        }
        assert(uniforms@ =~= config.uniforms());
        let low: i64 = -1_000_000_000;
        let mut line_vertices: Vec<Point2d> = Vec::new();
        line_vertices.push(Point2d { x: low, y: low });
        line_vertices.push(Point2d { x: UNIT, y: low });
        line_vertices.push(Point2d { x: UNIT, y: UNIT });
        line_vertices.push(Point2d { x: low, y: UNIT });
        line_vertices.push(Point2d { x: low, y: low });
        line_vertices.push(Point2d { x: low, y: low });
        line_vertices.push(Point2d { x: low, y: low });
        line_vertices.push(Point2d { x: low, y: low });
        line_vertices.push(Point2d { x: low, y: low });
        assert(line_vertices@ =~= frame_vertices());
        let mut i: usize = 0;
        while i < n_tick_vertices
            invariant
                i <= n_tick_vertices,
                zero == origin(),
                line_vertices@.len() == N_UI_VERTICES + i,
                line_vertices@.subrange(0, N_UI_VERTICES as int) == frame_vertices(),
                forall|k: int| N_UI_VERTICES <= k < N_UI_VERTICES + i ==> line_vertices@[k] == origin(),
            decreases n_tick_vertices - i,
        {
            let ghost before = line_vertices@;
            line_vertices.push(zero);
            assert(line_vertices@.subrange(0, N_UI_VERTICES as int) =~= before.subrange(
                0,
                N_UI_VERTICES as int,
            ));
            i = i + 1;
        }
        let data_base: usize = N_UI_VERTICES + n_tick_vertices;
        let mut i: usize = 0;
        while i < n_points
            invariant
                i <= n_points,
                n_points == config.points@.len(),
                data_base == N_UI_VERTICES + n_tick_vertices,
                line_vertices@.len() == data_base + i,
                line_vertices@.subrange(0, N_UI_VERTICES as int) == frame_vertices(),
                forall|k: int| N_UI_VERTICES <= k < data_base ==> line_vertices@[k] == origin(),
                forall|k: int| 0 <= k < i ==> line_vertices@[data_base + k] == config.points@[k],
            decreases n_points - i,
        {
            let ghost before = line_vertices@;
            line_vertices.push(config.points[i]);
            assert(line_vertices@.subrange(0, N_UI_VERTICES as int) =~= before.subrange(
                0,
                N_UI_VERTICES as int,
            ));
            i = i + 1;
        }
        assert(line_vertices@.subrange(data_base as int, line_vertices@.len() as int)
            =~= config.points@);
        let mut sections: Vec<Section> = Vec::new();
        sections.push(
            Section {
                screen_position: zero,
                bounds: Point2d { x: READOUT_BOUNDS, y: READOUT_BOUNDS },
                text: String::new(),
            },
        );
        sections.push(
            Section {
                screen_position: zero,
                bounds: Point2d { x: READOUT_BOUNDS, y: READOUT_BOUNDS },
                text: String::new(),
            },
        );
        let mut mesh_uniforms: Vec<MeshUniform> = Vec::new();
        mesh_uniforms.push(
            MeshUniform { color: config.hover_color, scale: one, translate: zero, mesh_scale: one },
        );
        let mut mesh_instance_positions: Vec<Point2d> = Vec::new();
        mesh_instance_positions.push(zero);
        mesh_instance_positions.push(zero);
        let hover_width: i64 = line_width_of(X_HOVER_WIDTH, view.pixel_scale.x);
        let hover_height: i64 = line_width_of(Y_HOVER_HEIGHT, view.pixel_scale.y);
        let inner_x: i64 = sat_add(low, line_width_of(margin, view.pixel_scale.x));
        let inner_y: i64 = sat_add(low, line_width_of(margin, view.pixel_scale.y));
        let mut hover_vertices: Vec<Point2d> = Vec::new();
        hover_vertices.push(Point2d { x: 0, y: low });
        hover_vertices.push(Point2d { x: hover_width, y: low });
        hover_vertices.push(Point2d { x: hover_width, y: inner_y });
        hover_vertices.push(Point2d { x: 0, y: inner_y });
        hover_vertices.push(Point2d { x: low, y: 0 });
        hover_vertices.push(Point2d { x: inner_x, y: 0 });
        hover_vertices.push(Point2d { x: inner_x, y: hover_height });
        hover_vertices.push(Point2d { x: low, y: hover_height });
        assert(hover_vertices@ =~= initial_hover_quads(view));
        assert(mesh_instance_positions@ =~= seq![origin(), origin()]);
        assert(mesh_uniforms@ =~= seq![
            MeshUniform {
                color: config.hover_color,
                scale: Point2d { x: UNIT, y: UNIT },
                translate: origin(),
                mesh_scale: Point2d { x: UNIT, y: UNIT },
            },
        ]);
        let buffers = Buffers {
            line_ubo: Buffer::new(BufferId::LineUniforms, uniforms.len(), UNIFORM_STRIDE).unwrap(),
            line_vbo: Buffer::new(BufferId::LineVertices, line_vertices.len(), POINT_STRIDE).unwrap(),
            hover_vbo: Buffer::new(BufferId::HoverVertices, N_HOVER_VERTICES, POINT_STRIDE).unwrap(),
            hover_ibo: Buffer::new(BufferId::HoverIndices, N_HOVER_INDICES, INDEX_STRIDE).unwrap(),
            mesh_ubo: Buffer::new(BufferId::MeshUniforms, 1, UNIFORM_STRIDE).unwrap(),
            mesh_instance_vbo: Buffer::new(BufferId::MeshInstances, 2, POINT_STRIDE).unwrap(),
        };
        let chart = Chart {
            view,
            uniforms,
            line_vertices,
            x_sections: empty_sections(config.max_x_ticks),
            y_sections: empty_sections(config.max_y_ticks),
            crosshair: Crosshair {
                mouse_pos: zero,
                sections,
                mesh_uniforms,
                mesh_instance_positions,
                hover_vertices,
                x_hover_width: X_HOVER_WIDTH,
                y_hover_height: Y_HOVER_HEIGHT,
            },
            buffers,
            left_hold: false,
            pointer: zero,
        };
        assert(chart.scales_wf());
        Ok(chart)
    }
}


/// A button of the pointer.
#[derive(Clone, Copy, Debug, PartialEq, Eq, Structural)]
pub enum MouseButton {
    Left,
    Right,
    Middle,
    Other,
}

impl Chart {
    /// Notes that a pointer button went down. Holding the left button
    /// turns pointer movement into panning.
    pub fn on_pointer_down(&mut self, button: MouseButton)
        ensures
            final(self).left_hold == (button == MouseButton::Left || old(self).left_hold),
            final(self).view == old(self).view,
            final(self).uniforms == old(self).uniforms,
            final(self).line_vertices == old(self).line_vertices,
            final(self).x_sections == old(self).x_sections,
            final(self).y_sections == old(self).y_sections,
            final(self).crosshair == old(self).crosshair,
            final(self).buffers == old(self).buffers,
            final(self).pointer == old(self).pointer,
            old(self).wf() ==> final(self).wf(),
            old(self).ticks_current() ==> final(self).ticks_current(),
    {
        match button {
            MouseButton::Left => {
                self.left_hold = true;
            },
            _ => {},
        }
    }

    /// Notes that a pointer button went up. Releasing the left button ends
    /// panning.
    pub fn on_pointer_up(&mut self, button: MouseButton)
        ensures
            final(self).left_hold == (button != MouseButton::Left && old(self).left_hold),
            final(self).view == old(self).view,
            final(self).uniforms == old(self).uniforms,
            final(self).line_vertices == old(self).line_vertices,
            final(self).x_sections == old(self).x_sections,
            final(self).y_sections == old(self).y_sections,
            final(self).crosshair == old(self).crosshair,
            final(self).buffers == old(self).buffers,
            final(self).pointer == old(self).pointer,
            old(self).wf() ==> final(self).wf(),
            old(self).ticks_current() ==> final(self).ticks_current(),
    {
        match button {
            MouseButton::Left => {
                self.left_hold = false;
            },
            _ => {},
        }
    }

    /// The movement from the last known pointer position to `position`.
    pub open spec fn pointer_delta(self, position: Point2d) -> Point2d {
        Point2d {
            x: sub_spec(position.x as int, self.pointer.x as int) as i64,
            y: sub_spec(position.y as int, self.pointer.y as int) as i64,
        }
    }

    /// Takes a new pointer position, in pixels from the top left corner:
    /// the crosshair moves there, and while the left button is held the
    /// view is panned by the movement since the last position.
    ///
    /// The readouts are written before the view is panned, so during a drag
    /// they show the value that was under the pointer for the transform before
    /// this movement.
    pub fn on_pointer_move(&mut self, position: Point2d) -> (update: Update)
        requires
            old(self).wf(),
        ensures
            final(self).wf(),
            old(self).left_hold || old(self).ticks_current() ==> final(self).ticks_current(),
            update.accepted,
            final(self).pointer == position,
            final(self).left_hold == old(self).left_hold,
            final(self).view == old(self).view,
            final(self).buffers == old(self).buffers,
            final(self).line_vertices@.len() == old(self).line_vertices@.len(),
            final(self).x_sections@.len() == old(self).x_sections@.len(),
            final(self).y_sections@.len() == old(self).y_sections@.len(),
            forall|j: int|
                0 <= j < N_BORDER_VERTICES || old(self).data_base() <= j < old(self).line_vertices@.len()
                    ==> final(self).line_vertices@[j] == old(self).line_vertices@[j],
            final(self).crosshair_follows(*old(self), position),
            !old(self).left_hold ==> ({
                &&& final(self).uniforms == old(self).uniforms
                &&& final(self).x_sections == old(self).x_sections
                &&& final(self).y_sections == old(self).y_sections
                &&& forall|j: int|
                    N_UI_VERTICES <= j < final(self).line_vertices@.len() ==> final(self).line_vertices@[j]
                        == old(self).line_vertices@[j]
                &&& update.writes@ == seq![
                    Self::ui_region(N_BORDER_VERTICES as int, N_UI_VERTICES as int),
                    Self::instance_region(),
                ]
            }),
            old(self).left_hold ==> ({
                &&& final(self).uniforms@ == panned_series(
                    old(self).uniforms@,
                    pan_shift(
                        old(self).pointer_delta(position),
                        old(self).view.width,
                        old(self).view.height,
                    ),
                )
                &&& update.writes@ == seq![
                    Self::ui_region(N_BORDER_VERTICES as int, N_UI_VERTICES as int),
                    Self::instance_region(),
                    old(self).tick_region(),
                    Self::uniform_region(LINES_ID as int, old(self).uniforms@.len() as int),
                ]
            }),
            final(self).writes_in_range(update.writes@),
    {
        let delta = Point2d {
            x: sat_sub(position.x, self.pointer.x),
            y: sat_sub(position.y, self.pointer.y),
        };
        self.pointer = position;
        let mut update = self.cursor_moved(position);
        let ghost mid = *self;
        if self.left_hold {
            let pan = self.pan(delta);
            let ghost first = update.writes@;
            let mut writes = update.writes;
            writes.push(pan.writes[0]);
            writes.push(pan.writes[1]);
            assert(writes@ =~= first + pan.writes@);
            assert(writes@ =~= seq![
                Self::ui_region(N_BORDER_VERTICES as int, N_UI_VERTICES as int),
                Self::instance_region(),
                old(self).tick_region(),
                Self::uniform_region(LINES_ID as int, old(self).uniforms@.len() as int),
            ]);
            assert(self.line_vertices@.subrange(N_BORDER_VERTICES as int, N_UI_VERTICES as int)
                =~= mid.line_vertices@.subrange(N_BORDER_VERTICES as int, N_UI_VERTICES as int));
            update = Update { accepted: true, writes };
        }
        update
    }
}


proof fn lemma_margin_inset(pixels: u32, margin: u32)
    requires
        pixels > 2 * margin,
    ensures
        0 <= margin * Viewport::pixel_scale_of(pixels) <= UNIT,
{
    let p = Viewport::pixel_scale_of(pixels);
    let w = pixels as int;
    let m = margin as int;
    vstd::arithmetic::div_mod::lemma_fundamental_div_mod(2 * UNIT, w);
    vstd::arithmetic::div_mod::lemma_mod_bound(2 * UNIT, w);
    assert(0 <= m * p <= UNIT) by (nonlinear_arith)
        requires
            w * p <= 2 * UNIT,
            2 * UNIT < w * p + w,
            w > 2 * m,
            m >= 0,
    ;
}

impl Chart {
    /// The tick slots of a chart never run out when each axis has
    /// [`MAX_EMITTED_TICKS`] of them: while the first data series is
    /// translated by no more than a thousand along either axis, both axes
    /// have ticks and neither emits more than that, however many slots it
    /// has.
    pub proof fn law_slots_suffice(self)
        requires
            self.wf(),
            -1_000_000_000_000 <= self.uniforms@[LINES_ID as int].translate.x
                <= 1_000_000_000_000,
            -1_000_000_000_000 <= self.uniforms@[LINES_ID as int].translate.y
                <= 1_000_000_000_000,
        ensures
            self.x_axis().ticks_defined(),
            self.y_axis().ticks_defined(),
            self.x_axis().tick_count(self.x_sections@.len() as int) <= MAX_EMITTED_TICKS,
            self.y_axis().tick_count(self.y_sections@.len() as int) <= MAX_EMITTED_TICKS,
    {
        lemma_margin_inset(self.view.width, self.view.margin);
        lemma_margin_inset(self.view.height, self.view.margin);
        assert(scale_in_range(self.uniforms@[LINES_ID as int].scale));
        law_slots_suffice(self.x_axis(), self.x_sections@.len() as int);
        law_slots_suffice(self.y_axis(), self.y_sections@.len() as int);
    }
}


/// Zooming a chart is invertible up to rounding.
///
/// Take the uniform blocks of a chart whose data series are within the
/// allowed scale range, a scroll of `first` that is accepted, and a scroll
/// of `second` whose factor times that of the first is within a millionth
/// of one. After both zooms each component of the scale of every data
/// series is back at its first value within a relative error of a
/// hundred-thousandth.
pub proof fn law_zoom_series_inverts(uniforms: Seq<LineUniform>, first: int, second: int)
    requires
        forall|i: int|
            LINES_ID <= i < uniforms.len() ==> scale_in_range((#[trigger] uniforms[i]).scale),
        zoom_accepts(uniforms, zoom_factor(first)),
        -(UNIT * UNIT) <= 1_000_000 * (zoom_factor(first) * zoom_factor(second) - UNIT * UNIT)
            <= UNIT * UNIT,
    ensures
        forall|i: int|
            LINES_ID <= i < uniforms.len() ==> ({
                let back = #[trigger] zoomed_series(
                    zoomed_series(uniforms, zoom_factor(first)),
                    zoom_factor(second),
                )[i];
                &&& -uniforms[i].scale.x <= 100_000 * (back.scale.x - uniforms[i].scale.x)
                    <= uniforms[i].scale.x
                &&& -uniforms[i].scale.y <= 100_000 * (back.scale.y - uniforms[i].scale.y)
                    <= uniforms[i].scale.y
            }),
{
    assert forall|i: int| LINES_ID <= i < uniforms.len() implies ({
        let back = #[trigger] zoomed_series(
            zoomed_series(uniforms, zoom_factor(first)),
            zoom_factor(second),
        )[i];
        &&& -uniforms[i].scale.x <= 100_000 * (back.scale.x - uniforms[i].scale.x)
            <= uniforms[i].scale.x
        &&& -uniforms[i].scale.y <= 100_000 * (back.scale.y - uniforms[i].scale.y)
            <= uniforms[i].scale.y
    }) by {
        assert(scale_in_range(uniforms[i].scale));
        assert(scale_in_range(zoomed(uniforms[i], zoom_factor(first)).scale));
        law_zoom_inverts(uniforms[i], first, second);
    }
}

/// Panning a chart is additive up to rounding.
///
/// Take the uniform blocks of a chart and two pointer movements whose
/// coordinates, like the translations of the data series, are far from the
/// limits of the number range. Panning by one movement and then by the
/// other leaves each component of the translation of every data series at
/// most one unit of the last decimal place below, and never above, where a
/// single pan by their sum takes it.
pub proof fn law_pan_series_adds(
    uniforms: Seq<LineUniform>,
    a: Point2d,
    b: Point2d,
    width: u32,
    height: u32,
)
    requires
        0 < width,
        0 < height,
        forall|i: int|
            LINES_ID <= i < uniforms.len() ==> ({
                &&& -0x1000_0000_0000_0000 <= (#[trigger] uniforms[i]).translate.x
                    <= 0x1000_0000_0000_0000
                &&& -0x1000_0000_0000_0000 <= uniforms[i].translate.y <= 0x1000_0000_0000_0000
            }),
        -0x1000_0000_0000_0000 <= a.x <= 0x1000_0000_0000_0000,
        -0x1000_0000_0000_0000 <= a.y <= 0x1000_0000_0000_0000,
        -0x1000_0000_0000_0000 <= b.x <= 0x1000_0000_0000_0000,
        -0x1000_0000_0000_0000 <= b.y <= 0x1000_0000_0000_0000,
    ensures
        forall|i: int|
            LINES_ID <= i < uniforms.len() ==> ({
                let sum = Point2d { x: (a.x + b.x) as i64, y: (a.y + b.y) as i64 };
                let stepwise = #[trigger] panned_series(
                    panned_series(uniforms, pan_shift(a, width, height)),
                    pan_shift(b, width, height),
                )[i];
                let at_once = panned_series(uniforms, pan_shift(sum, width, height))[i];
                &&& at_once.translate.x - 1 <= stepwise.translate.x <= at_once.translate.x
                &&& at_once.translate.y - 1 <= stepwise.translate.y <= at_once.translate.y
            }),
{
    assert forall|i: int| LINES_ID <= i < uniforms.len() implies ({
        let sum = Point2d { x: (a.x + b.x) as i64, y: (a.y + b.y) as i64 };
        let stepwise = #[trigger] panned_series(
            panned_series(uniforms, pan_shift(a, width, height)),
            pan_shift(b, width, height),
        )[i];
        let at_once = panned_series(uniforms, pan_shift(sum, width, height))[i];
        &&& at_once.translate.x - 1 <= stepwise.translate.x <= at_once.translate.x
        &&& at_once.translate.y - 1 <= stepwise.translate.y <= at_once.translate.y
    }) by {
        law_pan_adds(uniforms[i], a, b, width, height);
    }
}

} // verus!
