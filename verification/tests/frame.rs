use niobe::buffer::{BufferId, BufferWrite, RawSlice};
use niobe::chart::{Chart, ChartConfig};
use niobe::fixed::Point2d;
use niobe::frame::{recovery_for, DrawControlFlow, FrameStep, Recovery, SurfaceError, TextGroup};
use niobe::pipelines::line::Rgba;
use niobe::pipelines::{BindGroupId, DrawCommand, IndexFormat, PipelineKind};

const UNIT: i64 = 1_000_000_000;

fn chart() -> Chart {
    let grey = Rgba { r: 100_000_000, g: 100_000_000, b: 100_000_000, a: UNIT };
    Chart::new(ChartConfig {
        width: 800,
        height: 600,
        margin: 50,
        border_width: 5,
        grid_line_width: 2,
        max_x_ticks: 201,
        max_y_ticks: 201,
        scale: Point2d { x: 850_000_000, y: 850_000_000 },
        translate: Point2d { x: 0, y: 0 },
        border_color: grey,
        grid_color: grey,
        crosshair_color: grey,
        hover_color: grey,
        series: vec![grey],
        points: vec![Point2d { x: 0, y: 0 }; 64],
    })
    .unwrap()
}

fn command(command: DrawCommand) -> FrameStep {
    FrameStep::Command { command }
}

fn vertex_buffer(slot: u32, buf: BufferId, start: u64, end: u64) -> FrameStep {
    command(DrawCommand::SetVertexBuffer { slot, slice: RawSlice { buf, start, end } })
}

fn bind(group: BindGroupId, offset: u32) -> FrameStep {
    command(DrawCommand::SetBindGroup { group, offset })
}

fn draw(instances: u32) -> FrameStep {
    command(DrawCommand::Draw { vertices: 6, instances })
}

#[test]
fn a_frame_in_order() {
    let mut chart = chart();
    let steps = chart.draw(30);
    let ui = BufferId::LineVertices;
    let expected = vec![
        FrameStep::BeginPass { clear: true },
        // border
        command(DrawCommand::SetPipeline { pipeline: PipelineKind::LineStrip }),
        vertex_buffer(0, BufferId::Segment, 0, 48),
        bind(BindGroupId::Line, 0),
        vertex_buffer(1, ui, 0, 40),
        vertex_buffer(2, ui, 0, 40),
        draw(4),
        // data line inside the border
        command(DrawCommand::SetScissorRect { x: 52, y: 52, width: 695, height: 495 }),
        bind(BindGroupId::Line, 768),
        vertex_buffer(1, ui, 6504, 7016),
        vertex_buffer(2, ui, 6504, 7016),
        draw(63),
        // grid
        command(DrawCommand::SetPipeline { pipeline: PipelineKind::Line }),
        vertex_buffer(0, BufferId::Segment, 0, 48),
        bind(BindGroupId::Line, 256),
        vertex_buffer(1, ui, 72, 6504),
        vertex_buffer(2, ui, 72, 6504),
        draw(402),
        // crosshair on top
        bind(BindGroupId::Line, 512),
        vertex_buffer(1, ui, 40, 72),
        vertex_buffer(2, ui, 40, 72),
        draw(2),
        FrameStep::QueueText { group: TextGroup::XTicks },
        FrameStep::QueueText { group: TextGroup::YTicks },
        FrameStep::EndPass,
        FrameStep::FlushText,
        FrameStep::BeginPass { clear: false },
        FrameStep::Write {
            write: BufferWrite {
                buffer: BufferId::HoverVertices,
                offset: 0,
                count: 8,
                source: 0,
                byte_offset: 0,
                byte_len: 64,
            },
        },
        command(DrawCommand::SetPipeline { pipeline: PipelineKind::Mesh }),
        bind(BindGroupId::Mesh, 0),
        vertex_buffer(0, BufferId::HoverVertices, 0, 32),
        command(DrawCommand::SetIndexBuffer {
            slice: RawSlice { buf: BufferId::HoverIndices, start: 0, end: 12 },
            format: IndexFormat::Uint16,
        }),
        vertex_buffer(1, BufferId::MeshInstances, 0, 8),
        command(DrawCommand::DrawIndexed { indices: 6, instances: 1 }),
        vertex_buffer(0, BufferId::HoverVertices, 32, 64),
        vertex_buffer(1, BufferId::MeshInstances, 8, 16),
        command(DrawCommand::DrawIndexed { indices: 6, instances: 1 }),
        FrameStep::QueueText { group: TextGroup::Crosshair },
        FrameStep::EndPass,
        FrameStep::FlushText,
        FrameStep::Submit,
        FrameStep::RecycleStaging,
        FrameStep::RunUntilStalled,
    ];
    assert_eq!(steps, expected);
}

#[test]
fn the_readout_backgrounds_follow_the_measured_text() {
    let mut chart = chart();
    chart.draw(30);
    assert_eq!(chart.crosshair.x_hover_width, 40);
    assert_eq!(chart.crosshair.y_hover_height, 25);
    let quads = &chart.crosshair.hover_vertices;
    // 40 pixels are 0.1 wide, 25 pixels are 0.083333325 high, halved and rounded down; the margin ends at -0.875 and -0.83333335
    assert_eq!(quads[0], Point2d { x: -50_000_000, y: -UNIT });
    assert_eq!(quads[1], Point2d { x: 50_000_000, y: -UNIT });
    assert_eq!(quads[2], Point2d { x: 50_000_000, y: -833_333_350 });
    assert_eq!(quads[3], Point2d { x: -50_000_000, y: -833_333_350 });
    assert_eq!(quads[4], Point2d { x: -UNIT, y: -41_666_662 });
    assert_eq!(quads[5], Point2d { x: -875_000_000, y: -41_666_662 });
    assert_eq!(quads[6], Point2d { x: -875_000_000, y: 41_666_662 });
    assert_eq!(quads[7], Point2d { x: -UNIT, y: 41_666_662 });
    chart.draw(u32::MAX);
    assert_eq!(chart.crosshair.x_hover_width, u32::MAX);
}

#[test]
fn a_border_wider_than_the_plot_leaves_an_empty_scissor() {
    let mut chart = chart();
    chart.view.border_width = 701;
    let steps = chart.draw(0);
    assert_eq!(
        steps[7],
        command(DrawCommand::SetScissorRect { x: 400, y: 400, width: 0, height: 0 })
    );
}

#[test]
fn recovery_after_a_failed_acquisition() {
    assert_eq!(recovery_for(SurfaceError::Lost), Recovery::Reconfigure);
    assert_eq!(recovery_for(SurfaceError::OutOfMemory), Recovery::Exit);
    assert_eq!(recovery_for(SurfaceError::Outdated), Recovery::Skip);
    assert_eq!(recovery_for(SurfaceError::Timeout), Recovery::Skip);
}

#[test]
fn a_lost_surface_is_configured_again() {
    let mut chart = chart();
    let (recovery, update) = chart.recover(SurfaceError::Lost);
    assert_eq!(recovery, Recovery::Reconfigure);
    assert!(update.accepted);
    assert_eq!((chart.view.width, chart.view.height), (800, 600));
    assert_eq!(update.writes.len(), 2);
    assert_eq!(chart.uniforms[0].line_scale, Point2d { x: 12_500_000, y: 16_666_665 });
    let before = format!("{:?}", chart);
    for error in [SurfaceError::OutOfMemory, SurfaceError::Outdated, SurfaceError::Timeout] {
        let (recovery, update) = chart.recover(error);
        assert_eq!(recovery, recovery_for(error));
        assert!(!update.accepted);
        assert!(update.writes.is_empty());
        assert_eq!(format!("{:?}", chart), before);
    }
}

#[test]
fn one_request_keeps_the_round_going() {
    let finished = DrawControlFlow::Finished;
    let requested = DrawControlFlow::DrawRequested;
    assert_eq!(DrawControlFlow::merge(&vec![]), finished);
    assert_eq!(DrawControlFlow::merge(&vec![finished, finished]), finished);
    assert_eq!(DrawControlFlow::merge(&vec![finished, requested, finished]), requested);
    assert_eq!(DrawControlFlow::merge(&vec![requested]), requested);
}
