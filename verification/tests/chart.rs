use niobe::buffer::{BufferId, BufferWrite};
use niobe::chart::{Chart, ChartConfig, ChartError, MouseButton, Update};
use niobe::fixed::Point2d;
use niobe::pipelines::line::Rgba;

const UNIT: i64 = 1_000_000_000;

fn grey() -> Rgba {
    Rgba { r: 100_000_000, g: 100_000_000, b: 100_000_000, a: UNIT }
}

fn config() -> ChartConfig {
    ChartConfig {
        width: 800,
        height: 600,
        margin: 50,
        border_width: 5,
        grid_line_width: 2,
        max_x_ticks: 201,
        max_y_ticks: 201,
        scale: Point2d { x: 850_000_000, y: 850_000_000 },
        translate: Point2d { x: 0, y: 0 },
        border_color: grey(),
        grid_color: grey(),
        crosshair_color: Rgba { r: UNIT, g: 0, b: 0, a: UNIT },
        hover_color: Rgba { r: 650_000_000, g: 160_000_000, b: 160_000_000, a: UNIT },
        series: vec![Rgba { r: UNIT, g: 650_000_000, b: 0, a: UNIT }],
        points: (0..64).map(|i| Point2d { x: (i - 32) * UNIT / 32, y: 0 }).collect(),
    }
}

fn chart() -> Chart {
    Chart::new(config()).unwrap()
}

fn capacity(chart: &Chart, id: BufferId) -> u32 {
    match id {
        BufferId::LineVertices => chart.buffers.line_vbo.len(),
        BufferId::LineUniforms => chart.buffers.line_ubo.len(),
        BufferId::HoverVertices => chart.buffers.hover_vbo.len(),
        BufferId::HoverIndices => chart.buffers.hover_ibo.len(),
        BufferId::MeshUniforms => chart.buffers.mesh_ubo.len(),
        BufferId::MeshInstances => chart.buffers.mesh_instance_vbo.len(),
        BufferId::Segment => 0,
    }
}

fn assert_in_range(chart: &Chart, update: &Update) {
    for write in &update.writes {
        assert!(write.offset as u64 + write.count as u64 <= capacity(chart, write.buffer) as u64);
    }
}

fn tick_write() -> BufferWrite {
    BufferWrite {
        buffer: BufferId::LineVertices,
        offset: 9,
        count: 804,
        source: 9,
        byte_offset: 72,
        byte_len: 6432,
    }
}

fn series_write() -> BufferWrite {
    BufferWrite {
        buffer: BufferId::LineUniforms,
        offset: 3,
        count: 1,
        source: 3,
        byte_offset: 768,
        byte_len: 256,
    }
}

#[test]
fn a_new_chart_has_its_layout() {
    let chart = chart();
    assert_eq!(chart.view.pixel_scale, Point2d { x: 2_500_000, y: 3_333_333 });
    assert_eq!(chart.uniforms.len(), 4);
    assert_eq!(chart.uniforms[0].scale, Point2d { x: 875_000_000, y: 833_333_333 });
    assert_eq!(chart.uniforms[0].line_scale, Point2d { x: 10_000_000, y: 10_000_000 });
    assert_eq!(chart.uniforms[1].scale, Point2d { x: UNIT, y: UNIT });
    assert_eq!(chart.uniforms[2].line_scale, Point2d { x: 2_000_000, y: 2_000_000 });
    assert_eq!(chart.uniforms[3].scale, Point2d { x: 850_000_000, y: 850_000_000 });
    assert_eq!(chart.uniforms[3].translate, Point2d { x: 0, y: 0 });
    assert_eq!(chart.line_vertices.len(), 9 + 2 * 201 + 2 * 201 + 64);
    assert_eq!(chart.line_vertices[813], Point2d { x: -UNIT, y: 0 });
    assert_eq!(chart.line_vertices[876], Point2d { x: 31 * UNIT / 32, y: 0 });
    assert_eq!(chart.line_vertices[0], Point2d { x: -UNIT, y: -UNIT });
    assert_eq!(chart.line_vertices[2], Point2d { x: UNIT, y: UNIT });
    assert_eq!(chart.line_vertices[4], chart.line_vertices[0]);
    assert_eq!(chart.x_sections.len(), 201);
    assert_eq!(chart.y_sections.len(), 201);
    assert_eq!(chart.buffers.line_vbo.len(), 877);
    assert_eq!(chart.buffers.line_ubo.len(), 4);
    assert_eq!(chart.buffers.line_ubo.stride(), 256);
    assert_eq!(chart.buffers.hover_ibo.len(), 6);
    assert_eq!(chart.crosshair.sections.len(), 2);
    assert_eq!(chart.crosshair.sections[0].text, "");
    assert_eq!(chart.crosshair.hover_vertices.len(), 8);
    assert_eq!(chart.crosshair.hover_vertices[1], Point2d { x: 50_000_000, y: -UNIT });
    assert_eq!(chart.crosshair.hover_vertices[2], Point2d { x: 50_000_000, y: -833_333_350 });
    assert_eq!(chart.crosshair.hover_vertices[6], Point2d { x: -875_000_000, y: 83_333_325 });
    assert!(!chart.left_hold);
}

#[test]
fn a_new_chart_has_no_ticks_yet() {
    let chart = chart();
    for section in chart.x_sections.iter().chain(chart.y_sections.iter()) {
        assert_eq!(section.text, "");
        assert_eq!(section.screen_position, Point2d { x: 0, y: 0 });
        assert_eq!(section.bounds, Point2d { x: 0, y: 0 });
    }
    for vertex in &chart.line_vertices[9..813] {
        assert_eq!(*vertex, Point2d { x: 0, y: 0 });
    }
}

#[test]
fn the_first_update_brings_the_ticks_of_the_transform() {
    let mut chart = chart();
    let write = chart.update_ticks();
    assert_eq!(write, tick_write());
    // horizontal axis: 21 ticks from -1 to 1, 0.085 apart on screen
    assert_eq!(chart.line_vertices[9], Point2d { x: -850_000_000, y: -UNIT });
    assert_eq!(chart.line_vertices[10], Point2d { x: -850_000_000, y: UNIT });
    assert_eq!(chart.line_vertices[9 + 2 * 20], Point2d { x: 850_000_000, y: -UNIT });
    assert_eq!(chart.line_vertices[9 + 2 * 21], Point2d { x: 0, y: 0 });
    assert_eq!(chart.x_sections[0].text, "-1");
    assert_eq!(chart.x_sections[20].text, "1");
    assert_eq!(chart.x_sections[21].text, "");
    // (-0.85 + 1) / 0.0025 = 60 pixels from the left, 1.95 / 0.003333333 from the top
    assert_eq!(chart.x_sections[0].screen_position, Point2d { x: 60 * UNIT, y: 585_000_058_500 });
    // 800 pixels over 2 / 0.085 = 23.529411764 ticks
    assert_eq!(chart.x_sections[0].bounds, Point2d { x: 34_000_000_001, y: 600 * UNIT });
    assert_eq!(chart.x_sections[21].screen_position, Point2d { x: 0, y: 0 });
    // vertical axis: the margin is 50 of 600 pixels, the range starts at -0.98...
    let base = 9 + 2 * 201;
    assert_eq!(chart.line_vertices[base], Point2d { x: -UNIT, y: -765_000_000 });
    assert_eq!(chart.line_vertices[base + 1], Point2d { x: UNIT, y: -765_000_000 });
    assert_eq!(chart.y_sections[0].text, "-0.9");
    assert_eq!(chart.y_sections[0].screen_position.x, 0);
    assert_eq!(chart.y_sections[18].text, "0.9");
    assert_eq!(chart.y_sections[19].text, "");
}

#[test]
fn each_refusal_has_its_error() {
    let mut c = config();
    c.width = 100;
    assert_eq!(Chart::new(c).err(), Some(ChartError::ViewportRefused));
    let mut c = config();
    c.height = 1_000_001;
    assert_eq!(Chart::new(c).err(), Some(ChartError::ViewportRefused));
    let mut c = config();
    c.margin = u32::MAX;
    assert_eq!(Chart::new(c).err(), Some(ChartError::ViewportRefused));
    let mut c = config();
    c.series = Vec::new();
    assert_eq!(Chart::new(c).err(), Some(ChartError::NoSeries));
    let mut c = config();
    c.max_y_ticks = 0x0100_0000;
    assert_eq!(Chart::new(c).err(), Some(ChartError::TooManyTicks));
    let mut c = config();
    c.scale.x = 999_999;
    assert_eq!(Chart::new(c).err(), Some(ChartError::ScaleOutOfRange));
    let mut c = config();
    c.scale.y = 1_000_000_000_001;
    assert_eq!(Chart::new(c).err(), Some(ChartError::ScaleOutOfRange));
    let mut c = config();
    c.width = 100;
    c.series = Vec::new();
    assert_eq!(Chart::new(c).err(), Some(ChartError::ViewportRefused));
}

#[test]
fn more_series_than_uniform_blocks_are_refused() {
    let mut c = config();
    c.series = vec![grey(); 0x00ff_ffff - 2];
    assert_eq!(Chart::new(c).err(), Some(ChartError::TooManySeries));
}

#[test]
fn pan_then_zoom() {
    let mut chart = chart();
    let border = chart.uniforms[0];
    let update = chart.pan(Point2d { x: 100 * UNIT, y: 0 });
    assert!(update.accepted);
    assert_eq!(chart.uniforms[3].translate, Point2d { x: 250_000_000, y: 0 });
    assert_eq!(chart.uniforms[3].scale, Point2d { x: 850_000_000, y: 850_000_000 });
    assert_eq!(update.writes, vec![tick_write(), series_write()]);
    let update = chart.zoom(UNIT);
    assert!(update.accepted);
    assert_eq!(chart.uniforms[3].scale, Point2d { x: 892_500_000, y: 892_500_000 });
    assert_eq!(chart.uniforms[3].line_scale, Point2d { x: 1_900_000, y: 1_900_000 });
    assert_eq!(chart.uniforms[3].translate, Point2d { x: 250_000_000, y: 0 });
    assert_eq!(chart.uniforms[0], border);
    assert_eq!(chart.uniforms[1].scale, Point2d { x: UNIT, y: UNIT });
    assert_eq!(chart.uniforms[2].scale, Point2d { x: UNIT, y: UNIT });
    assert_eq!(update.writes, vec![tick_write(), series_write()]);
}

#[test]
fn pan_flips_the_vertical_direction() {
    let mut chart = chart();
    chart.pan(Point2d { x: 0, y: 150 * UNIT });
    assert_eq!(chart.uniforms[3].translate, Point2d { x: 0, y: -500_000_000 });
    chart.pan(Point2d { x: -8 * UNIT, y: -3 * UNIT });
    assert_eq!(chart.uniforms[3].translate, Point2d { x: -20_000_000, y: -490_000_000 });
}

#[test]
fn pan_moves_the_ticks() {
    let mut chart = chart();
    chart.pan(Point2d { x: 100 * UNIT, y: 0 });
    // the near edge is now at (-0.875 - 0.25) / 0.85 = -1.3235...
    assert_eq!(chart.x_sections[0].text, "-1.3");
    assert_eq!(chart.line_vertices[9].x, -1_300_000_000 * 85 / 100 + 250_000_000);
    assert_eq!(chart.line_vertices[11].x - chart.line_vertices[9].x, 85_000_000);
}

#[test]
fn pan_of_every_series() {
    let mut c = config();
    c.series = vec![grey(), grey(), grey()];
    let mut chart = Chart::new(c).unwrap();
    let update = chart.pan(Point2d { x: 4 * UNIT, y: 0 });
    for i in 3..6 {
        assert_eq!(chart.uniforms[i].translate.x, 10_000_000);
    }
    assert_eq!(chart.uniforms[0].translate.x, 0);
    assert_eq!(chart.uniforms[1].translate.x, 0);
    assert_eq!(chart.uniforms[2].translate.x, 0);
    assert_eq!((update.writes[1].offset, update.writes[1].count), (3, 3));
    let update = chart.zoom(UNIT);
    for i in 3..6 {
        assert_eq!(chart.uniforms[i].scale.x, 892_500_000);
    }
    assert_eq!(update.writes[1].byte_len, 768);
}

#[test]
fn zoom_factors() {
    let mut up = chart();
    up.zoom(0);
    assert_eq!(up.uniforms[3].scale.x, 42_500_000);
    assert_eq!(up.uniforms[3].line_scale.x, 3_900_000);
    let mut down = chart();
    down.zoom(-UNIT);
    assert_eq!(down.uniforms[3].scale.x, 807_500_000);
    assert_eq!(down.uniforms[3].line_scale.x, 2_100_000);
    let mut half = chart();
    half.zoom(-UNIT / 2);
    assert_eq!(half.uniforms[3].scale.x, 828_750_000);
}

#[test]
fn zoom_out_of_range_is_refused() {
    let mut chart = chart();
    // factor 1 - 25 * 0.05 is negative
    let update = chart.zoom(-25 * UNIT);
    assert!(!update.accepted);
    assert!(update.writes.is_empty());
    assert_eq!(chart.uniforms[3].scale, Point2d { x: 850_000_000, y: 850_000_000 });
    // factor 20000.05 takes the scale beyond 1000
    let update = chart.zoom(20_000 * UNIT);
    assert!(!update.accepted);
    assert_eq!(chart.uniforms[3].scale, Point2d { x: 850_000_000, y: 850_000_000 });
    assert_eq!(chart.x_sections[0].text, "");
    // zooming out by 0.05 each time stops at the lower limit
    let mut accepted = 0;
    while chart.zoom(0).accepted {
        accepted += 1;
    }
    assert_eq!(accepted, 2);
    assert_eq!(chart.uniforms[3].scale.x, 2_125_000);
}

#[test]
fn zoom_is_undone_by_a_large_inverse_factor() {
    let mut chart = chart();
    // factors 0.001220703 and 819.2: the second factor is far above one
    assert!(chart.zoom(-19_975_585_940).accepted);
    let small = chart.uniforms[3].scale.x;
    assert!(small >= 1_000_000 && small < 1_100_000);
    let factor = 1_000_000_000_000_000_000 / niobe::transform::zoom_factor_of(-19_975_585_940);
    assert!(chart.zoom(factor - 50_000_000).accepted);
    let scale = chart.uniforms[3].scale.x;
    assert!((scale - 850_000_000).abs() * 100_000 <= 850_000_000);
}

#[test]
fn pointer_positions_convert_to_and_from_pixels() {
    let chart = chart();
    let centre = chart.view.pixel_to_screen_space(Point2d { x: 400 * UNIT, y: 300 * UNIT });
    assert_eq!(centre, Point2d { x: 0, y: 0 });
    let corner = chart.view.pixel_to_screen_space(Point2d { x: 0, y: 0 });
    assert_eq!(corner, Point2d { x: -UNIT, y: UNIT });
    let quarter = chart.view.pixel_to_screen_space(Point2d { x: 200 * UNIT, y: 150 * UNIT });
    assert_eq!(quarter, Point2d { x: -500_000_000, y: 500_000_000 });
    assert_eq!(
        chart.view.screen_to_pixel_space(Point2d { x: -UNIT, y: UNIT }),
        Point2d { x: 0, y: 0 }
    );
    assert_eq!(
        chart.view.screen_to_pixel_space(Point2d { x: 0, y: UNIT }),
        Point2d { x: 400 * UNIT, y: 0 }
    );
    // a pixel is 0.003333333 high: the bottom edge comes out 0.00006 pixels low
    assert_eq!(
        chart.view.screen_to_pixel_space(Point2d { x: UNIT, y: -UNIT }),
        Point2d { x: 800 * UNIT, y: 600_000_060_000 }
    );
}

#[test]
fn zoom_is_undone_by_the_inverse_factor() {
    let mut chart = chart();
    // factors 0.25 and 4
    chart.zoom(200_000_000);
    assert_eq!(chart.uniforms[3].scale.x, 212_500_000);
    chart.zoom(3_950_000_000);
    assert_eq!(chart.uniforms[3].scale, Point2d { x: 850_000_000, y: 850_000_000 });
    // factors 1.05 and 1 - 0.952380952 * 0.05 = 0.952380953
    chart.zoom(UNIT);
    chart.zoom(-952_380_952);
    let scale = chart.uniforms[3].scale.x;
    assert!((scale - 850_000_000).abs() * 100_000 <= 850_000_000);
    assert_eq!(chart.uniforms[3].scale.y, scale);
}

#[test]
fn pans_add_up() {
    let steps: [(i64, i64); 4] = [
        (100 * UNIT, 0),
        (UNIT / 3, -7 * UNIT / 11),
        (-12_345_678_901, 98_765_432_109),
        (1, -1),
    ];
    for (ax, ay) in steps {
        for (bx, by) in steps {
            let mut stepwise = chart();
            stepwise.pan(Point2d { x: ax, y: ay });
            stepwise.pan(Point2d { x: bx, y: by });
            let mut at_once = chart();
            at_once.pan(Point2d { x: ax + bx, y: ay + by });
            let a = stepwise.uniforms[3].translate;
            let b = at_once.uniforms[3].translate;
            assert!(b.x - 1 <= a.x && a.x <= b.x);
            assert!(b.y - 1 <= a.y && a.y <= b.y);
        }
    }
}

#[test]
fn resize_takes_the_new_size() {
    let mut chart = chart();
    let update = chart.resize(1000, 500);
    assert!(update.accepted);
    assert_eq!((chart.view.width, chart.view.height), (1000, 500));
    assert_eq!(chart.view.pixel_scale, Point2d { x: 2_000_000, y: 4_000_000 });
    assert_eq!(chart.uniforms[0].scale, Point2d { x: 900_000_000, y: 800_000_000 });
    assert_eq!(chart.uniforms[0].line_scale, Point2d { x: 10_000_000, y: 20_000_000 });
    assert_eq!(chart.uniforms[1].line_scale, Point2d { x: 4_000_000, y: 8_000_000 });
    assert_eq!(chart.uniforms[1].scale, Point2d { x: UNIT, y: UNIT });
    assert_eq!(chart.uniforms[3].scale, Point2d { x: 850_000_000, y: 850_000_000 });
    let uniforms = BufferWrite {
        buffer: BufferId::LineUniforms,
        offset: 0,
        count: 2,
        source: 0,
        byte_offset: 0,
        byte_len: 512,
    };
    assert_eq!(update.writes, vec![uniforms, tick_write()]);
    // the margin is now 0.1 of the half width: the range starts at -0.9 / 0.85
    assert_eq!(chart.x_sections[0].text, "-1");
    assert_eq!(chart.x_sections[0].screen_position.x, 75 * UNIT);
}

#[test]
fn resize_inside_the_margin_changes_nothing() {
    for (width, height) in [(100, 600), (800, 100), (0, 0), (99, 99), (50, 5000), (1_000_001, 600)] {
        let mut chart = chart();
        chart.pan(Point2d { x: 3 * UNIT, y: 5 * UNIT });
        chart.cursor_moved(Point2d { x: 10 * UNIT, y: 20 * UNIT });
        let before = format!("{:?}", chart);
        let update = chart.resize(width, height);
        assert!(!update.accepted);
        assert!(update.writes.is_empty());
        assert_eq!(format!("{:?}", chart), before);
    }
    let mut chart = chart();
    assert!(chart.resize(101, 101).accepted);
}

#[test]
fn the_crosshair_follows_the_pointer() {
    let mut chart = chart();
    let update = chart.cursor_moved(Point2d { x: 200 * UNIT, y: 150 * UNIT });
    assert!(update.accepted);
    let mouse = Point2d { x: -500_000_000, y: 500_000_000 };
    assert_eq!(chart.crosshair.mouse_pos, mouse);
    assert_eq!(chart.line_vertices[5], Point2d { x: -UNIT, y: mouse.y });
    assert_eq!(chart.line_vertices[6], Point2d { x: UNIT, y: mouse.y });
    assert_eq!(chart.line_vertices[7], Point2d { x: mouse.x, y: -UNIT });
    assert_eq!(chart.line_vertices[8], Point2d { x: mouse.x, y: UNIT });
    assert_eq!(chart.line_vertices[4], Point2d { x: -UNIT, y: -UNIT });
    assert_eq!(chart.line_vertices[9], Point2d { x: 0, y: 0 });
    assert_eq!(chart.crosshair.mesh_uniforms[0].translate, mouse);
    assert_eq!(chart.crosshair.mesh_instance_positions[0], Point2d { x: mouse.x, y: 0 });
    assert_eq!(chart.crosshair.mesh_instance_positions[1], Point2d { x: 0, y: mouse.y });
    // -0.5 / 0.85 = -0.588..., 0.5 / 0.85 = 0.588...
    assert_eq!(chart.crosshair.sections[0].text, "-0.59");
    assert_eq!(chart.crosshair.sections[1].text, "0.59");
    assert_eq!(chart.crosshair.sections[0].screen_position.x, 200 * UNIT);
    assert_eq!(chart.crosshair.sections[1].screen_position.x, 0);
    assert_eq!(chart.crosshair.sections[0].bounds, Point2d { x: 100 * UNIT, y: 100 * UNIT });
    let lines = BufferWrite {
        buffer: BufferId::LineVertices,
        offset: 5,
        count: 4,
        source: 5,
        byte_offset: 40,
        byte_len: 32,
    };
    let instances = BufferWrite {
        buffer: BufferId::MeshInstances,
        offset: 0,
        count: 2,
        source: 0,
        byte_offset: 0,
        byte_len: 16,
    };
    assert_eq!(update.writes, vec![lines, instances]);
}

#[test]
fn zoom_refreshes_the_readouts() {
    let mut chart = chart();
    chart.cursor_moved(Point2d { x: 200 * UNIT, y: 150 * UNIT });
    chart.zoom(UNIT);
    // -0.5 / 0.8925 = -0.560...
    assert_eq!(chart.crosshair.sections[0].text, "-0.56");
    assert_eq!(chart.crosshair.sections[1].text, "0.56");
}

#[test]
fn dragging_pans() {
    let mut chart = chart();
    chart.on_pointer_move(Point2d { x: 300 * UNIT, y: 300 * UNIT });
    assert_eq!(chart.pointer, Point2d { x: 300 * UNIT, y: 300 * UNIT });
    assert_eq!(chart.uniforms[3].translate, Point2d { x: 0, y: 0 });
    chart.on_pointer_down(MouseButton::Right);
    assert!(!chart.left_hold);
    chart.on_pointer_down(MouseButton::Left);
    assert!(chart.left_hold);
    let update = chart.on_pointer_move(Point2d { x: 400 * UNIT, y: 300 * UNIT });
    assert_eq!(chart.uniforms[3].translate, Point2d { x: 250_000_000, y: 0 });
    assert_eq!(chart.crosshair.mouse_pos, Point2d { x: 0, y: 0 });
    assert_eq!(update.writes.len(), 4);
    assert_eq!(update.writes[2], tick_write());
    assert_eq!(update.writes[3], series_write());
    // the readout was written before the pan
    assert_eq!(chart.crosshair.sections[0].text, "0");
    chart.on_pointer_up(MouseButton::Middle);
    assert!(chart.left_hold);
    chart.on_pointer_up(MouseButton::Left);
    assert!(!chart.left_hold);
    let update = chart.on_pointer_move(Point2d { x: 500 * UNIT, y: 300 * UNIT });
    assert_eq!(chart.uniforms[3].translate, Point2d { x: 250_000_000, y: 0 });
    assert_eq!(update.writes.len(), 2);
}

#[test]
fn no_operation_writes_outside_a_buffer() {
    let mut chart = chart();
    let mut seed: u64 = 0x2545_f491_4f6c_dd1d;
    let mut next = move || {
        seed ^= seed << 13;
        seed ^= seed >> 7;
        seed ^= seed << 17;
        seed
    };
    for _ in 0..300 {
        let a = (next() % 4_000_000_000_000) as i64 - 2_000_000_000_000;
        let b = (next() % 4_000_000_000_000) as i64 - 2_000_000_000_000;
        let update = match next() % 5 {
            0 => chart.zoom(a % (3 * UNIT)),
            1 => chart.pan(Point2d { x: a, y: b }),
            2 => chart.cursor_moved(Point2d { x: a, y: b }),
            3 => chart.on_pointer_move(Point2d { x: a, y: b }),
            _ => chart.resize((next() % 3000) as u32, (next() % 3000) as u32),
        };
        assert_in_range(&chart, &update);
        if next() % 7 == 0 {
            chart.on_pointer_down(MouseButton::Left);
        }
        if next() % 5 == 0 {
            chart.on_pointer_up(MouseButton::Left);
        }
        assert_eq!(chart.line_vertices.len(), 877);
        assert_eq!(chart.uniforms.len(), 4);
        let scale = chart.uniforms[3].scale;
        assert!(scale.x >= 1_000_000 && scale.x <= 1_000_000_000_000);
        assert!(scale.y >= 1_000_000 && scale.y <= 1_000_000_000_000);
    }
}
