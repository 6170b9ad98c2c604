use std::sync::Arc;

use softrender::attachments::{GenericStencilConfig, Rgba, ScaleAlpha, StencilOp, StencilTest};
use softrender::framebuffer::{Framebuffer, RenderBuffer};
use softrender::geometry::{Coordinate, Dimensions, Position, ScreenVertex};
use softrender::mesh::Mesh;
use softrender::pipeline::pixel::Fragment;
use softrender::pipeline::stages::fragment::FragmentShader;
use softrender::pipeline::storage::SeparableScreenPrimitiveStorage;
use softrender::pipeline::Pipeline;
use softrender::primitive::Line;

type Color = Rgba<u8>;
type Buffer = RenderBuffer<Color, i32, u8>;

fn vertex(x: i32, y: i32, z: i32, payload: i32) -> ScreenVertex<i32> {
    ScreenVertex { position: Position { x: x * 256 + 128, y: y * 256 + 128, z, w: 1 }, uniforms: payload }
}

fn draw_line(start: ScreenVertex<i32>, end: ScreenVertex<i32>, antialiased: bool) -> Buffer {
    let config = GenericStencilConfig { op: StencilOp::Increment { wrap: false }, test: StencilTest::Always };
    let mut pipeline = Pipeline::new(Buffer::with_dimensions(Dimensions::new(12, 12)), config, ());
    let primitives =
        Arc::new(SeparableScreenPrimitiveStorage { tris: Vec::new(), lines: vec![start, end], points: Vec::new() });
    let mesh: Arc<Mesh<()>> = Arc::new(Mesh { indices: Vec::new(), vertices: Vec::new() });
    let stage: FragmentShader<Buffer, GenericStencilConfig, (), (), Line, i32, ScaleAlpha> =
        FragmentShader::new(&mut pipeline, mesh, Arc::new(None), primitives, 0, ScaleAlpha)
            .with_antialiased_lines(antialiased)
            .with_tile_size(Dimensions::new(4, 4));
    assert!(stage.is_renderable());
    stage.run(|vertex: &ScreenVertex<i32>, _: &()| {
        // The alpha of the fragment is full, so the blend leaves the coverage in it.
        Fragment::Color(Rgba { data: [vertex.uniforms as u8, vertex.position.z as u8, 0, 255] })
    });
    pipeline.framebuffer
}

fn cell(buffer: &Buffer, x: u32, y: u32) -> (Color, i32, u8) {
    let index = Coordinate::new(x, y).into_index(buffer.dimensions());
    (
        buffer.get_pixel_unchecked(index),
        buffer.get_depth_unchecked(index),
        buffer.get_stencil_unchecked(index),
    )
}

#[test]
fn bresenham_line_visits_the_nearest_pixels() {
    // Ten steps to the right, four steps down: the rise after k steps is 0.4 k.
    let buffer = draw_line(vertex(0, 0, 0, 0), vertex(10, 4, 100, 200), false);
    let rows = [0u32, 0, 1, 1, 2, 2, 2, 3, 3, 4, 4];
    for y in 0..11u32 {
        for x in 0..11u32 {
            let (color, depth, visits) = cell(&buffer, x, y);
            if rows[x as usize] == y {
                // Payload and depth are interpolated along the line, rounded down.
                assert_eq!(visits, 1, "pixel ({}, {})", x, y);
                assert_eq!(depth, (x * 10) as i32);
                assert_eq!(color, Rgba { data: [(x * 20) as u8, (x * 10) as u8, 0, 255] });
            } else {
                assert_eq!(visits, 0, "pixel ({}, {})", x, y);
                assert_eq!(color, Rgba { data: [0, 0, 0, 0] });
                assert_eq!(depth, i32::MIN);
            }
        }
    }
}

#[test]
fn bresenham_line_runs_backwards_and_upwards() {
    let buffer = draw_line(vertex(4, 10, 0, 0), vertex(0, 0, 0, 0), false);
    let columns = [0u32, 0, 1, 1, 2, 2, 2, 3, 3, 4, 4];
    for y in 0..11u32 {
        for x in 0..11u32 {
            // Step k starts from the far end: row 10 - k, column 4 less the rise.
            let k = 10 - y;
            let expected = 4 - (2 * 4 * k + 10) / 20;
            let (_, _, visits) = cell(&buffer, x, y);
            assert_eq!(visits, if x == expected { 1 } else { 0 }, "pixel ({}, {})", x, y);
        }
    }
    assert_eq!(columns[10], 4);
}

#[test]
fn antialiased_line_shares_the_coverage() {
    let buffer = draw_line(vertex(0, 0, 0, 7), vertex(10, 4, 0, 7), true);
    for x in 0..11u32 {
        let lower = (4 * x) / 10;
        let upper = (255 * ((4 * x) % 10)) / 10;
        for y in 0..11u32 {
            let (color, _, visits) = cell(&buffer, x, y);
            if y == lower {
                assert_eq!(visits, 1);
                assert_eq!(color.data[3] as u32, 255 - upper, "pixel ({}, {})", x, y);
            } else if y == lower + 1 && upper > 0 {
                assert_eq!(visits, 1);
                assert_eq!(color.data[3] as u32, upper, "pixel ({}, {})", x, y);
            } else {
                assert_eq!(visits, 0, "pixel ({}, {})", x, y);
            }
        }
    }
}

#[test]
fn line_of_one_pixel() {
    let buffer = draw_line(vertex(3, 5, 9, 1), vertex(3, 5, 20, 2), false);
    for y in 0..12u32 {
        for x in 0..12u32 {
            let (color, depth, visits) = cell(&buffer, x, y);
            if (x, y) == (3, 5) {
                assert_eq!((color, depth, visits), (Rgba { data: [1, 9, 0, 255] }, 9, 1));
            } else {
                assert_eq!(visits, 0);
            }
        }
    }
}
