use std::sync::Arc;

use softrender::attachments::{GenericStencilConfig, Overwrite, Rgba, StencilOp, StencilTest};
use softrender::framebuffer::{Framebuffer, RenderBuffer};
use softrender::geometry::{Coordinate, Dimensions, Position, ScreenVertex};
use softrender::mesh::Mesh;
use softrender::pipeline::pixel::Fragment;
use softrender::pipeline::stages::fragment::FragmentShader;
use softrender::pipeline::storage::SeparableScreenPrimitiveStorage;
use softrender::pipeline::Pipeline;
use softrender::primitive::Triangle;

type Color = Rgba<u8>;
type Buffer = RenderBuffer<Color, i32, u8>;

const EMPTY: Color = Rgba { data: [0, 0, 0, 0] };
const RED: Color = Rgba { data: [255, 0, 0, 255] };
const GREEN: Color = Rgba { data: [0, 255, 0, 255] };
const BLUE: Color = Rgba { data: [0, 0, 255, 255] };
const PURPLE: Color = Rgba { data: [128, 0, 128, 255] };

/// A vertex at the pixel position `(x, y)`, given in halves of a pixel.
fn vertex(half_x: i32, half_y: i32, z: i32, payload: i32) -> ScreenVertex<i32> {
    ScreenVertex { position: Position { x: half_x * 128, y: half_y * 128, z, w: 1 }, uniforms: payload }
}

fn storage(
    tris: Vec<ScreenVertex<i32>>,
    lines: Vec<ScreenVertex<i32>>,
    points: Vec<ScreenVertex<i32>>,
) -> Arc<SeparableScreenPrimitiveStorage<i32>> {
    Arc::new(SeparableScreenPrimitiveStorage { tris, lines, points })
}

fn no_mesh() -> Arc<Mesh<()>> {
    Arc::new(Mesh { indices: Vec::new(), vertices: Vec::new() })
}

fn palette(vertex: &ScreenVertex<i32>, _uniforms: &()) -> Fragment<Color> {
    match vertex.uniforms {
        0 => Fragment::Color(RED),
        1 => Fragment::Color(BLUE),
        2 => Fragment::Color(GREEN),
        3 => Fragment::Color(PURPLE),
        _ => Fragment::Discard,
    }
}

fn pixel(buffer: &Buffer, x: u32, y: u32) -> Color {
    let index = Coordinate::new(x, y).into_index(buffer.dimensions());
    buffer.get_pixel(index).unwrap()
}

fn draw(
    pipeline: &mut Pipeline<Buffer, GenericStencilConfig, ()>,
    primitives: Arc<SeparableScreenPrimitiveStorage<i32>>,
    stencil_value: u8,
    tile_size: Dimensions,
) {
    let stage: FragmentShader<Buffer, GenericStencilConfig, (), (), Triangle, i32, Overwrite> =
        FragmentShader::new(pipeline, no_mesh(), Arc::new(None), primitives, stencil_value, Overwrite)
            .with_tile_size(tile_size);
    assert!(stage.is_renderable());
    stage.run(palette);
}

#[test]
fn clear_only() {
    let mut buffer = Buffer::with_dimensions(Dimensions::new(4, 4));
    let color = Rgba { data: [64, 128, 191, 255] };
    buffer.clear(color);
    for index in 0..16 {
        assert_eq!(buffer.get_pixel(index), Ok(color));
        assert_eq!(buffer.get_depth_unchecked(index), i32::MIN);
        assert_eq!(buffer.get_stencil_unchecked(index), 0);
    }
}

#[test]
fn single_triangle_covers_three_pixels() {
    let mut pipeline = Pipeline::new(Buffer::with_dimensions(Dimensions::new(4, 4)), GenericStencilConfig::default(), ());
    let triangle = vec![vertex(1, 1, 0, 0), vertex(5, 1, 0, 0), vertex(1, 5, 0, 0)];
    draw(&mut pipeline, storage(triangle, Vec::new(), Vec::new()), 0, Dimensions::new(128, 128));
    for y in 0..4 {
        for x in 0..4 {
            let expected = if (x, y) == (0, 0) || (x, y) == (1, 0) || (x, y) == (0, 1) { RED } else { EMPTY };
            assert_eq!(pixel(&pipeline.framebuffer, x, y), expected, "pixel ({}, {})", x, y);
        }
    }
}

#[test]
fn depth_occlusion() {
    let mut pipeline = Pipeline::new(Buffer::with_dimensions(Dimensions::new(4, 4)), GenericStencilConfig::default(), ());
    let triangles = vec![
        vertex(1, 1, 0, 0),
        vertex(7, 1, 0, 0),
        vertex(1, 7, 0, 0),
        vertex(1, 1, -1, 1),
        vertex(7, 1, -1, 1),
        vertex(1, 7, -1, 1),
    ];
    draw(&mut pipeline, storage(triangles, Vec::new(), Vec::new()), 0, Dimensions::new(128, 128));
    assert_eq!(pixel(&pipeline.framebuffer, 1, 1), RED);
    assert_eq!(pipeline.framebuffer.get_depth_unchecked(5), 0);
}

#[test]
fn closer_triangle_wins() {
    let mut pipeline = Pipeline::new(Buffer::with_dimensions(Dimensions::new(4, 4)), GenericStencilConfig::default(), ());
    let triangles = vec![
        vertex(1, 1, 0, 0),
        vertex(7, 1, 0, 0),
        vertex(1, 7, 0, 0),
        vertex(1, 1, 5, 1),
        vertex(7, 1, 5, 1),
        vertex(1, 7, 5, 1),
    ];
    draw(&mut pipeline, storage(triangles, Vec::new(), Vec::new()), 0, Dimensions::new(128, 128));
    assert_eq!(pixel(&pipeline.framebuffer, 1, 1), BLUE);
    assert_eq!(pipeline.framebuffer.get_depth_unchecked(5), 5);
}

#[test]
fn stencil_mask() {
    let mut buffer = Buffer::with_dimensions(Dimensions::new(4, 4));
    for y in 0..4u32 {
        for x in 0..2u32 {
            let index = Coordinate::new(x, y).into_index(buffer.dimensions());
            buffer.set_stencil_unchecked(index, 1);
        }
    }
    let config = GenericStencilConfig { op: StencilOp::Keep, test: StencilTest::Equal };
    let mut pipeline = Pipeline::new(buffer, config, ());
    let quad = vec![
        vertex(0, 0, 0, 2),
        vertex(8, 0, 0, 2),
        vertex(0, 8, 0, 2),
        vertex(8, 0, 0, 2),
        vertex(8, 8, 0, 2),
        vertex(0, 8, 0, 2),
    ];
    draw(&mut pipeline, storage(quad, Vec::new(), Vec::new()), 1, Dimensions::new(128, 128));
    for y in 0..4 {
        for x in 0..4 {
            let drawn = x < 2 && y < 3;
            let expected = if drawn { GREEN } else { EMPTY };
            assert_eq!(pixel(&pipeline.framebuffer, x, y), expected, "pixel ({}, {})", x, y);
        }
    }
}

#[test]
fn point_primitive() {
    let mut pipeline = Pipeline::new(Buffer::with_dimensions(Dimensions::new(4, 4)), GenericStencilConfig::default(), ());
    draw(&mut pipeline, storage(Vec::new(), Vec::new(), vec![vertex(5, 5, 0, 3)]), 0, Dimensions::new(128, 128));
    for y in 0..4 {
        for x in 0..4 {
            let expected = if (x, y) == (2, 2) { PURPLE } else { EMPTY };
            assert_eq!(pixel(&pipeline.framebuffer, x, y), expected, "pixel ({}, {})", x, y);
        }
    }
}

fn counted(tile_size: Dimensions) -> Buffer {
    let config = GenericStencilConfig { op: StencilOp::Increment { wrap: false }, test: StencilTest::Always };
    let mut pipeline = Pipeline::new(Buffer::with_dimensions(Dimensions::new(256, 256)), config, ());
    let triangle = vec![vertex(60, 60, 0, 0), vertex(200, 60, 0, 0), vertex(60, 200, 0, 0)];
    draw(&mut pipeline, storage(triangle, Vec::new(), Vec::new()), 0, tile_size);
    pipeline.framebuffer
}

#[test]
fn tile_boundary() {
    let tiled = counted(Dimensions::new(64, 64));
    let whole = counted(Dimensions::new(1024, 1024));
    let mut covered = 0;
    for y in 0..256u32 {
        for x in 0..256u32 {
            let index = Coordinate::new(x, y).into_index(tiled.dimensions());
            // The center of the pixel lies inside the triangle or on its top or left edge.
            let inside = x >= 30 && y >= 30 && (2 * x + 1) + (2 * y + 1) < 260;
            let visits = tiled.get_stencil_unchecked(index);
            assert_eq!(visits, if inside { 1 } else { 0 }, "pixel ({}, {})", x, y);
            assert_eq!(tiled.get_pixel_unchecked(index), if inside { RED } else { EMPTY });
            assert_eq!(visits, whole.get_stencil_unchecked(index));
            assert_eq!(tiled.get_pixel_unchecked(index), whole.get_pixel_unchecked(index));
            assert_eq!(tiled.get_depth_unchecked(index), whole.get_depth_unchecked(index));
            covered += visits as u32;
        }
    }
    assert_eq!(pixel(&tiled, 63, 30), RED);
    assert_eq!(pixel(&tiled, 64, 30), RED);
    assert_eq!(pixel(&tiled, 30, 63), RED);
    assert_eq!(pixel(&tiled, 30, 64), RED);
    assert!(covered > 0);
}
