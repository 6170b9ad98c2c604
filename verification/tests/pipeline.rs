use std::sync::Arc;

use softrender::attachments::{GenericStencilConfig, Overwrite, Rgba, SourceOver, StencilOp, StencilTest};
use softrender::framebuffer::{Framebuffer, RenderBuffer};
use softrender::geometry::{Coordinate, Dimensions, FaceWinding, Position, ScreenVertex};
use softrender::mesh::Mesh;
use softrender::pipeline::pixel::{reject_fragment, shade_pixel, test_fragment, write_fragment, Fragment, RasterArguments};
use softrender::pipeline::rasterization::rasterize_point;
use softrender::pipeline::stages::fragment::{rasterize_tile, FragmentShader};
use softrender::pipeline::storage::SeparableScreenPrimitiveStorage;
use softrender::pipeline::tiles::Tile;
use softrender::pipeline::triangle::rasterize_triangle;
use softrender::pipeline::Pipeline;
use softrender::primitive::{Line, Point, Primitive, Triangle};

type Color = Rgba<u8>;
type Buffer = RenderBuffer<Color, i32, u8>;
type Stage<'a, T> = FragmentShader<'a, Buffer, GenericStencilConfig, (), (), T, i32, Overwrite>;

const EMPTY: Color = Rgba { data: [0, 0, 0, 0] };

/// A vertex at the center of the pixel `(x, y)`.
fn at(x: i32, y: i32, z: i32, payload: i32) -> ScreenVertex<i32> {
    ScreenVertex { position: Position { x: x * 256 + 128, y: y * 256 + 128, z, w: 1 }, uniforms: payload }
}

fn shade(vertex: &ScreenVertex<i32>, _: &()) -> Fragment<Color> {
    if vertex.uniforms < 0 {
        Fragment::Discard
    } else {
        Fragment::Color(Rgba { data: [vertex.uniforms as u8, vertex.position.z as u8, vertex.position.w as u8, 255] })
    }
}

fn pipeline(width: u32, height: u32, config: GenericStencilConfig) -> Pipeline<Buffer, GenericStencilConfig, ()> {
    Pipeline::new(Buffer::with_dimensions(Dimensions::new(width, height)), config, ())
}

fn generated(
    tris: Vec<ScreenVertex<i32>>,
    lines: Vec<ScreenVertex<i32>>,
    points: Vec<ScreenVertex<i32>>,
) -> Arc<SeparableScreenPrimitiveStorage<i32>> {
    Arc::new(SeparableScreenPrimitiveStorage { tris, lines, points })
}

fn nothing_generated() -> Arc<SeparableScreenPrimitiveStorage<i32>> {
    generated(Vec::new(), Vec::new(), Vec::new())
}

fn no_mesh() -> Arc<Mesh<()>> {
    Arc::new(Mesh { indices: Vec::new(), vertices: Vec::new() })
}

fn cell(buffer: &Buffer, x: u32, y: u32) -> (Color, i32, u8) {
    let index = Coordinate::new(x, y).into_index(buffer.dimensions());
    (
        buffer.get_pixel_unchecked(index),
        buffer.get_depth_unchecked(index),
        buffer.get_stencil_unchecked(index),
    )
}

fn counting() -> GenericStencilConfig {
    GenericStencilConfig { op: StencilOp::Increment { wrap: false }, test: StencilTest::Always }
}

fn visited(buffer: &Buffer) -> Vec<(u32, u32)> {
    let dimensions = buffer.dimensions();
    let mut pixels = Vec::new();
    for y in 0..dimensions.height {
        for x in 0..dimensions.width {
            if cell(buffer, x, y).2 > 0 {
                pixels.push((x, y));
            }
        }
    }
    pixels
}

#[test]
fn primitive_kinds() {
    assert!(Triangle::is_triangle() && !Triangle::is_line() && !Triangle::is_point());
    assert!(!Line::is_triangle() && Line::is_line() && !Line::is_point());
    assert!(!Point::is_triangle() && !Point::is_line() && Point::is_point());
}

#[test]
fn triangle_interpolates_depth_and_data() {
    let mut pipeline = pipeline(8, 8, counting());
    // Depth grows by ten per pixel to the right, the data by five per pixel downwards.
    let tris = vec![at(0, 0, 0, 0), at(4, 0, 40, 0), at(0, 4, 0, 20)];
    let stage: Stage<Triangle> =
        FragmentShader::new(&mut pipeline, no_mesh(), Arc::new(None), generated(tris, Vec::new(), Vec::new()), 0, Overwrite);
    stage.run(shade);
    for y in 0..8u32 {
        for x in 0..8u32 {
            let inside = x + y < 4;
            let expected = if inside {
                (Rgba { data: [(5 * y) as u8, (10 * x) as u8, 1, 255] }, (10 * x) as i32, 1)
            } else {
                (EMPTY, i32::MIN, 0)
            };
            assert_eq!(cell(&pipeline.framebuffer, x, y), expected, "pixel ({}, {})", x, y);
        }
    }
}

#[test]
fn winding_does_not_change_the_coverage() {
    let clockwise = vec![at(0, 0, 0, 1), at(4, 0, 0, 1), at(0, 4, 0, 1)];
    let counter = vec![at(0, 0, 0, 1), at(0, 4, 0, 1), at(4, 0, 0, 1)];
    let mut first = pipeline(8, 8, counting());
    let stage: Stage<Triangle> =
        FragmentShader::new(&mut first, no_mesh(), Arc::new(None), generated(clockwise, Vec::new(), Vec::new()), 0, Overwrite);
    stage.run(shade);
    let mut second = pipeline(8, 8, counting());
    let stage: Stage<Triangle> =
        FragmentShader::new(&mut second, no_mesh(), Arc::new(None), generated(counter, Vec::new(), Vec::new()), 0, Overwrite);
    stage.run(shade);
    assert_eq!(visited(&first.framebuffer), visited(&second.framebuffer));
    assert_eq!(visited(&first.framebuffer).len(), 10);
}

#[test]
fn culled_faces_are_not_drawn() {
    let clockwise = vec![at(0, 0, 0, 1), at(4, 0, 0, 1), at(0, 4, 0, 1)];
    let counter = vec![at(0, 0, 0, 1), at(0, 4, 0, 1), at(4, 0, 0, 1)];
    for (tris, cull, drawn) in [
        (clockwise.clone(), Some(FaceWinding::Clockwise), false),
        (clockwise.clone(), Some(FaceWinding::CounterClockwise), true),
        (counter.clone(), Some(FaceWinding::Clockwise), true),
        (counter.clone(), Some(FaceWinding::CounterClockwise), false),
        (counter.clone(), None, true),
    ] {
        let mut pipeline = pipeline(8, 8, counting());
        let mut stage: Stage<Triangle> =
            FragmentShader::new(&mut pipeline, no_mesh(), Arc::new(None), generated(tris, Vec::new(), Vec::new()), 0, Overwrite);
        stage.cull_faces(cull);
        stage.run(shade);
        assert_eq!(visited(&pipeline.framebuffer).len(), if drawn { 10 } else { 0 });
    }
}

#[test]
fn triangles_without_area_are_skipped() {
    let mut pipeline = pipeline(8, 8, counting());
    let flat = vec![at(0, 0, 0, 1), at(2, 2, 0, 1), at(4, 4, 0, 1), at(1, 1, 0, 1), at(1, 1, 0, 1), at(1, 1, 0, 1)];
    let stage: Stage<Triangle> =
        FragmentShader::new(&mut pipeline, no_mesh(), Arc::new(None), generated(flat, Vec::new(), Vec::new()), 0, Overwrite);
    stage.run(shade);
    assert!(visited(&pipeline.framebuffer).is_empty());
}

#[test]
fn shared_edges_are_drawn_once() {
    let mut pipeline = pipeline(9, 9, counting());
    let quad = vec![
        at(0, 0, 0, 1),
        at(6, 0, 0, 1),
        at(0, 6, 0, 1),
        at(6, 0, 0, 1),
        at(6, 6, 0, 1),
        at(0, 6, 0, 1),
    ];
    let stage: Stage<Triangle> =
        FragmentShader::new(&mut pipeline, no_mesh(), Arc::new(None), generated(quad, Vec::new(), Vec::new()), 0, Overwrite)
            .with_tile_size(Dimensions::new(2, 3));
    stage.run(shade);
    for y in 0..9u32 {
        for x in 0..9u32 {
            assert_eq!(cell(&pipeline.framebuffer, x, y).2, if x < 6 && y < 6 { 1 } else { 0 }, "pixel ({}, {})", x, y);
        }
    }
}

#[test]
fn discarded_fragments_leave_color_and_depth() {
    let mut pipeline = pipeline(4, 4, counting());
    let stage: Stage<Point> = FragmentShader::new(
        &mut pipeline,
        no_mesh(),
        Arc::new(None),
        generated(Vec::new(), Vec::new(), vec![at(1, 1, 5, -1), at(2, 1, 5, 3)]),
        0,
        Overwrite,
    );
    stage.run(shade);
    assert_eq!(cell(&pipeline.framebuffer, 1, 1), (EMPTY, i32::MIN, 1));
    assert_eq!(cell(&pipeline.framebuffer, 2, 1), (Rgba { data: [3, 5, 1, 255] }, 5, 1));
}

#[test]
fn fragments_behind_the_stored_depth_apply_the_stencil_operation_only() {
    let mut pipeline = pipeline(4, 4, counting());
    let points = vec![at(1, 1, 5, 1), at(1, 1, 5, 2), at(1, 1, 4, 3), at(1, 1, 6, 4)];
    let stage: Stage<Point> =
        FragmentShader::new(&mut pipeline, no_mesh(), Arc::new(None), generated(Vec::new(), Vec::new(), points), 0, Overwrite);
    stage.run(shade);
    // The second point is as deep as the first and the third is deeper: the fourth is the last to pass.
    assert_eq!(cell(&pipeline.framebuffer, 1, 1), (Rgba { data: [4, 6, 1, 255] }, 6, 4));
}

#[test]
fn fragments_that_fail_the_stencil_test_apply_the_stencil_operation_only() {
    let config = GenericStencilConfig { op: StencilOp::Replace, test: StencilTest::NotEqual };
    let mut pipeline = pipeline(4, 4, config);
    // The stored value is 0: the reference value 0 fails `NotEqual`, the reference value 9 passes.
    let stage: Stage<Point> = FragmentShader::new(
        &mut pipeline,
        no_mesh(),
        Arc::new(None),
        generated(Vec::new(), Vec::new(), vec![at(1, 1, 5, 1)]),
        0,
        Overwrite,
    );
    stage.run(shade);
    assert_eq!(cell(&pipeline.framebuffer, 1, 1), (EMPTY, i32::MIN, 0));
    let stage: Stage<Point> = FragmentShader::new(
        &mut pipeline,
        no_mesh(),
        Arc::new(None),
        generated(Vec::new(), Vec::new(), vec![at(1, 1, 5, 1), at(2, 2, 5, 1)]),
        9,
        Overwrite,
    );
    stage.run(shade);
    assert_eq!(cell(&pipeline.framebuffer, 1, 1), (Rgba { data: [1, 5, 1, 255] }, 5, 9));
    assert_eq!(cell(&pipeline.framebuffer, 2, 2), (Rgba { data: [1, 5, 1, 255] }, 5, 9));
}

#[test]
fn points_outside_the_rasterized_surface_are_not_drawn() {
    let mut pipeline = pipeline(4, 4, counting());
    let points = vec![at(3, 0, 0, 1), at(0, 3, 0, 1), at(-1, 0, 0, 1), at(0, -1, 0, 1), at(9, 9, 0, 1), at(2, 2, 0, 1)];
    let stage: Stage<Point> =
        FragmentShader::new(&mut pipeline, no_mesh(), Arc::new(None), generated(Vec::new(), Vec::new(), points), 0, Overwrite);
    stage.run(shade);
    assert_eq!(visited(&pipeline.framebuffer), vec![(2, 2)]);
}

#[test]
fn a_point_lies_in_the_pixel_that_holds_it() {
    let mut pipeline = pipeline(4, 4, counting());
    let corner = ScreenVertex { position: Position { x: 256, y: 511, z: 0, w: 1 }, uniforms: 1 };
    let stage: Stage<Point> =
        FragmentShader::new(&mut pipeline, no_mesh(), Arc::new(None), generated(Vec::new(), Vec::new(), vec![corner]), 0, Overwrite);
    stage.run(shade);
    assert_eq!(visited(&pipeline.framebuffer), vec![(1, 1)]);
}

fn indexed_stage<'a, T: Primitive>(
    pipeline: &'a mut Pipeline<Buffer, GenericStencilConfig, ()>,
    indices: Vec<u32>,
    vertices: Vec<ScreenVertex<i32>>,
) -> Stage<'a, T> {
    let mesh = Arc::new(Mesh { indices, vertices: Vec::new() });
    FragmentShader::new(pipeline, mesh, Arc::new(Some(vertices)), nothing_generated(), 0, Overwrite)
}

#[test]
fn indices_pick_the_corners_of_triangles() {
    let vertices = vec![at(0, 0, 0, 1), at(3, 0, 0, 1), at(0, 3, 0, 1), at(3, 3, 0, 1)];
    let mut pipeline = pipeline(8, 8, counting());
    let stage: Stage<Triangle> = indexed_stage(&mut pipeline, vec![0, 1, 2, 1, 3, 2], vertices);
    assert!(stage.is_renderable());
    stage.run(shade);
    let pixels = visited(&pipeline.framebuffer);
    assert_eq!(pixels.len(), 9);
    assert!(pixels.iter().all(|&(x, y)| x < 3 && y < 3));
}

#[test]
fn indices_pick_the_ends_of_lines() {
    let vertices = vec![at(0, 0, 0, 1), at(3, 0, 0, 1), at(0, 3, 0, 1), at(3, 3, 0, 1)];
    let mut pipeline = pipeline(8, 8, counting());
    let stage: Stage<Line> = indexed_stage(&mut pipeline, vec![0, 1, 2, 3], vertices);
    assert!(stage.is_renderable());
    stage.run(shade);
    assert_eq!(
        visited(&pipeline.framebuffer),
        vec![(0, 0), (1, 0), (2, 0), (3, 0), (0, 3), (1, 3), (2, 3), (3, 3)]
    );
}

#[test]
fn indices_pick_points() {
    let vertices = vec![at(0, 0, 0, 1), at(3, 0, 0, 1), at(0, 3, 0, 1), at(3, 3, 0, 1)];
    let mut pipeline = pipeline(8, 8, counting());
    let stage: Stage<Point> = indexed_stage(&mut pipeline, vec![3, 3, 0], vertices);
    assert!(stage.is_renderable());
    stage.run(shade);
    assert_eq!(cell(&pipeline.framebuffer, 3, 3).2, 2);
    assert_eq!(cell(&pipeline.framebuffer, 0, 0).2, 1);
    assert_eq!(visited(&pipeline.framebuffer).len(), 2);
}

#[test]
fn primitives_are_drawn_in_the_order_of_the_stream() {
    // The indexed triangle comes first, the generated triangle second, the generated point last.
    let vertices = vec![at(0, 0, 1, 10), at(3, 0, 1, 10), at(0, 3, 1, 10)];
    let mesh = Arc::new(Mesh { indices: vec![0, 1, 2], vertices: Vec::<()>::new() });
    let tris = vec![at(0, 0, 2, 20), at(3, 0, 2, 20), at(0, 3, 2, 20)];
    let points = vec![at(1, 1, 3, 30)];
    let config = GenericStencilConfig { op: StencilOp::Increment { wrap: false }, test: StencilTest::Always };
    let mut pipeline = pipeline(8, 8, config);
    let stage: Stage<Triangle> =
        FragmentShader::new(&mut pipeline, mesh, Arc::new(Some(vertices)), generated(tris, Vec::new(), points), 0, Overwrite);
    stage.run(shade);
    assert_eq!(cell(&pipeline.framebuffer, 1, 1), (Rgba { data: [30, 3, 1, 255] }, 3, 3));
    assert_eq!(cell(&pipeline.framebuffer, 0, 0), (Rgba { data: [20, 2, 1, 255] }, 2, 2));
}

#[test]
fn draws_that_cannot_be_rasterized() {
    let vertices = vec![at(0, 0, 0, 1), at(3, 0, 0, 1), at(0, 3, 0, 1)];
    let mut pipeline = pipeline(8, 8, counting());
    let stage: Stage<Triangle> = indexed_stage(&mut pipeline, vec![0, 1], vertices.clone());
    assert!(!stage.is_renderable());
    let stage: Stage<Triangle> = indexed_stage(&mut pipeline, vec![0, 1, 3], vertices.clone());
    assert!(!stage.is_renderable());
    let stage: Stage<Line> = indexed_stage(&mut pipeline, vec![0, 1, 2], vertices.clone());
    assert!(!stage.is_renderable());
    let stage: Stage<Point> = indexed_stage(&mut pipeline, vec![0, 1, 2], vertices.clone());
    assert!(stage.is_renderable());
    let stage: Stage<Point> =
        FragmentShader::new(&mut pipeline, no_mesh(), Arc::new(None), generated(vertices.clone(), vertices.clone(), Vec::new()), 0, Overwrite);
    assert!(!stage.is_renderable());
    let stage: Stage<Point> =
        FragmentShader::new(&mut pipeline, no_mesh(), Arc::new(None), generated(vec![at(0, 0, 0, 1)], Vec::new(), Vec::new()), 0, Overwrite);
    assert!(!stage.is_renderable());
}

#[test]
fn depths_that_the_buffer_cannot_hold_cannot_be_rasterized() {
    let mut pipeline =
        Pipeline::new(RenderBuffer::<Color, u8, u8>::with_dimensions(Dimensions::new(4, 4)), counting(), ());
    let stage: FragmentShader<RenderBuffer<Color, u8, u8>, GenericStencilConfig, (), (), Point, i32, Overwrite> =
        FragmentShader::new(
            &mut pipeline,
            no_mesh(),
            Arc::new(None),
            generated(Vec::new(), Vec::new(), vec![at(1, 1, 255, 1), at(1, 1, 256, 1)]),
            0,
            Overwrite,
        );
    assert!(!stage.is_renderable());
    let stage: FragmentShader<RenderBuffer<Color, u8, u8>, GenericStencilConfig, (), (), Point, i32, Overwrite> =
        FragmentShader::new(
            &mut pipeline,
            no_mesh(),
            Arc::new(None),
            generated(Vec::new(), Vec::new(), vec![at(1, 1, 255, 1), at(2, 1, 0, 1)]),
            0,
            Overwrite,
        );
    assert!(stage.is_renderable());
    stage.run(shade);
    assert_eq!(pipeline.framebuffer.get_depth_unchecked(5), 255);
    // The depth 0 is the farthest depth of an unsigned buffer: the fragment does not pass.
    assert_eq!(pipeline.framebuffer.get_depth_unchecked(6), 0);
    assert_eq!(pipeline.framebuffer.get_pixel_unchecked(6), EMPTY);
}

#[test]
fn settings() {
    let mut pipeline = pipeline(4, 4, counting());
    let mut stage: Stage<Triangle> =
        FragmentShader::new(&mut pipeline, no_mesh(), Arc::new(None), nothing_generated(), 7, Overwrite);
    assert_eq!(stage.cull_faces, None);
    assert!(!stage.antialiased_lines);
    assert_eq!(stage.tile_size, Dimensions::new(128, 128));
    assert_eq!(stage.stencil_value, 7);
    stage.cull_faces(Some(FaceWinding::Clockwise));
    stage.antialiased_lines(true);
    stage.tile_size(Dimensions::new(16, 8));
    assert_eq!(stage.cull_faces, Some(FaceWinding::Clockwise));
    assert!(stage.antialiased_lines);
    assert_eq!(stage.tile_size, Dimensions::new(16, 8));
    let stage = stage
        .with_faces_culled(Some(FaceWinding::CounterClockwise))
        .with_antialiased_lines(false)
        .with_tile_size(Dimensions::new(32, 32));
    assert_eq!(stage.cull_faces, Some(FaceWinding::CounterClockwise));
    assert!(!stage.antialiased_lines);
    assert_eq!(stage.tile_size, Dimensions::new(32, 32));
    let mut stage = stage.with_blend(SourceOver);
    assert_eq!(stage.blend, SourceOver);
    // The stage stands for its blending rule.
    assert_eq!(*stage, SourceOver);
    *stage = SourceOver;
    assert_eq!(stage.tile_size, Dimensions::new(32, 32));
    let stage: FragmentShader<Buffer, GenericStencilConfig, (), (), Triangle, i32, Overwrite> = stage.with_default_blend();
    assert_eq!(stage.blend, Overwrite);
    assert_eq!(stage.stencil_value, 7);
}

#[test]
fn duplicates_draw_to_the_same_pipeline() {
    let mut pipeline = pipeline(8, 8, counting());
    let tris = vec![at(0, 0, 0, 1), at(3, 0, 0, 1), at(0, 3, 0, 1)];
    let mut stage: Stage<Triangle> =
        FragmentShader::new(&mut pipeline, no_mesh(), Arc::new(None), generated(tris, Vec::new(), Vec::new()), 0, Overwrite);
    stage.tile_size(Dimensions::new(2, 2));
    {
        let second = stage.duplicate();
        assert_eq!(second.tile_size, Dimensions::new(2, 2));
        assert!(Arc::ptr_eq(&second.generated_primitives, &stage_primitives(&second)));
        second.run(shade);
    }
    stage.run(shade);
    assert_eq!(cell(&pipeline.framebuffer, 0, 0).2, 2);
    assert_eq!(cell(&pipeline.framebuffer, 1, 1).2, 2);
    assert_eq!(visited(&pipeline.framebuffer).len(), 6);
}

fn stage_primitives(stage: &Stage<Triangle>) -> Arc<SeparableScreenPrimitiveStorage<i32>> {
    stage.generated_primitives.clone()
}

fn arguments(tile: Tile) -> RasterArguments<u8> {
    RasterArguments {
        dimensions: Dimensions::new(8, 8),
        tile,
        stencil_value: 1,
        stencil_test: StencilTest::Always,
        stencil_op: StencilOp::Increment { wrap: false },
        antialiased_lines: false,
        cull_faces: None,
    }
}

#[test]
fn a_tile_confines_the_writes() {
    let mut buffer = Buffer::with_dimensions(Dimensions::new(8, 8));
    let args = arguments(Tile { min: Coordinate::new(2, 1), max: Coordinate::new(4, 3) });
    rasterize_triangle(&args, &mut buffer, &Overwrite, &shade, &(), &at(0, 0, 0, 1), &at(7, 0, 0, 1), &at(0, 7, 0, 1));
    assert_eq!(visited(&buffer), vec![(2, 1), (3, 1), (2, 2), (3, 2)]);
    rasterize_point(&args, &mut buffer, &Overwrite, &shade, &(), &at(5, 5, 0, 1));
    rasterize_point(&args, &mut buffer, &Overwrite, &shade, &(), &at(3, 2, 9, 1));
    assert_eq!(visited(&buffer), vec![(2, 1), (3, 1), (2, 2), (3, 2)]);
    assert_eq!(cell(&buffer, 3, 2), (Rgba { data: [1, 9, 1, 255] }, 9, 2));
}

#[test]
fn a_tile_is_rasterized_with_every_primitive() {
    let mut buffer = Buffer::with_dimensions(Dimensions::new(8, 8));
    let args = arguments(Tile { min: Coordinate::new(0, 0), max: Coordinate::new(4, 4) });
    let mesh: Mesh<()> = Mesh { indices: vec![0, 1], vertices: Vec::new() };
    let indexed = Some(vec![at(0, 3, 0, 1), at(6, 3, 0, 1)]);
    let storage = SeparableScreenPrimitiveStorage {
        tris: vec![at(0, 0, 0, 1), at(2, 0, 0, 1), at(0, 2, 0, 1)],
        lines: vec![at(3, 0, 0, 1), at(3, 1, 0, 1)],
        points: vec![at(0, 0, 1, 1), at(6, 6, 1, 1)],
    };
    rasterize_tile::<Line, _, _, _, _, _, _>(&args, &mut buffer, &Overwrite, &shade, &(), &mesh, &indexed, &storage);
    assert_eq!(
        visited(&buffer),
        vec![(0, 0), (1, 0), (3, 0), (0, 1), (3, 1), (0, 3), (1, 3), (2, 3), (3, 3)]
    );
    assert_eq!(cell(&buffer, 0, 0).2, 2);
}

#[test]
fn the_stages_of_a_pixel() {
    let mut buffer = Buffer::with_dimensions(Dimensions::new(8, 8));
    let mut args = arguments(Tile { min: Coordinate::new(0, 0), max: Coordinate::new(7, 7) });
    args.stencil_test = StencilTest::Equal;
    args.stencil_value = 0;
    args.stencil_op = StencilOp::Invert;
    assert!(test_fragment(&args, &buffer, 9, 0));
    assert!(!test_fragment(&args, &buffer, 9, i32::MIN));
    write_fragment(&args, &mut buffer, &Overwrite, 9, 4, Fragment::Color(Rgba { data: [1, 2, 3, 4] }), 255);
    assert_eq!(cell(&buffer, 1, 1), (Rgba { data: [1, 2, 3, 4] }, 4, 255));
    // The stencil test fails now: the stored value is not 0 any more.
    assert!(!test_fragment(&args, &buffer, 9, 5));
    reject_fragment(&args, &mut buffer, 9);
    assert_eq!(cell(&buffer, 1, 1), (Rgba { data: [1, 2, 3, 4] }, 4, 0));
    write_fragment(&args, &mut buffer, &Overwrite, 9, 8, Fragment::Discard, 255);
    assert_eq!(cell(&buffer, 1, 1), (Rgba { data: [1, 2, 3, 4] }, 4, 255));
    shade_pixel(&args, &mut buffer, &Overwrite, &shade, &(), 10, &at(2, 1, 0, 6), 7, 255);
    assert_eq!(cell(&buffer, 2, 1), (Rgba { data: [6, 0, 1, 255] }, 7, 255));
    shade_pixel(&args, &mut buffer, &Overwrite, &shade, &(), 10, &at(2, 1, 0, 6), 9, 255);
    assert_eq!(cell(&buffer, 2, 1), (Rgba { data: [6, 0, 1, 255] }, 7, 0));
}

#[test]
fn the_outcome_does_not_depend_on_the_tiles() {
    let tris = vec![at(1, 1, 3, 1), at(30, 2, 9, 1), at(4, 25, 0, 200), at(30, 30, 5, 90), at(2, 30, 5, 90), at(17, 3, 5, 90)];
    let lines = vec![at(0, 0, 7, 3), at(31, 13, 7, 3), at(20, 31, 1, 4), at(18, 0, 9, 4)];
    let points = vec![at(5, 5, 9, 77), at(16, 16, 9, 78)];
    let mut reference: Option<Vec<(Color, i32, u8)>> = None;
    for tile_size in [(1, 1), (3, 7), (8, 8), (16, 5), (31, 31), (400, 400)] {
        let mut pipeline = pipeline(33, 33, counting());
        let stage: Stage<Triangle> = FragmentShader::new(
            &mut pipeline,
            no_mesh(),
            Arc::new(None),
            generated(tris.clone(), lines.clone(), points.clone()),
            0,
            Overwrite,
        )
        .with_tile_size(Dimensions::new(tile_size.0, tile_size.1))
        .with_antialiased_lines(true);
        stage.run(shade);
        let mut cells = Vec::new();
        for y in 0..33 {
            for x in 0..33 {
                cells.push(cell(&pipeline.framebuffer, x, y));
            }
        }
        match &reference {
            Some(expected) => assert_eq!(&cells, expected),
            None => reference = Some(cells),
        }
    }
    assert!(reference.unwrap().iter().any(|c| c.2 > 1));
}
