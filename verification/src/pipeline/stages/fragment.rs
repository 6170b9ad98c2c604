//! The fragment stage.
//!
//! The fragment stage decides which pixels of the framebuffer the
//! primitives cover, and runs the stencil test, the depth test and the
//! fragment function for each of them. The surface is worked off tile by
//! tile; the tiles share no pixel, so what a tile leaves does not depend on
//! the order in which the tiles are taken.

use std::marker::PhantomData;
use std::ops::{Deref, DerefMut};
use std::sync::Arc;

use vstd::prelude::*;

pub use crate::pipeline::pixel::Fragment;

use crate::attachments::{Blend, Depth, StencilConfig};
use crate::framebuffer::Framebuffer;
use crate::geometry::{Coordinate, Dimensions, FaceWinding, ScreenVertex};
use crate::mesh::Mesh;
use crate::numeric::Interpolate;
use crate::pipeline::pixel::RasterArguments;
use crate::pipeline::rasterization::{column_of, row_of, tile_in_bounds};
use crate::pipeline::storage::SeparableScreenPrimitiveStorage;
use crate::pipeline::stream::{
    cells_rendered, depths_fit, depths_in_range, indices_fit, indices_in_range, lemma_cells_joined, lemma_rendered_outside,
    lemma_rendered_transfer, lines_of, points_of, rasterize_lines, rasterize_points, rasterize_triangles, rendered,
    selected, triangles_of, ScreenPrimitive,
};
use crate::pipeline::tiles::{
    default_tile_size, in_raster_surface, DEFAULT_TILE_EDGE, lemma_tile_holds, lemma_tile_in_surface, lemma_tile_index_in_plan, plan_tiles, raster_height,
    raster_width, spec_tiles, tile_contains, tile_index_of, Tile,
};
use crate::pipeline::Pipeline;
use crate::primitive::Primitive;

verus! {

/// The triangles that the indices of a mesh spell out of the indexed
/// vertices, where there are indexed vertices and the indices stand for
/// triangles.
pub open spec fn indexed_triangles<T: Primitive, K>(
    indices: Seq<u32>,
    indexed_vertices: Option<Vec<ScreenVertex<K>>>,
) -> Seq<ScreenPrimitive<K>> {
    match indexed_vertices {
        Some(vertices) => if T::spec_is_triangle() {
            triangles_of(selected(vertices@, Some(indices)))
        } else {
            Seq::empty()
        },
        None => Seq::empty(),
    }
}

/// The lines that the indices of a mesh spell out of the indexed vertices,
/// where there are indexed vertices and the indices stand for lines.
pub open spec fn indexed_lines<T: Primitive, K>(
    indices: Seq<u32>,
    indexed_vertices: Option<Vec<ScreenVertex<K>>>,
) -> Seq<ScreenPrimitive<K>> {
    match indexed_vertices {
        Some(vertices) => if T::spec_is_line() {
            lines_of(selected(vertices@, Some(indices)))
        } else {
            Seq::empty()
        },
        None => Seq::empty(),
    }
}

/// The points that the indices of a mesh pick among the indexed vertices,
/// where there are indexed vertices and the indices stand for points.
pub open spec fn indexed_points<T: Primitive, K>(
    indices: Seq<u32>,
    indexed_vertices: Option<Vec<ScreenVertex<K>>>,
) -> Seq<ScreenPrimitive<K>> {
    match indexed_vertices {
        Some(vertices) => if T::spec_is_point() {
            points_of(selected(vertices@, Some(indices)))
        } else {
            Seq::empty()
        },
        None => Seq::empty(),
    }
}

/// The primitives of a draw in the order in which they are rasterized:
/// the triangles, the lines and then the points, the indexed ones of each
/// kind before the generated ones.
pub open spec fn primitive_stream<T: Primitive, V, K>(
    mesh: Mesh<V>,
    indexed_vertices: Option<Vec<ScreenVertex<K>>>,
    generated: SeparableScreenPrimitiveStorage<K>,
) -> Seq<ScreenPrimitive<K>> {
    indexed_triangles::<T, K>(mesh.indices@, indexed_vertices) + triangles_of(generated.tris@) + indexed_lines::<
        T,
        K,
    >(mesh.indices@, indexed_vertices) + lines_of(generated.lines@) + indexed_points::<T, K>(
        mesh.indices@,
        indexed_vertices,
    ) + points_of(generated.points@)
}

/// Whether a draw can be rasterized into a framebuffer with depths of type `D`.
///
/// The vertices come in whole primitives: the generated triangles in
/// threes and the generated lines in twos, and so the indices where they
/// stand for triangles or lines; every index that is used names an indexed
/// vertex; and `D` has a value for the depth of every vertex.
pub open spec fn renderable<T: Primitive, D: Depth, V, K>(
    mesh: Mesh<V>,
    indexed_vertices: Option<Vec<ScreenVertex<K>>>,
    generated: SeparableScreenPrimitiveStorage<K>,
) -> bool {
    &&& generated.tris@.len() % 3 == 0
    &&& generated.lines@.len() % 2 == 0
    &&& depths_in_range::<D, K>(generated.tris@)
    &&& depths_in_range::<D, K>(generated.lines@)
    &&& depths_in_range::<D, K>(generated.points@)
    &&& match indexed_vertices {
        Some(vertices) => {
            &&& T::spec_is_triangle() || T::spec_is_line() || T::spec_is_point() ==> {
                &&& indices_in_range(vertices@, Some(mesh.indices@))
                &&& depths_in_range::<D, K>(vertices@)
            }
            &&& T::spec_is_triangle() ==> mesh.indices@.len() % 3 == 0
            &&& T::spec_is_line() ==> mesh.indices@.len() % 2 == 0
        },
        None => true,
    }
}

/// Rasterizes every primitive of a draw within the tile of `args`.
pub fn rasterize_tile<T, F, B, V, K, U, P>(
    args: &RasterArguments<F::Stencil>,
    framebuffer: &mut F,
    blend: &B,
    program: &P,
    uniforms: &U,
    mesh: &Mesh<V>,
    indexed_vertices: &Option<Vec<ScreenVertex<K>>>,
    generated: &SeparableScreenPrimitiveStorage<K>,
) where
    T: Primitive,
    F: Framebuffer,
    B: Blend<F::Color>,
    K: Interpolate,
    P: Fn(&ScreenVertex<K>, &U) -> Fragment<F::Color>,

    requires
        old(framebuffer).wf(),
        old(framebuffer).spec_dimensions() == args.dimensions,
        tile_in_bounds(*args),
        forall|vertex: ScreenVertex<K>| call_requires(*program, (&vertex, uniforms)),
        renderable::<T, F::Depth, V, K>(*mesh, *indexed_vertices, *generated),
    ensures
        final(framebuffer).wf(),
        final(framebuffer).spec_dimensions() == old(framebuffer).spec_dimensions(),
        cells_rendered::<F, B, K, U, P>(
            primitive_stream::<T, V, K>(*mesh, *indexed_vertices, *generated),
            *args,
            old(framebuffer).cells(),
            final(framebuffer).cells(),
            *blend,
            *program,
            *uniforms,
        ),
{
    let ghost start = framebuffer.cells();
    let ghost mut done: Seq<ScreenPrimitive<K>> = Seq::empty();
    let ghost mut part: Seq<ScreenPrimitive<K>> = Seq::empty();
    let ghost mut middle = framebuffer.cells();
    assert(cells_rendered::<F, B, K, U, P>(done, *args, start, framebuffer.cells(), *blend, *program, *uniforms));

    // The indexed triangles.
    proof {
        part = indexed_triangles::<T, K>(mesh.indices@, *indexed_vertices);
        middle = framebuffer.cells();
    }
    if T::is_triangle() {
        if let Some(vertices) = indexed_vertices {
            rasterize_triangles(args, framebuffer, blend, program, uniforms, vertices, Some(&mesh.indices));
        }
    }
    proof {
        assert(cells_rendered::<F, B, K, U, P>(part, *args, middle, framebuffer.cells(), *blend, *program, *uniforms));
        lemma_cells_joined::<F, B, K, U, P>(done, part, *args, start, middle, framebuffer.cells(), *blend, *program, *uniforms);
        done = done + part;
    }

    // The generated triangles.
    proof {
        part = triangles_of(generated.tris@);
        middle = framebuffer.cells();
    }
    rasterize_triangles(args, framebuffer, blend, program, uniforms, &generated.tris, None);
    proof {
        lemma_cells_joined::<F, B, K, U, P>(done, part, *args, start, middle, framebuffer.cells(), *blend, *program, *uniforms);
        done = done + part;
    }

    // The indexed lines.
    proof {
        part = indexed_lines::<T, K>(mesh.indices@, *indexed_vertices);
        middle = framebuffer.cells();
    }
    if T::is_line() {
        if let Some(vertices) = indexed_vertices {
            rasterize_lines(args, framebuffer, blend, program, uniforms, vertices, Some(&mesh.indices));
        }
    }
    proof {
        assert(cells_rendered::<F, B, K, U, P>(part, *args, middle, framebuffer.cells(), *blend, *program, *uniforms));
        lemma_cells_joined::<F, B, K, U, P>(done, part, *args, start, middle, framebuffer.cells(), *blend, *program, *uniforms);
        done = done + part;
    }

    // The generated lines.
    proof {
        part = lines_of(generated.lines@);
        middle = framebuffer.cells();
    }
    rasterize_lines(args, framebuffer, blend, program, uniforms, &generated.lines, None);
    proof {
        lemma_cells_joined::<F, B, K, U, P>(done, part, *args, start, middle, framebuffer.cells(), *blend, *program, *uniforms);
        done = done + part;
    }

    // The indexed points.
    proof {
        part = indexed_points::<T, K>(mesh.indices@, *indexed_vertices);
        middle = framebuffer.cells();
    }
    if T::is_point() {
        if let Some(vertices) = indexed_vertices {
            rasterize_points(args, framebuffer, blend, program, uniforms, vertices, Some(&mesh.indices));
        }
    }
    proof {
        assert(cells_rendered::<F, B, K, U, P>(part, *args, middle, framebuffer.cells(), *blend, *program, *uniforms));
        lemma_cells_joined::<F, B, K, U, P>(done, part, *args, start, middle, framebuffer.cells(), *blend, *program, *uniforms);
        done = done + part;
    }

    // The generated points.
    proof {
        part = points_of(generated.points@);
        middle = framebuffer.cells();
    }
    rasterize_points(args, framebuffer, blend, program, uniforms, &generated.points, None);
    proof {
        lemma_cells_joined::<F, B, K, U, P>(done, part, *args, start, middle, framebuffer.cells(), *blend, *program, *uniforms);
        done = done + part;
        assert(done =~= primitive_stream::<T, V, K>(*mesh, *indexed_vertices, *generated));
    }
}

/// The fragment stage of a draw.
///
/// The stage holds the framebuffer and the settings of the pipeline that
/// it draws with, the primitives that the earlier stages made, and the
/// settings of the rasterization. `run` rasterizes the primitives with a
/// fragment function.
pub struct FragmentShader<'a, F: Framebuffer, G, U, V, T, K, B> {
    /// The pipeline that the stage draws with.
    pub pipeline: &'a mut Pipeline<F, G, U>,
    /// The mesh whose indices join the indexed vertices into primitives.
    pub mesh: Arc<Mesh<V>>,
    /// The kind of primitive that the indices of the mesh stand for.
    pub indexed_primitive: PhantomData<T>,
    /// The reference value of the stencil test and the stencil operation.
    pub stencil_value: F::Stencil,
    /// The vertices of the mesh in screen space, if the mesh was drawn by its indices.
    pub indexed_vertices: Arc<Option<Vec<ScreenVertex<K>>>>,
    /// The primitives that the earlier stages generated.
    pub generated_primitives: Arc<SeparableScreenPrimitiveStorage<K>>,
    /// The winding of the triangles that are not drawn, if any.
    pub cull_faces: Option<FaceWinding>,
    /// The rule by which a fragment color is blended into the framebuffer.
    pub blend: B,
    /// Whether lines are drawn with partial coverage at their borders.
    pub antialiased_lines: bool,
    /// The size of the tiles that the surface is worked off in.
    pub tile_size: Dimensions,
}

impl<'a, F: Framebuffer, G, U, V, T, K, B> Deref for FragmentShader<'a, F, G, U, V, T, K, B> {
    type Target = B;

    fn deref(&self) -> (blend: &B)
        ensures
            *blend == self.blend,
    {
        &self.blend
    }
}

impl<'a, F: Framebuffer, G, U, V, T, K, B> DerefMut for FragmentShader<'a, F, G, U, V, T, K, B> {
    fn deref_mut(&mut self) -> (blend: &mut B)
        ensures
            *blend == old(self).blend,
            final(self).blend == *final(blend),
            final(self).pipeline == old(self).pipeline,
            final(self).mesh == old(self).mesh,
            final(self).stencil_value == old(self).stencil_value,
            final(self).indexed_vertices == old(self).indexed_vertices,
            final(self).generated_primitives == old(self).generated_primitives,
            final(self).cull_faces == old(self).cull_faces,
            final(self).antialiased_lines == old(self).antialiased_lines,
            final(self).tile_size == old(self).tile_size,
    {
        &mut self.blend
    }
}

/// The tile that is the whole of the rasterized surface.
pub open spec fn surface_tile(dimensions: Dimensions) -> Tile {
    Tile {
        min: Coordinate { x: 0, y: 0 },
        max: Coordinate { x: raster_width(dimensions) as u32, y: raster_height(dimensions) as u32 },
    }
}

impl<'a, F: Framebuffer, G: StencilConfig, U, V, T: Primitive, K: Interpolate, B> FragmentShader<'a, F, G, U, V, T, K, B> {
    /// The primitives of the draw in the order in which they are rasterized.
    pub open spec fn stream(self) -> Seq<ScreenPrimitive<K>> {
        primitive_stream::<T, V, K>(*self.mesh, *self.indexed_vertices, *self.generated_primitives)
    }

    /// Whether the draw can be rasterized into the framebuffer of the pipeline.
    pub open spec fn spec_renderable(self) -> bool {
        renderable::<T, F::Depth, V, K>(*self.mesh, *self.indexed_vertices, *self.generated_primitives)
    }

    /// The arguments under which the whole of the rasterized surface is
    /// rasterized as one tile.
    pub open spec fn surface_arguments(self) -> RasterArguments<F::Stencil> {
        RasterArguments {
            dimensions: self.pipeline.framebuffer.spec_dimensions(),
            tile: surface_tile(self.pipeline.framebuffer.spec_dimensions()),
            stencil_value: self.stencil_value,
            stencil_test: self.pipeline.stencil_config.spec_test(),
            stencil_op: self.pipeline.stencil_config.spec_op(),
            antialiased_lines: self.antialiased_lines,
            cull_faces: self.cull_faces,
        }
    }
}

impl<'a, F: Framebuffer, G, U, V, T, K, B> FragmentShader<'a, F, G, U, V, T, K, B> {
    /// Culls faces by their winding order: triangles of the winding that
    /// `cull` names are not drawn.
    pub fn cull_faces(&mut self, cull: Option<FaceWinding>)
        ensures
            final(self).cull_faces == cull,
            final(self).pipeline == old(self).pipeline,
            final(self).mesh == old(self).mesh,
            final(self).stencil_value == old(self).stencil_value,
            final(self).indexed_vertices == old(self).indexed_vertices,
            final(self).generated_primitives == old(self).generated_primitives,
            final(self).blend == old(self).blend,
            final(self).antialiased_lines == old(self).antialiased_lines,
            final(self).tile_size == old(self).tile_size,
    {
        self.cull_faces = cull;
    }

    /// The stage with the culling of faces set to `cull`.
    pub fn with_faces_culled(self, cull: Option<FaceWinding>) -> (stage: Self)
        ensures
            stage == (FragmentShader { cull_faces: cull, ..self }),
    {
        FragmentShader { cull_faces: cull, ..self }
    }

    /// Draws lines with partial coverage at their borders, or without.
    pub fn antialiased_lines(&mut self, enable: bool)
        ensures
            final(self).antialiased_lines == enable,
            final(self).pipeline == old(self).pipeline,
            final(self).mesh == old(self).mesh,
            final(self).stencil_value == old(self).stencil_value,
            final(self).indexed_vertices == old(self).indexed_vertices,
            final(self).generated_primitives == old(self).generated_primitives,
            final(self).cull_faces == old(self).cull_faces,
            final(self).blend == old(self).blend,
            final(self).tile_size == old(self).tile_size,
    {
        self.antialiased_lines = enable;
    }

    /// The stage with the antialiasing of lines set to `enable`.
    pub fn with_antialiased_lines(self, enable: bool) -> (stage: Self)
        ensures
            stage == (FragmentShader { antialiased_lines: enable, ..self }),
    {
        FragmentShader { antialiased_lines: enable, ..self }
    }

    /// Sets the size of the tiles that the surface is worked off in.
    pub fn tile_size(&mut self, tile_size: Dimensions)
        ensures
            final(self).tile_size == tile_size,
            final(self).pipeline == old(self).pipeline,
            final(self).mesh == old(self).mesh,
            final(self).stencil_value == old(self).stencil_value,
            final(self).indexed_vertices == old(self).indexed_vertices,
            final(self).generated_primitives == old(self).generated_primitives,
            final(self).cull_faces == old(self).cull_faces,
            final(self).blend == old(self).blend,
            final(self).antialiased_lines == old(self).antialiased_lines,
    {
        self.tile_size = tile_size;
    }

    /// The stage with the size of the tiles set to `tile_size`.
    pub fn with_tile_size(self, tile_size: Dimensions) -> (stage: Self)
        ensures
            stage == (FragmentShader { tile_size, ..self }),
    {
        FragmentShader { tile_size, ..self }
    }

    /// The stage with the blending rule `blend`.
    #[must_use]
    pub fn with_blend<C>(self, blend: C) -> (stage: FragmentShader<'a, F, G, U, V, T, K, C>) where C: Blend<F::Color>
        ensures
            stage.blend == blend,
            *stage.pipeline == *old(self.pipeline),
            *final(stage.pipeline) == *final(self.pipeline),
            stage.mesh == self.mesh,
            stage.stencil_value == self.stencil_value,
            stage.indexed_vertices == self.indexed_vertices,
            stage.generated_primitives == self.generated_primitives,
            stage.cull_faces == self.cull_faces,
            stage.antialiased_lines == self.antialiased_lines,
            stage.tile_size == self.tile_size,
    {
        FragmentShader {
            pipeline: self.pipeline,
            mesh: self.mesh,
            indexed_primitive: PhantomData,
            stencil_value: self.stencil_value,
            indexed_vertices: self.indexed_vertices,
            generated_primitives: self.generated_primitives,
            cull_faces: self.cull_faces,
            blend: blend,
            antialiased_lines: self.antialiased_lines,
            tile_size: self.tile_size,
        }
    }

    /// The stage with the default blending rule of the type `C`.
    #[must_use]
    pub fn with_default_blend<C>(self) -> (stage: FragmentShader<'a, F, G, U, V, T, K, C>) where
        C: Blend<F::Color> + Default,

        ensures
            call_ensures(C::default, (), stage.blend),
            *stage.pipeline == *old(self.pipeline),
            *final(stage.pipeline) == *final(self.pipeline),
            stage.mesh == self.mesh,
            stage.stencil_value == self.stencil_value,
            stage.indexed_vertices == self.indexed_vertices,
            stage.generated_primitives == self.generated_primitives,
            stage.cull_faces == self.cull_faces,
            stage.antialiased_lines == self.antialiased_lines,
            stage.tile_size == self.tile_size,
    {
        self.with_blend(C::default())
    }
}

/// Whether the cells `after` are what the draw has left of the cells
/// `before` when the first `done` tiles of the plan are worked off: a pixel
/// of one of these tiles holds what the stream leaves of it, and every
/// other pixel is as it was.
pub open spec fn tiles_rendered<F: Framebuffer, B: Blend<F::Color>, K: Interpolate, U, P: Fn(&ScreenVertex<K>, &U) -> Fragment<F::Color>>(
    stream: Seq<ScreenPrimitive<K>>,
    surface: RasterArguments<F::Stencil>,
    tile_size: Dimensions,
    done: int,
    before: Seq<(F::Color, F::Depth, F::Stencil)>,
    after: Seq<(F::Color, F::Depth, F::Stencil)>,
    blend: B,
    program: P,
    uniforms: U,
) -> bool {
    &&& after.len() == before.len()
    &&& forall|i: int|
        0 <= i < before.len() ==> if in_raster_surface(
            surface.dimensions,
            column_of(surface.dimensions, i),
            row_of(surface.dimensions, i),
        ) && tile_index_of(
            surface.dimensions,
            tile_size,
            column_of(surface.dimensions, i),
            row_of(surface.dimensions, i),
        ) < done {
            rendered::<F, B, K, U, P>(
                stream,
                stream.len(),
                surface,
                column_of(surface.dimensions, i),
                row_of(surface.dimensions, i),
                before[i],
                #[trigger] after[i],
                blend,
                program,
                uniforms,
            )
        } else {
            after[i] == before[i]
        }
}

/// Working off one more tile of the plan: the pixels of the tile now hold
/// what the stream leaves of them, and the other pixels are as they were.
pub proof fn lemma_tile_done<F: Framebuffer, B: Blend<F::Color>, K: Interpolate, U, P: Fn(&ScreenVertex<K>, &U) -> Fragment<F::Color>>(
    stream: Seq<ScreenPrimitive<K>>,
    surface: RasterArguments<F::Stencil>,
    args: RasterArguments<F::Stencil>,
    tile_size: Dimensions,
    done: int,
    before: Seq<(F::Color, F::Depth, F::Stencil)>,
    middle: Seq<(F::Color, F::Depth, F::Stencil)>,
    after: Seq<(F::Color, F::Depth, F::Stencil)>,
    blend: B,
    program: P,
    uniforms: U,
)
    requires
        tile_size.width > 0,
        tile_size.height > 0,
        0 <= done < spec_tiles(surface.dimensions, tile_size).len(),
        surface.tile == surface_tile(surface.dimensions),
        args.tile == spec_tiles(surface.dimensions, tile_size)[done],
        args.dimensions == surface.dimensions,
        args.stencil() == surface.stencil(),
        args.cull_faces == surface.cull_faces,
        args.antialiased_lines == surface.antialiased_lines,
        tiles_rendered::<F, B, K, U, P>(stream, surface, tile_size, done, before, middle, blend, program, uniforms),
        cells_rendered::<F, B, K, U, P>(stream, args, middle, after, blend, program, uniforms),
    ensures
        tiles_rendered::<F, B, K, U, P>(stream, surface, tile_size, done + 1, before, after, blend, program, uniforms),
{
    assert forall|i: int| 0 <= i < before.len() implies if in_raster_surface(
        surface.dimensions,
        column_of(surface.dimensions, i),
        row_of(surface.dimensions, i),
    ) && tile_index_of(
        surface.dimensions,
        tile_size,
        column_of(surface.dimensions, i),
        row_of(surface.dimensions, i),
    ) < done + 1 {
        rendered::<F, B, K, U, P>(
            stream,
            stream.len(),
            surface,
            column_of(surface.dimensions, i),
            row_of(surface.dimensions, i),
            before[i],
            #[trigger] after[i],
            blend,
            program,
            uniforms,
        )
    } else {
        after[i] == before[i]
    } by {
        let x = column_of(surface.dimensions, i);
        let y = row_of(surface.dimensions, i);
        lemma_tile_holds(surface.dimensions, tile_size, done, x, y);
        assert(rendered::<F, B, K, U, P>(
            stream,
            stream.len(),
            args,
            x,
            y,
            middle[i],
            after[i],
            blend,
            program,
            uniforms,
        ));
        if tile_contains(args.tile, x, y) {
            assert(middle[i] == before[i]);
            lemma_rendered_transfer::<F, B, K, U, P>(
                stream,
                stream.len(),
                args,
                surface,
                x,
                y,
                middle[i],
                after[i],
                blend,
                program,
                uniforms,
            );
        } else {
            lemma_rendered_outside::<F, B, K, U, P>(
                stream,
                stream.len(),
                args,
                x,
                y,
                middle[i],
                after[i],
                blend,
                program,
                uniforms,
            );
        }
    }
}

/// When every tile of the plan is worked off, the cells hold what
/// rasterizing the stream over the whole rasterized surface leaves.
pub proof fn lemma_tiles_done<F: Framebuffer, B: Blend<F::Color>, K: Interpolate, U, P: Fn(&ScreenVertex<K>, &U) -> Fragment<F::Color>>(
    stream: Seq<ScreenPrimitive<K>>,
    surface: RasterArguments<F::Stencil>,
    tile_size: Dimensions,
    before: Seq<(F::Color, F::Depth, F::Stencil)>,
    after: Seq<(F::Color, F::Depth, F::Stencil)>,
    blend: B,
    program: P,
    uniforms: U,
)
    requires
        tile_size.width > 0,
        tile_size.height > 0,
        surface.tile == surface_tile(surface.dimensions),
        tiles_rendered::<F, B, K, U, P>(
            stream,
            surface,
            tile_size,
            spec_tiles(surface.dimensions, tile_size).len() as int,
            before,
            after,
            blend,
            program,
            uniforms,
        ),
    ensures
        cells_rendered::<F, B, K, U, P>(stream, surface, before, after, blend, program, uniforms),
{
    assert forall|i: int| 0 <= i < before.len() implies rendered::<F, B, K, U, P>(
        stream,
        stream.len(),
        surface,
        column_of(surface.dimensions, i),
        row_of(surface.dimensions, i),
        before[i],
        #[trigger] after[i],
        blend,
        program,
        uniforms,
    ) by {
        let x = column_of(surface.dimensions, i);
        let y = row_of(surface.dimensions, i);
        if in_raster_surface(surface.dimensions, x, y) {
            lemma_tile_index_in_plan(surface.dimensions, tile_size, x, y);
        } else {
            lemma_rendered_outside::<F, B, K, U, P>(
                stream,
                stream.len(),
                surface,
                x,
                y,
                before[i],
                after[i],
                blend,
                program,
                uniforms,
            );
        }
    }
}

/// The size of the tiles has no part in what `run` leaves: two stages that
/// differ in nothing but the size of their tiles draw the same stream
/// under the same arguments.
pub proof fn lemma_tile_size_is_immaterial<'a, F: Framebuffer, G: StencilConfig, U, V, T: Primitive, K: Interpolate, B>(
    stage: FragmentShader<'a, F, G, U, V, T, K, B>,
    other: FragmentShader<'a, F, G, U, V, T, K, B>,
)
    requires
        other == (FragmentShader { tile_size: other.tile_size, ..stage }),
    ensures
        other.stream() == stage.stream(),
        other.surface_arguments() == stage.surface_arguments(),
        other.spec_renderable() == stage.spec_renderable(),
{
}

/// Claims the next tile for a worker: the tile at the position that the
/// counter holds, if there is one. The counter moves on by one in any case.
pub fn claim_tile(tiles: &Vec<Tile>, counter: &mut usize) -> (claim: Option<Tile>)
    ensures
        *final(counter) == if *old(counter) == usize::MAX {
            0
        } else {
            *old(counter) + 1
        },
        claim == if *old(counter) < tiles@.len() {
            Some(tiles@[*old(counter) as int])
        } else {
            None
        },
{
    let claimed = *counter;
    *counter = counter.wrapping_add(1);
    if claimed < tiles.len() {
        Some(tiles[claimed])
    } else {
        None
    }
}

impl<'a, F: Framebuffer, G, U, V, T, K, B> FragmentShader<'a, F, G, U, V, T, K, B> {
    /// A second stage on the same pipeline and the same primitives, with a
    /// copy of the settings, to draw the same geometry in another way.
    #[must_use]
    pub fn duplicate<'b>(&'b mut self) -> (stage: FragmentShader<'b, F, G, U, V, T, K, B>) where 'a: 'b, B: Clone
        ensures
            *stage.pipeline == *old(self).pipeline,
            *final(stage.pipeline) == *final(self).pipeline,
            stage.mesh == old(self).mesh,
            stage.stencil_value == old(self).stencil_value,
            stage.indexed_vertices == old(self).indexed_vertices,
            stage.generated_primitives == old(self).generated_primitives,
            stage.cull_faces == old(self).cull_faces,
            call_ensures(B::clone, (&old(self).blend,), stage.blend),
            stage.antialiased_lines == old(self).antialiased_lines,
            stage.tile_size == old(self).tile_size,
            final(self).mesh == old(self).mesh,
            final(self).stencil_value == old(self).stencil_value,
            final(self).indexed_vertices == old(self).indexed_vertices,
            final(self).generated_primitives == old(self).generated_primitives,
            final(self).cull_faces == old(self).cull_faces,
            final(self).blend == old(self).blend,
            final(self).antialiased_lines == old(self).antialiased_lines,
            final(self).tile_size == old(self).tile_size,
    {
        FragmentShader {
            pipeline: self.pipeline,
            mesh: self.mesh.clone(),
            indexed_primitive: PhantomData,
            stencil_value: self.stencil_value,
            indexed_vertices: self.indexed_vertices.clone(),
            generated_primitives: self.generated_primitives.clone(),
            cull_faces: self.cull_faces,
            blend: self.blend.clone(),
            antialiased_lines: self.antialiased_lines,
            tile_size: self.tile_size,
        }
    }
}

impl<'a, F, G, U, V, T, K, B> FragmentShader<'a, F, G, U, V, T, K, B> where
    F: Framebuffer,
    G: StencilConfig,
    T: Primitive,
    K: Interpolate,
    B: Blend<F::Color>,
 {
    /// A fragment stage for the primitives given, as the earlier stages of
    /// the pipeline hand it on: nothing is culled, lines are not
    /// antialiased, and the tiles have the default size.
    pub fn new(
        pipeline: &'a mut Pipeline<F, G, U>,
        mesh: Arc<Mesh<V>>,
        indexed_vertices: Arc<Option<Vec<ScreenVertex<K>>>>,
        generated_primitives: Arc<SeparableScreenPrimitiveStorage<K>>,
        stencil_value: F::Stencil,
        blend: B,
    ) -> (stage: Self)
        ensures
            *stage.pipeline == *old(pipeline),
            *final(stage.pipeline) == *final(pipeline),
            stage.mesh == mesh,
            stage.indexed_vertices == indexed_vertices,
            stage.generated_primitives == generated_primitives,
            stage.stencil_value == stencil_value,
            stage.blend == blend,
            stage.cull_faces.is_none(),
            !stage.antialiased_lines,
            stage.tile_size == (Dimensions { width: DEFAULT_TILE_EDGE, height: DEFAULT_TILE_EDGE }),
    {
        FragmentShader {
            pipeline,
            mesh,
            indexed_primitive: PhantomData,
            stencil_value,
            indexed_vertices,
            generated_primitives,
            cull_faces: None,
            blend,
            antialiased_lines: false,
            tile_size: default_tile_size(),
        }
    }

    /// Checks whether the draw can be rasterized into the framebuffer of
    /// the pipeline: whether the vertices come in whole primitives, the
    /// indices name vertices and every depth has a value in the depth
    /// buffer.
    pub fn is_renderable(&self) -> (r: bool)
        ensures
            r == self.spec_renderable(),
    {
        let generated: &SeparableScreenPrimitiveStorage<K> = &*self.generated_primitives;
        if generated.tris.len() % 3 != 0 || generated.lines.len() % 2 != 0 {
            return false;
        }
        if !depths_fit::<F::Depth, K>(&generated.tris) || !depths_fit::<F::Depth, K>(&generated.lines)
            || !depths_fit::<F::Depth, K>(&generated.points) {
            return false;
        }
        let mesh: &Mesh<V> = &*self.mesh;
        let indexed: &Option<Vec<ScreenVertex<K>>> = &*self.indexed_vertices;
        match indexed {
            Some(vertices) => {
                if T::is_triangle() || T::is_line() || T::is_point() {
                    if !indices_fit(&mesh.indices, vertices.len()) || !depths_fit::<F::Depth, K>(vertices) {
                        return false;
                    }
                }
                if T::is_triangle() && mesh.indices.len() % 3 != 0 {
                    return false;
                }
                if T::is_line() && mesh.indices.len() % 2 != 0 {
                    return false;
                }
                true
            },
            None => true,
        }
    }

    /// Rasterizes the primitives of the draw into the framebuffer of the
    /// pipeline, with `fragment_shader` as the fragment function.
    ///
    /// Every pixel of the rasterized surface is left as rasterizing the
    /// primitives in their order leaves it: each primitive that visits the
    /// pixel runs the stencil test and the depth test on it, and where both
    /// pass, the fragment function decides what is written. The last row
    /// and the last column of the framebuffer are not drawn to. The outcome
    /// does not depend on the size of the tiles.
    pub fn run<S>(self, fragment_shader: S) where S: Fn(&ScreenVertex<K>, &U) -> Fragment<F::Color>
        requires
            old(self.pipeline).framebuffer.wf(),
            self.spec_renderable(),
            self.tile_size.width > 0,
            self.tile_size.height > 0,
            forall|vertex: ScreenVertex<K>| call_requires(fragment_shader, (&vertex, &old(self.pipeline).uniforms)),
        ensures
            final(self.pipeline).framebuffer.wf(),
            final(self.pipeline).framebuffer.spec_dimensions() == old(self.pipeline).framebuffer.spec_dimensions(),
            final(self.pipeline).stencil_config == old(self.pipeline).stencil_config,
            final(self.pipeline).uniforms == old(self.pipeline).uniforms,
            cells_rendered::<F, B, K, U, S>(
                self.stream(),
                self.surface_arguments(),
                old(self.pipeline).framebuffer.cells(),
                final(self.pipeline).framebuffer.cells(),
                self.blend,
                fragment_shader,
                old(self.pipeline).uniforms,
            ),
    {
        let ghost stream = self.stream();
        let ghost surface = self.surface_arguments();
        let FragmentShader {
            pipeline,
            mesh,
            indexed_vertices,
            stencil_value,
            generated_primitives,
            cull_faces,
            blend,
            antialiased_lines,
            tile_size,
            ..
        } = self;
        let ghost start = pipeline.framebuffer.cells();
        let dimensions = pipeline.framebuffer.dimensions();
        let tiles = plan_tiles(dimensions, tile_size);

        // Fetch stencil test and operation before the tile loop.
        let stencil_test = pipeline.stencil_config.get_test();
        let stencil_op = pipeline.stencil_config.get_op();

        let mut counter: usize = 0;
        let ghost mut done: int = 0;
        let mut claim = claim_tile(&tiles, &mut counter);
        while claim.is_some()
            invariant
                pipeline.framebuffer.wf(),
                pipeline.framebuffer.spec_dimensions() == dimensions,
                pipeline.stencil_config == old(self.pipeline).stencil_config,
                pipeline.uniforms == old(self.pipeline).uniforms,
                tile_size.width > 0,
                tile_size.height > 0,
                forall|vertex: ScreenVertex<K>| call_requires(fragment_shader, (&vertex, &pipeline.uniforms)),
                renderable::<T, F::Depth, V, K>(*mesh, *indexed_vertices, *generated_primitives),
                stream == primitive_stream::<T, V, K>(*mesh, *indexed_vertices, *generated_primitives),
                tiles@ == spec_tiles(dimensions, tile_size),
                surface.dimensions == dimensions,
                surface.tile == surface_tile(dimensions),
                surface.stencil_value == stencil_value,
                surface.stencil_test == stencil_test,
                surface.stencil_op == stencil_op,
                surface.antialiased_lines == antialiased_lines,
                surface.cull_faces == cull_faces,
                0 <= done <= tiles@.len(),
                done < tiles@.len() ==> counter == done + 1,
                claim == if done < tiles@.len() {
                    Some(tiles@[done])
                } else {
                    None
                },
                tiles_rendered::<F, B, K, U, S>(
                    stream,
                    surface,
                    tile_size,
                    done,
                    start,
                    pipeline.framebuffer.cells(),
                    blend,
                    fragment_shader,
                    pipeline.uniforms,
                ),
            decreases tiles@.len() - done,
        {
            let tile = claim.unwrap();
            let args = RasterArguments {
                dimensions,
                tile,
                stencil_value,
                stencil_test,
                stencil_op,
                antialiased_lines,
                cull_faces,
            };
            let ghost middle = pipeline.framebuffer.cells();
            proof {
                lemma_tile_in_surface(dimensions, tile_size, done);
            }
            rasterize_tile::<T, F, B, V, K, U, S>(
                &args,
                &mut pipeline.framebuffer,
                &blend,
                &fragment_shader,
                &pipeline.uniforms,
                &*mesh,
                &*indexed_vertices,
                &*generated_primitives,
            );
            proof {
                lemma_tile_done::<F, B, K, U, S>(
                    stream,
                    surface,
                    args,
                    tile_size,
                    done,
                    start,
                    middle,
                    pipeline.framebuffer.cells(),
                    blend,
                    fragment_shader,
                    pipeline.uniforms,
                );
                done = done + 1;
            }
            claim = claim_tile(&tiles, &mut counter);
        }
        proof {
            lemma_tiles_done::<F, B, K, U, S>(
                stream,
                surface,
                tile_size,
                start,
                pipeline.framebuffer.cells(),
                blend,
                fragment_shader,
                pipeline.uniforms,
            );
        }
    }
}

} // verus!
