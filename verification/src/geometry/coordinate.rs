//! Pixel coordinates and their row-major linear index.

use std::ops::{Add, AddAssign};

use vstd::prelude::*;

use super::Dimensions;

verus! {

/// `nalgebra::Matrix`, the type behind `nalgebra::Vector2`. Nothing is
/// known of a value of it but what `vector_components` names.
#[verifier::external_type_specification]
#[verifier::external_body]
#[verifier::reject_recursive_types(T)]
#[verifier::reject_recursive_types(R)]
#[verifier::reject_recursive_types(C)]
#[verifier::reject_recursive_types(S)]
pub struct ExMatrix<T, R, C, S>(nalgebra::Matrix<T, R, C, S>);

/// `nalgebra::Const`, the type-level number of rows and of columns of a
/// `nalgebra::Vector2`.
#[verifier::external_type_specification]
#[verifier::external_body]
pub struct ExConst<const R: usize>(nalgebra::Const<R>);

/// `nalgebra::ArrayStorage`, the storage of a `nalgebra::Vector2`.
#[verifier::external_type_specification]
#[verifier::external_body]
#[verifier::reject_recursive_types(T)]
pub struct ExArrayStorage<T, const R: usize, const C: usize>(nalgebra::ArrayStorage<T, R, C>);

/// The components that a `nalgebra::Vector2` holds: `x` first, `y` second.
pub uninterp spec fn vector_components(v: nalgebra::Vector2<u32>) -> Seq<u32>;

/// `nalgebra::Vector2::new`, taken on trust: the vector that it builds
/// holds the component `x` and the component `y`, in this order.
#[verifier::external_body]
fn vector_new(x: u32, y: u32) -> (v: nalgebra::Vector2<u32>)
    ensures
        vector_components(v) == seq![x, y],
{
    nalgebra::Vector2::new(x, y)
}

/// The fields `x` and `y` that a `nalgebra::Vector2` offers by its `Deref`
/// to `nalgebra::coordinates::XY`, taken on trust: they are the two
/// components that the vector holds.
#[verifier::external_body]
fn vector_parts(v: nalgebra::Vector2<u32>) -> (parts: (u32, u32))
    ensures
        vector_components(v) == seq![parts.0, parts.1],
{
    (v.x, v.y)
}

/// A pixel position: column `x` and row `y`.
#[derive(Debug, Clone, Copy, PartialEq, Eq, Structural, Hash, PartialOrd)]
pub struct Coordinate {
    /// Column, counted from the left edge.
    pub x: u32,
    /// Row, counted from the top edge.
    pub y: u32,
}

/// The row-major index of the pixel in column `x` and row `y` of a surface
/// that is `width` pixels wide.
pub open spec fn linear_index(x: int, y: int, width: int) -> int {
    x + y * width
}

impl Coordinate {
    /// The row-major index of this coordinate in a surface of the given dimensions.
    pub open spec fn spec_index(self, dimensions: Dimensions) -> int {
        linear_index(self.x as int, self.y as int, dimensions.width as int)
    }

    /// The coordinate that the row-major index `index` names in a surface of
    /// the given dimensions: the column is the remainder and the row the
    /// quotient of the division by the width, the row cut to 32 bits.
    pub open spec fn spec_from_index(index: int, dimensions: Dimensions) -> Coordinate {
        Coordinate {
            x: (index % dimensions.width as int) as u32,
            y: ((index / dimensions.width as int) % 0x1_0000_0000) as u32,
        }
    }

    /// Whether this coordinate names a pixel of a surface of the given dimensions.
    pub open spec fn within(self, dimensions: Dimensions) -> bool {
        self.x < dimensions.width && self.y < dimensions.height
    }

    /// Creates the coordinate `(x, y)`.
    pub fn new(x: u32, y: u32) -> (c: Coordinate)
        ensures
            c.x == x,
            c.y == y,
    {
        Coordinate { x, y }
    }

    /// Builds a coordinate from the components of a 2D vector.
    pub fn from_vector(v: nalgebra::Vector2<u32>) -> (c: Coordinate)
        ensures
            vector_components(v) == seq![c.x, c.y],
    {
        let (x, y) = vector_parts(v);
        Coordinate::new(x, y)
    }

    /// Converts the coordinate into a 2D vector.
    pub fn into_vector(self) -> (v: nalgebra::Vector2<u32>)
        ensures
            vector_components(v) == seq![self.x, self.y],
    {
        vector_new(self.x, self.y)
    }

    /// Converts a coordinate inside `dimensions` into its row-major index.
    pub fn into_index(self, dimensions: Dimensions) -> (index: usize)
        requires
            self.within(dimensions),
            self.spec_index(dimensions) <= usize::MAX,
        ensures
            index == self.spec_index(dimensions),
            dimensions.spec_area() <= usize::MAX ==> index < dimensions.spec_area(),
    {
        proof {
            lemma_index_in_area(self.x as int, self.y as int, dimensions.width as int, dimensions.height as int);
        }
        self.x as usize + self.y as usize * dimensions.width as usize
    }

    /// Converts a row-major index into the coordinate it names in a surface
    /// of the given, non-zero width.
    pub fn from_index(index: usize, dimensions: Dimensions) -> (c: Coordinate)
        requires
            dimensions.width > 0,
        ensures
            c == Coordinate::spec_from_index(index as int, dimensions),
            index < dimensions.spec_area() ==> c.within(dimensions) && c.spec_index(dimensions) == index,
    {
        let width = dimensions.width as usize;
        proof {
            lemma_index_split(index as int, dimensions.width as int, dimensions.height as int);
        }
        let x = index % width;
        let y = (index - x) / width;
        let row = #[verifier::truncate] (y as u32);
        assert(row == (y as u64) % 0x1_0000_0000u64) by (bit_vector)
            requires
                row == #[verifier::truncate] (y as u32),
        ;
        Coordinate { x: x as u32, y: row }
    }
}

/// A coordinate inside a surface has an index below the surface's area.
pub proof fn lemma_index_in_area(x: int, y: int, width: int, height: int)
    requires
        0 <= x < width,
        0 <= y < height,
    ensures
        0 <= linear_index(x, y, width) < width * height,
        0 <= y * width,
{
    assert(0 <= y * width && x + y * width < width * height) by (nonlinear_arith)
        requires
            0 <= x < width,
            0 <= y < height,
    ;
}

/// Splitting an index by the width gives the column and the row, and the row
/// is inside the surface when the index is below the area.
pub proof fn lemma_index_split(index: int, width: int, height: int)
    requires
        0 <= index,
        0 < width,
        0 <= height,
    ensures
        (index - index % width) / width == index / width,
        0 <= index % width < width,
        0 <= index / width,
        index == index % width + (index / width) * width,
        index < width * height ==> index / width < height,
{
    vstd::arithmetic::div_mod::lemma_fundamental_div_mod(index, width);
    vstd::arithmetic::div_mod::lemma_mod_bound(index, width);
    vstd::arithmetic::div_mod::lemma_div_pos_is_pos(index, width);
    let q = index / width;
    let r = index % width;
    assert(width * q == q * width) by (nonlinear_arith);
    assert((index - r) / width == q) by {
        vstd::arithmetic::div_mod::lemma_fundamental_div_mod_converse(index - r, width, q, 0);
    }
    if index < width * height {
        assert(q < height) by (nonlinear_arith)
            requires
                index == r + q * width,
                0 <= r,
                index < width * height,
                0 < width,
        ;
    }
}

impl Default for Coordinate {
    fn default() -> (c: Coordinate)
        ensures
            c.x == 0,
            c.y == 0,
    {
        Coordinate::new(0, 0)
    }
}

impl From<nalgebra::Vector2<u32>> for Coordinate {
    #[inline(always)]
    fn from(v: nalgebra::Vector2<u32>) -> (c: Coordinate) {
        Coordinate::from_vector(v)
    }
}

impl vstd::std_specs::convert::FromSpecImpl<nalgebra::Vector2<u32>> for Coordinate {
    open spec fn obeys_from_spec() -> bool {
        true
    }

    open spec fn from_spec(v: nalgebra::Vector2<u32>) -> Coordinate {
        Coordinate { x: vector_components(v)[0], y: vector_components(v)[1] }
    }
}

/// A vector has no value that a specification could build, so the
/// conversion is specified by what `from` ensures of the components.
impl vstd::std_specs::convert::FromSpecImpl<Coordinate> for nalgebra::Vector2<u32> {
    open spec fn obeys_from_spec() -> bool {
        false
    }

    open spec fn from_spec(coord: Coordinate) -> nalgebra::Vector2<u32> {
        arbitrary()
    }
}

impl From<Coordinate> for nalgebra::Vector2<u32> {
    #[inline(always)]
    fn from(coord: Coordinate) -> (v: nalgebra::Vector2<u32>)
        ensures
            vector_components(v) == seq![coord.x, coord.y],
    {
        coord.into_vector()
    }
}

impl Add for Coordinate {
    type Output = Coordinate;

    fn add(self, rhs: Coordinate) -> (sum: Coordinate) {
        Coordinate { x: self.x + rhs.x, y: self.y + rhs.y }
    }
}

impl vstd::std_specs::ops::AddSpecImpl for Coordinate {
    open spec fn obeys_add_spec() -> bool {
        true
    }

    open spec fn add_req(self, rhs: Coordinate) -> bool {
        self.x + rhs.x <= u32::MAX && self.y + rhs.y <= u32::MAX
    }

    open spec fn add_spec(self, rhs: Coordinate) -> Coordinate {
        Coordinate { x: (self.x + rhs.x) as u32, y: (self.y + rhs.y) as u32 }
    }
}

impl AddAssign for Coordinate {
    fn add_assign(&mut self, rhs: Coordinate)
        requires
            old(self).x + rhs.x <= u32::MAX,
            old(self).y + rhs.y <= u32::MAX,
        ensures
            final(self).x == old(self).x + rhs.x,
            final(self).y == old(self).y + rhs.y,
    {
        self.x += rhs.x;
        self.y += rhs.y;
    }
}

/// An index below the area of a surface converts into a coordinate inside
/// the surface, which converts back into the index.
pub proof fn lemma_from_index_into_index(index: int, dimensions: Dimensions)
    requires
        0 <= index < dimensions.spec_area(),
    ensures
        Coordinate::spec_from_index(index, dimensions).within(dimensions),
        Coordinate::spec_from_index(index, dimensions).spec_index(dimensions) == index,
{
    let width = dimensions.width as int;
    let height = dimensions.height as int;
    if width == 0 {
        assert(width * height == 0) by (nonlinear_arith)
            requires
                width == 0,
        ;
    } else {
        lemma_index_split(index, width, height);
    }
}

/// A coordinate inside a surface converts into an index below the area of
/// the surface, which converts back into the coordinate.
pub proof fn lemma_into_index_from_index(coordinate: Coordinate, dimensions: Dimensions)
    requires
        coordinate.within(dimensions),
    ensures
        0 <= coordinate.spec_index(dimensions) < dimensions.spec_area(),
        Coordinate::spec_from_index(coordinate.spec_index(dimensions), dimensions) == coordinate,
{
    let width = dimensions.width as int;
    let height = dimensions.height as int;
    let x = coordinate.x as int;
    let y = coordinate.y as int;
    lemma_index_in_area(x, y, width, height);
    assert(width * y == y * width) by (nonlinear_arith);
    vstd::arithmetic::div_mod::lemma_fundamental_div_mod_converse(x + y * width, width, y, x);
}

} // verus!
