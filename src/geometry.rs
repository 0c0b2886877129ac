use vstd::arithmetic::div_mod::{lemma_fundamental_div_mod, lemma_fundamental_div_mod_converse};
use vstd::prelude::*;

verus! {

/// The largest width or height of a grid: every coordinate, and the one
/// just past each row and column, fits in an `i32`.
pub const MAX_DIMENSION: u32 = 0x7fff_ffff;

/// A position on a grid, in cells; `(0, 0)` is the top-left cell.
#[derive(Clone, Copy, Debug, PartialEq, Eq, Structural)]
pub struct Coord {
    pub x: i32,
    pub y: i32,
}

impl Coord {
    pub fn new(x: i32, y: i32) -> (r: Coord)
        ensures
            r == (Coord { x, y }),
    {
        Coord { x, y }
    }
}

/// The width and height of a grid, in cells.
#[derive(Clone, Copy, Debug, PartialEq, Eq, Structural)]
pub struct Size {
    width: u32,
    height: u32,
}

/// Whether `c` lies inside a grid of `width` by `height` cells.
pub open spec fn in_bounds(width: nat, height: nat, c: Coord) -> bool {
    0 <= c.x < width && 0 <= c.y < height
}

/// The linear index of an in-bounds coordinate: rows follow one another, x varies fastest.
pub open spec fn linear_index(width: nat, c: Coord) -> int {
    c.x + c.y * width
}

/// The coordinate stored at linear index `i` of a grid `width` cells wide.
pub open spec fn coord_at(width: nat, i: int) -> Coord {
    Coord { x: (i % (width as int)) as i32, y: (i / (width as int)) as i32 }
}

/// What an index lookup returns: the linear index inside the grid, nothing outside.
pub open spec fn lookup(width: nat, height: nat, c: Coord) -> Option<usize> {
    if in_bounds(width, height, c) {
        Some(linear_index(width, c) as usize)
    } else {
        None
    }
}

/// An in-bounds coordinate has an index inside the grid, and the coordinate stored at
/// that index is the coordinate itself.
pub proof fn lemma_index_round_trip(width: nat, height: nat, c: Coord)
    requires
        in_bounds(width, height, c),
    ensures
        0 <= linear_index(width, c) < width * height,
        coord_at(width, linear_index(width, c)) == c,
{
    let i = linear_index(width, c);
    assert(c.y * width + c.x < width * height) by (nonlinear_arith)
        requires
            0 <= c.x < width,
            0 <= c.y < height,
    ;
    lemma_fundamental_div_mod_converse(i, width as int, c.y as int, c.x as int);
}

/// Every index inside the grid holds an in-bounds coordinate, whose index is that index.
pub proof fn lemma_coord_round_trip(width: nat, height: nat, i: int)
    requires
        size_limits(width, height),
        0 <= i < width * height,
    ensures
        in_bounds(width, height, coord_at(width, i)),
        linear_index(width, coord_at(width, i)) == i,
        lookup(width, height, coord_at(width, i)) == Some(i as usize),
{
    assert(width > 0) by (nonlinear_arith)
        requires
            0 <= i < width * height,
    ;
    lemma_fundamental_div_mod(i, width as int);
    let q = i / (width as int);
    let r = i % (width as int);
    assert(0 <= q < height) by (nonlinear_arith)
        requires
            0 <= i < width * height,
            i == width * q + r,
            0 <= r < width,
    ;
    assert(q <= i);
    assert(q <= MAX_DIMENSION);
    assert(i == r + q * (width as int)) by (nonlinear_arith)
        requires
            i == width * q + r,
    ;
}

/// The coordinates of a grid in index order: there are `width * height` of them, the
/// `i`-th has index `i` (so they come strictly increasing in index), the first is
/// `(0, 0)` and the last is `(width - 1, height - 1)`.
pub proof fn lemma_coordinate_order(width: nat, height: nat)
    requires
        size_limits(width, height),
        width > 0,
        height > 0,
    ensures
        forall|i: int|
            0 <= i < width * height ==> lookup(width, height, #[trigger] coord_at(width, i)) == Some(
                i as usize,
            ),
        coord_at(width, 0) == (Coord { x: 0, y: 0 }),
        width * height > 0,
        coord_at(width, width * height - 1) == (Coord {
            x: (width - 1) as i32,
            y: (height - 1) as i32,
        }),
{
    assert forall|i: int| 0 <= i < width * height implies lookup(
        width,
        height,
        #[trigger] coord_at(width, i),
    ) == Some(i as usize) by {
        lemma_coord_round_trip(width, height, i);
    }
    assert(width * height > 0) by (nonlinear_arith)
        requires
            width > 0,
            height > 0,
    ;
    lemma_fundamental_div_mod_converse(0, width as int, 0, 0);
    assert(width * height - 1 == (height - 1) * width + (width - 1)) by (nonlinear_arith);
    lemma_fundamental_div_mod_converse(
        width * height - 1,
        width as int,
        (height - 1) as int,
        (width - 1) as int,
    );
}

impl View for Size {
    type V = (nat, nat);

    closed spec fn view(&self) -> (nat, nat) {
        (self.width as nat, self.height as nat)
    }
}

/// The bounds that every `Size` keeps.
pub open spec fn size_limits(width: nat, height: nat) -> bool {
    &&& width <= MAX_DIMENSION
    &&& height <= MAX_DIMENSION
    &&& width * height <= u32::MAX
}

impl Size {
    #[verifier::type_invariant]
    spec fn limits(&self) -> bool {
        size_limits(self.width as nat, self.height as nat)
    }

    pub fn new(width: u32, height: u32) -> (r: Size)
        requires
            size_limits(width as nat, height as nat),
        ensures
            r@ == (width as nat, height as nat),
    {
        Size { width, height }
    }

    pub fn width(&self) -> (r: u32)
        ensures
            r == self@.0,
            size_limits(self@.0, self@.1),
    {
        proof {
            use_type_invariant(self);
        }
        self.width
    }

    pub fn height(&self) -> (r: u32)
        ensures
            r == self@.1,
            size_limits(self@.0, self@.1),
    {
        proof {
            use_type_invariant(self);
        }
        self.height
    }

    /// The number of cells of a grid of this size.
    pub fn count(&self) -> (r: usize)
        ensures
            r == self@.0 * self@.1,
            size_limits(self@.0, self@.1),
    {
        proof {
            use_type_invariant(self);
        }
        (self.width * self.height) as usize
    }
}

/// Relies on grid_2d's `CoordSystem::index_of_coord` for `XThenY`: `Some(x + y * width)`
/// when the coordinate lies inside the size, `None` otherwise. The type's limits keep
/// `coord_2d::Size::new` from panicking and the index within `u32`.
#[verifier::external_body]
fn grid_index_of_coord(size: Size, coord: Coord) -> (r: Option<usize>)
    ensures
        r == lookup(size@.0, size@.1, coord),
{
    let system = grid_2d::coord_system::XThenY::from(coord_2d::Size::new(size.width, size.height));
    grid_2d::coord_system::CoordSystem::index_of_coord(&system, coord_2d::Coord::new(coord.x, coord.y))
}

/// Relies on grid_2d's `CoordSystem::index_of_coord_checked` for `XThenY`: `x + y * width`
/// for a coordinate inside the size (it panics outside, which `requires` excludes).
#[verifier::external_body]
fn grid_index_of_coord_checked(size: Size, coord: Coord) -> (r: usize)
    requires
        in_bounds(size@.0, size@.1, coord),
    ensures
        r == linear_index(size@.0, coord),
{
    let system = grid_2d::coord_system::XThenY::from(coord_2d::Size::new(size.width, size.height));
    grid_2d::coord_system::CoordSystem::index_of_coord_checked(&system, coord_2d::Coord::new(coord.x, coord.y))
}

/// Relies on grid_2d's `XThenYIter`: from `(0, 0)`, x steps up to the width, then wraps
/// to 0 as y steps by one, until y reaches the height; so the `i`-th coordinate is
/// `(i % width, i / width)`. With a zero width and a non-zero height it never ends,
/// which `requires` excludes.
#[verifier::external_body]
fn grid_coords(size: Size) -> (r: Vec<Coord>)
    requires
        size@.0 > 0 || size@.1 == 0,
    ensures
        r@.len() == size@.0 * size@.1,
        forall|i: int| 0 <= i < r@.len() ==> #[trigger] r@[i] == coord_at(size@.0, i),
{
    grid_2d::coord_system::XThenYIter::from(coord_2d::Size::new(size.width, size.height))
        .map(|c| Coord { x: c.x, y: c.y })
        .collect()
}

/// The coordinate system of a grid: x varies fastest within a row, then y increments.
#[derive(Clone, Copy, Debug, PartialEq, Eq, Structural)]
pub struct XThenY {
    pub size: Size,
}

impl XThenY {
    pub fn new(size: Size) -> (r: XThenY)
        ensures
            r.size == size,
    {
        XThenY { size }
    }

    pub fn size(&self) -> (r: Size)
        ensures
            r == self.size,
    {
        self.size
    }

    /// The linear index of `coord`, or `None` when it lies outside the grid.
    pub fn index_of_coord(&self, coord: Coord) -> (r: Option<usize>)
        ensures
            r == lookup(self.size@.0, self.size@.1, coord),
    {
        grid_index_of_coord(self.size, coord)
    }

    /// The linear index of `coord`, which must lie inside the grid.
    pub fn index_of_coord_checked(&self, coord: Coord) -> (r: usize)
        requires
            in_bounds(self.size@.0, self.size@.1, coord),
        ensures
            r == linear_index(self.size@.0, coord),
    {
        grid_index_of_coord_checked(self.size, coord)
    }

    /// Every coordinate of the grid, in index order.
    pub fn coord_iter(&self) -> (r: Vec<Coord>)
        requires
            self.size@.0 > 0 || self.size@.1 == 0,
        ensures
            r@.len() == self.size@.0 * self.size@.1,
            forall|i: int| 0 <= i < r@.len() ==> #[trigger] r@[i] == coord_at(self.size@.0, i),
    {
        grid_coords(self.size)
    }
}

} // verus!
