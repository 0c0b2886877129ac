use vstd::prelude::*;

use crate::colour::{Colour, ONE_BITS, ZERO_BITS};
use crate::geometry::{
    coord_at, in_bounds, lemma_index_round_trip, linear_index, lookup, Coord, Size, XThenY,
};

verus! {

/// One cell as the device reads it: its place on the grid and its colour.
#[derive(Clone, Copy, Debug, PartialEq, Eq, Structural)]
pub struct Cell {
    pub coord: Coord,
    pub colour: Colour,
}

/// The colour of every cell of a new grid: solid blue.
pub open spec fn initial_colour() -> Colour {
    Colour { r: ZERO_BITS, g: ZERO_BITS, b: ONE_BITS }
}

/// The cells of a grid laid out by `system`: one per index, each holding its own coordinate.
pub open spec fn laid_out(system: XThenY, cells: Seq<Cell>) -> bool {
    &&& cells.len() == system.size@.0 * system.size@.1
    &&& forall|i: int| 0 <= i < cells.len() ==> (#[trigger] cells[i]).coord == coord_at(system.size@.0, i)
}

/// The host-side store of every cell of a grid, in index order.
pub struct CellStore {
    pub coord_system: XThenY,
    pub cells: Vec<Cell>,
}

impl CellStore {
    pub open spec fn wf(&self) -> bool {
        laid_out(self.coord_system, self.cells@)
    }

    /// A store of `size` cells, each at its own coordinate and coloured blue.
    pub fn new(size: Size) -> (r: CellStore)
        requires
            size@.0 > 0 || size@.1 == 0,
        ensures
            r.wf(),
            r.coord_system.size == size,
            forall|i: int| 0 <= i < r.cells@.len() ==> (#[trigger] r.cells@[i]).colour == initial_colour(),
    {
        let coord_system = XThenY::new(size);
        let coords = coord_system.coord_iter();
        let blue = Colour::new(ZERO_BITS, ZERO_BITS, ONE_BITS);
        let mut cells: Vec<Cell> = Vec::with_capacity(coords.len());
        let mut i: usize = 0;
        while i < coords.len()
            invariant
                i <= coords@.len(),
                coords@.len() == size@.0 * size@.1,
                forall|j: int| 0 <= j < coords@.len() ==> #[trigger] coords@[j] == coord_at(size@.0, j),
                cells@.len() == i,
                forall|j: int| 0 <= j < i ==> (#[trigger] cells@[j]) == (Cell { coord: coord_at(size@.0, j), colour: blue }),
            decreases coords@.len() - i,
        {
            cells.push(Cell { coord: coords[i], colour: blue });
            i = i + 1;
        }
        CellStore { coord_system, cells }
    }

    /// Exclusive access to the cells for one batch of changes; the store takes back what
    /// the view holds when it is dropped.
    pub fn pixel_grid(&mut self) -> (g: PixelGrid<'_>)
        requires
            old(self).wf(),
        ensures
            g.coord_system == old(self).coord_system,
            g.cells@ == old(self).cells@,
            final(self).coord_system == old(self).coord_system,
            final(self).cells@ == final(g.cells)@,
    {
        PixelGrid { coord_system: self.coord_system, cells: self.cells.as_mut_slice() }
    }
}

/// A handle on the colour of one cell.
pub struct Pixel<'a> {
    /// The colour of the cell this pixel stands for; writes reach the store in place.
    pub colour: &'a mut Colour,
}

impl<'a> Pixel<'a> {
    /// Sets the colour, each channel given as the bits of a value in `[0, 1]`.
    pub fn set_colour(&mut self, colour: Colour)
        ensures
            *final(self).colour == colour,
            *final(final(self).colour) == *final(old(self).colour),
    {
        *self.colour = colour;
    }

    /// Sets the colour from bytes: each channel becomes the byte divided by 255.
    pub fn set_colour_array_u8(&mut self, rgb: [u8; 3])
        ensures
            *final(self).colour == Colour::from_bytes_spec(rgb),
            *final(final(self).colour) == *final(old(self).colour),
    {
        self.set_colour(Colour::from_bytes(rgb));
    }
}

/// Hands out the pixels of a grid one by one, in index order.
pub struct IterMut<'a> {
    /// The cells not handed out yet.
    pub rest: Option<&'a mut [Cell]>,
}

impl<'a> IterMut<'a> {
    /// The pixel of the next cell, or `None` when every cell has been handed out.
    pub fn next(&mut self) -> (r: Option<Pixel<'a>>)
        requires
            old(self).rest is Some,
        ensures
            final(self).rest is Some,
            ({
                let before = old(self).rest->0;
                let after = final(self).rest->0;
                if before@.len() == 0 {
                    &&& r is None
                    &&& after@ == before@
                    &&& final(after)@ == final(before)@
                } else {
                    &&& r is Some
                    &&& *r->0.colour == before@[0].colour
                    &&& after@ == before@.drop_first()
                    &&& final(before)@ == seq![Cell { coord: before@[0].coord, colour: *final(r->0.colour) }]
                        + final(after)@
                }
            }),
    {
        match self.rest.take() {
            Some(cells) => {
                if cells.len() == 0 {
                    self.rest = Some(cells);
                    None
                } else {
                    let (first, tail) = cells.split_at_mut(1);
                    self.rest = Some(tail);
                    Some(Pixel { colour: &mut first[0].colour })
                }
            },
            None => None,
        }
    }
}

/// Exclusive, scoped write access to every cell of a grid.
pub struct PixelGrid<'a> {
    pub coord_system: XThenY,
    /// The store's cells, borrowed for as long as the view lives.
    pub cells: &'a mut [Cell],
}

impl<'a> View for PixelGrid<'a> {
    type V = Seq<Cell>;

    /// The cells as they stand now.
    open spec fn view(&self) -> Seq<Cell> {
        self.cells@
    }
}

impl<'a> PixelGrid<'a> {
    pub open spec fn wf(&self) -> bool {
        laid_out(self.coord_system, self@)
    }

    pub fn size(&self) -> (r: Size)
        ensures
            r == self.coord_system.size,
    {
        self.coord_system.size()
    }

    pub fn width(&self) -> (r: u32)
        ensures
            r == self.coord_system.size@.0,
    {
        self.coord_system.size().width()
    }

    pub fn height(&self) -> (r: u32)
        ensures
            r == self.coord_system.size@.1,
    {
        self.coord_system.size().height()
    }

    /// The number of cells.
    pub fn len(&self) -> (r: usize)
        ensures
            r == self.coord_system.size@.0 * self.coord_system.size@.1,
    {
        self.coord_system.size().count()
    }

    /// Every coordinate of the grid, in index order.
    pub fn coord_iter(&self) -> (r: Vec<Coord>)
        requires
            self.wf(),
        ensures
            r@.len() == self@.len(),
            forall|i: int| 0 <= i < r@.len() ==> #[trigger] r@[i] == self@[i].coord,
    {
        let size = self.coord_system.size();
        if size.width() == 0 {
            return Vec::new();
        }
        self.coord_system.coord_iter()
    }

    pub fn index_of_coord(&self, coord: Coord) -> (r: Option<usize>)
        ensures
            r == lookup(self.coord_system.size@.0, self.coord_system.size@.1, coord),
    {
        self.coord_system.index_of_coord(coord)
    }

    /// The pixel at `index`, which must lie inside the grid.
    pub fn get_index_mut(&mut self, index: usize) -> (p: Pixel<'_>)
        requires
            old(self).wf(),
            index < old(self).cells@.len(),
        ensures
            *p.colour == old(self).cells@[index as int].colour,
            final(self).coord_system == old(self).coord_system,
            final(self).cells@ == old(self).cells@.update(
                index as int,
                Cell { coord: old(self).cells@[index as int].coord, colour: *final(p.colour) },
            ),
            final(final(self).cells)@ == final(old(self).cells)@,
    {
        Pixel { colour: &mut self.cells[index].colour }
    }

    /// The pixels of every cell, in index order.
    pub fn iter_mut(&mut self) -> (r: IterMut<'_>)
        ensures
            r.rest is Some,
            r.rest->0@ == old(self)@,
            final(self).coord_system == old(self).coord_system,
            final(self)@ == final(r.rest->0)@,
            final(final(self).cells)@ == final(old(self).cells)@,
    {
        IterMut { rest: Some(&mut *self.cells) }
    }

    /// Every cell's coordinate paired with its pixel, in index order: the `i`-th
    /// coordinate is the `i`-th of `coord_iter`, and the `i`-th pixel is the cell at index `i`.
    pub fn enumerate_mut(&mut self) -> (r: Vec<(Coord, Pixel<'_>)>)
        requires
            old(self).wf(),
        ensures
            r@.len() == old(self)@.len(),
            forall|i: int|
                0 <= i < r@.len() ==> (#[trigger] r@[i]).0 == coord_at(old(self).coord_system.size@.0, i)
                    && *r@[i].1.colour == old(self)@[i].colour,
            final(self).coord_system == old(self).coord_system,
            final(self)@.len() == old(self)@.len(),
            forall|i: int|
                0 <= i < r@.len() ==> #[trigger] final(self)@[i] == (Cell {
                    coord: old(self)@[i].coord,
                    colour: *final(r@[i].1.colour),
                }),
            final(final(self).cells)@ == final(old(self).cells)@,
    {
        let coords = self.coord_iter();
        let ghost cells = self@;
        let ghost n = cells.len();
        let mut iter = self.iter_mut();
        let ghost whole = iter.rest->0;
        let mut out: Vec<(Coord, Pixel<'_>)> = Vec::new();
        let mut i: usize = 0;
        while i < coords.len()
            invariant
                n == coords@.len(),
                n == cells.len(),
                i <= n,
                forall|j: int| 0 <= j < n ==> #[trigger] coords@[j] == cells[j].coord,
                iter.rest is Some,
                iter.rest->0@ == cells.subrange(i as int, n as int),
                out@.len() == i,
                forall|j: int|
                    0 <= j < i ==> (#[trigger] out@[j]).0 == cells[j].coord && *out@[j].1.colour
                        == cells[j].colour,
                final(whole)@.len() == i + final(iter.rest->0)@.len(),
                forall|j: int|
                    0 <= j < i ==> #[trigger] final(whole)@[j] == (Cell {
                        coord: cells[j].coord,
                        colour: *final(out@[j].1.colour),
                    }),
                forall|j: int|
                    0 <= j < final(iter.rest->0)@.len() ==> #[trigger] final(whole)@[i + j]
                        == final(iter.rest->0)@[j],
            decreases n - i,
        {
            let ghost before = iter.rest->0;
            let next = iter.next();
            proof {
                assert(iter.rest->0@ =~= cells.subrange(i + 1, n as int));
            }
            match next {
                Some(pixel) => {
                    out.push((coords[i], pixel));
                    proof {
                        let fb = final(before)@;
                        let fa = final(iter.rest->0)@;
                        let k = i as int;
                        assert(fb[0] == final(whole)@[k + 0]);
                        assert(fb[0] == (Cell { coord: cells[k].coord, colour: *final(out@[k].1.colour) }));
                        assert forall|j: int| 0 <= j < fa.len() implies #[trigger] final(whole)@[(k + 1) + j]
                            == fa[j] by {
                            assert(final(whole)@[k + (j + 1)] == fb[j + 1]);
                        }
                    }
                },
                None => {
                    assert(false);
                },
            }
            i = i + 1;
        }
        out
    }

    /// The pixel at `coord`, or `None` when it lies outside the grid.
    pub fn get_mut(&mut self, coord: Coord) -> (r: Option<Pixel<'_>>)
        requires
            old(self).wf(),
        ensures
            r is Some <==> in_bounds(old(self).coord_system.size@.0, old(self).coord_system.size@.1, coord),
            final(self).coord_system == old(self).coord_system,
            final(final(self).cells)@ == final(old(self).cells)@,
            r is None ==> final(self)@ == old(self)@,
            r is Some ==> ({
                let i = linear_index(old(self).coord_system.size@.0, coord);
                &&& *r->0.colour == old(self)@[i].colour
                &&& final(self)@ == old(self)@.update(i, Cell { coord, colour: *final(r->0.colour) })
            }),
    {
        let len = self.len();
        match self.coord_system.index_of_coord(coord) {
            Some(index) => {
                proof {
                    lemma_index_round_trip(self.coord_system.size@.0, self.coord_system.size@.1, coord);
                    assert(linear_index(self.coord_system.size@.0, coord) < len);
                }
                Some(self.get_index_mut(index))
            },
            None => None,
        }
    }

    /// The pixel at `coord`, which must lie inside the grid.
    pub fn get_checked_mut(&mut self, coord: Coord) -> (p: Pixel<'_>)
        requires
            old(self).wf(),
            in_bounds(old(self).coord_system.size@.0, old(self).coord_system.size@.1, coord),
        ensures
            ({
                let i = linear_index(old(self).coord_system.size@.0, coord);
                &&& *p.colour == old(self)@[i].colour
                &&& final(self)@ == old(self)@.update(i, Cell { coord, colour: *final(p.colour) })
            }),
            final(self).coord_system == old(self).coord_system,
            final(final(self).cells)@ == final(old(self).cells)@,
    {
        let index = self.coord_system.index_of_coord_checked(coord);
        proof {
            lemma_index_round_trip(self.coord_system.size@.0, self.coord_system.size@.1, coord);
        }
        self.get_index_mut(index)
    }
}

} // verus!
