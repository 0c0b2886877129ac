use vstd::prelude::*;

use crate::geometry::{Coord, Size};

verus! {

/// What a window is made from: a title, its grid in cells and each cell in pixels.
pub struct WindowSpec {
    pub title: String,
    pub grid_size: Size,
    pub cell_size: Size,
}

/// The record handed to the render program once, for the window's whole life.
#[derive(Clone, Copy, Debug, PartialEq, Eq, Structural)]
pub struct Properties {
    pub window_width: u32,
    pub window_height: u32,
    pub cell_width: u32,
    pub cell_height: u32,
}

/// A point in normalised device coordinates, each axis a fraction `num / den`.
#[derive(Clone, Copy, Debug, PartialEq, Eq, Structural)]
pub struct DevicePoint {
    pub x_num: i64,
    pub x_den: i64,
    pub y_num: i64,
    pub y_den: i64,
}

/// Whether the window's size in pixels fits in `u32` on both axes.
pub open spec fn pixel_size_fits(grid: (nat, nat), cell: (nat, nat)) -> bool {
    grid.0 * cell.0 <= u32::MAX && grid.1 * cell.1 <= u32::MAX
}

impl WindowSpec {
    /// Whether the window's size in pixels fits in `u32` on both axes.
    pub fn pixel_size_fits(&self) -> (r: bool)
        ensures
            r == pixel_size_fits(self.grid_size@, self.cell_size@),
    {
        let gw = self.grid_size.width() as u64;
        let gh = self.grid_size.height() as u64;
        let cw = self.cell_size.width() as u64;
        let ch = self.cell_size.height() as u64;
        assert(gw * cw <= 0xffff_ffff * 0xffff_ffff && gh * ch <= 0xffff_ffff * 0xffff_ffff) by (nonlinear_arith)
            requires
                gw <= 0xffff_ffff,
                gh <= 0xffff_ffff,
                cw <= 0xffff_ffff,
                ch <= 0xffff_ffff,
        ;
        gw * cw <= 0xffff_ffff && gh * ch <= 0xffff_ffff
    }

    pub fn new(title: String, grid_size: Size, cell_size: Size) -> (r: WindowSpec)
        ensures
            r.title@ == title@,
            r.grid_size == grid_size,
            r.cell_size == cell_size,
    {
        WindowSpec { title, grid_size, cell_size }
    }

    /// The window's width and height in pixels: the grid's size times the cell's.
    pub fn size_in_pixels(&self) -> (r: (u32, u32))
        requires
            pixel_size_fits(self.grid_size@, self.cell_size@),
        ensures
            r.0 == self.grid_size@.0 * self.cell_size@.0,
            r.1 == self.grid_size@.1 * self.cell_size@.1,
    {
        (self.grid_size.width() * self.cell_size.width(), self.grid_size.height()
            * self.cell_size.height())
    }

    /// The fixed record for the render program: window size and cell size, in pixels.
    pub fn properties(&self) -> (r: Properties)
        requires
            pixel_size_fits(self.grid_size@, self.cell_size@),
        ensures
            r.window_width == self.grid_size@.0 * self.cell_size@.0,
            r.window_height == self.grid_size@.1 * self.cell_size@.1,
            r.cell_width == self.cell_size@.0,
            r.cell_height == self.cell_size@.1,
    {
        let (window_width, window_height) = self.size_in_pixels();
        Properties {
            window_width,
            window_height,
            cell_width: self.cell_size.width(),
            cell_height: self.cell_size.height(),
        }
    }
}

/// The corners of the quad that every cell is drawn with, as fractions of a cell.
pub fn quad_corners() -> (r: [[u32; 2]; 4])
    ensures
        r@[0]@ == seq![0u32, 0u32],
        r@[1]@ == seq![0u32, 1u32],
        r@[2]@ == seq![1u32, 1u32],
        r@[3]@ == seq![1u32, 0u32],
{
    [[0, 0], [0, 1], [1, 1], [1, 0]]
}

/// The two triangles of the quad, as indices into its corners.
pub fn quad_indices() -> (r: [u16; 6])
    ensures
        r@ == seq![0u16, 1, 2, 2, 3, 0],
{
    [0, 1, 2, 2, 3, 0]
}

impl Properties {
    /// Where a corner of a cell's quad lands, in pixels from the window's top-left:
    /// `(coord + corner) * cell_size`.
    pub fn corner_in_pixels(&self, coord: Coord, corner_x: u32, corner_y: u32) -> (r: (i64, i64))
        requires
            corner_x <= 1,
            corner_y <= 1,
            0 <= coord.x,
            0 <= coord.y,
        ensures
            r.0 == (coord.x + corner_x) * self.cell_width,
            r.1 == (coord.y + corner_y) * self.cell_height,
    {
        let sx: i64 = coord.x as i64 + corner_x as i64;
        let sy: i64 = coord.y as i64 + corner_y as i64;
        assert(0 <= sx * self.cell_width <= 0x8000_0000 * 0xffff_ffff) by (nonlinear_arith)
            requires
                0 <= sx <= 0x8000_0000,
                self.cell_width <= u32::MAX,
        ;
        assert(0 <= sy * self.cell_height <= 0x8000_0000 * 0xffff_ffff) by (nonlinear_arith)
            requires
                0 <= sy <= 0x8000_0000,
                self.cell_height <= u32::MAX,
        ;
        let x = sx * self.cell_width as i64;
        let y = sy * self.cell_height as i64;
        (x, y)
    }

    /// A pixel position in normalised device coordinates: x runs from -1 at the left
    /// edge to 1 at the right, y from 1 at the top to -1 at the bottom.
    pub fn device_point(&self, px: i64, py: i64) -> (r: DevicePoint)
        requires
            self.window_width > 0,
            self.window_height > 0,
            -0x1_0000_0000_0000 <= px <= 0x1_0000_0000_0000,
            -0x1_0000_0000_0000 <= py <= 0x1_0000_0000_0000,
        ensures
            r.x_den == self.window_width,
            r.x_num == 2 * px - self.window_width,
            r.y_den == self.window_height,
            r.y_num == self.window_height - 2 * py,
    {
        DevicePoint {
            x_num: 2 * px - self.window_width as i64,
            x_den: self.window_width as i64,
            y_num: self.window_height as i64 - 2 * py,
            y_den: self.window_height as i64,
        }
    }
}

/// Whether the window is closed after a poll: closing is one-way.
pub open spec fn closed_after(closed: bool, close_requested: bool) -> bool {
    closed || close_requested
}

/// The decisions of the per-frame loop: whether the window has closed, and what to
/// draw while it is open.
pub struct FrameDriver {
    pub closed: bool,
    pub num_cells: usize,
}

impl FrameDriver {
    /// An open window over `num_cells` cells.
    pub fn new(num_cells: usize) -> (r: FrameDriver)
        ensures
            !r.closed,
            r.num_cells == num_cells,
    {
        FrameDriver { closed: false, num_cells }
    }

    pub fn is_closed(&self) -> (r: bool)
        ensures
            r == self.closed,
    {
        self.closed
    }

    /// Takes in whether the last poll saw a close request, and returns how many cells to
    /// copy to the device and draw this frame: all of them while open, nothing once closed.
    pub fn after_events(&mut self, close_requested: bool) -> (r: Option<usize>)
        ensures
            final(self).closed == closed_after(old(self).closed, close_requested),
            final(self).num_cells == old(self).num_cells,
            r == (if final(self).closed {
                None
            } else {
                Some(old(self).num_cells)
            }),
    {
        self.closed = self.closed || close_requested;
        if self.closed {
            None
        } else {
            Some(self.num_cells)
        }
    }
}

/// Whether the window is closed after a run of polls, each reporting whether it saw a
/// close request.
pub open spec fn closed_after_polls(closed: bool, polls: Seq<bool>) -> bool
    decreases polls.len(),
{
    if polls.len() == 0 {
        closed
    } else {
        closed_after_polls(closed_after(closed, polls[0]), polls.drop_first())
    }
}

/// Once closed, a window stays closed whatever later polls report.
pub proof fn lemma_closed_stays_closed(closed: bool, polls: Seq<bool>)
    requires
        closed,
    ensures
        closed_after_polls(closed, polls),
    decreases polls.len(),
{
    if polls.len() > 0 {
        lemma_closed_stays_closed(closed_after(closed, polls[0]), polls.drop_first());
    }
}

} // verus!
