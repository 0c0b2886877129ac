//! A fixed-size grid of independently coloured cells, drawn as one instanced quad each.

pub mod colour;
pub mod frame;
pub mod geometry;
pub mod grid;

pub use colour::Colour;
pub use frame::{DevicePoint, FrameDriver, Properties, WindowSpec};
pub use geometry::{Coord, Size, XThenY};
pub use grid::{Cell, CellStore, IterMut, Pixel, PixelGrid};
