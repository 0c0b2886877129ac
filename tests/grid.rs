use pixel_grid::colour::{unit_bits_of_byte, ONE_BITS, ZERO_BITS};
use pixel_grid::frame::{quad_corners, quad_indices};
use pixel_grid::{CellStore, Colour, Coord, FrameDriver, Size, WindowSpec, XThenY};

fn bits(r: f32, g: f32, b: f32) -> Colour {
    Colour::new(r.to_bits(), g.to_bits(), b.to_bits())
}

#[test]
fn index_of_coord_inside_is_x_plus_y_times_width() {
    let system = XThenY::new(Size::new(3, 2));
    for y in 0..2 {
        for x in 0..3 {
            let expected = (x + y * 3) as usize;
            assert_eq!(system.index_of_coord(Coord::new(x, y)), Some(expected));
            assert_eq!(system.index_of_coord_checked(Coord::new(x, y)), expected);
        }
    }
    assert_eq!(system.index_of_coord(Coord::new(2, 1)), Some(5));
}

#[test]
fn index_of_coord_outside_is_none() {
    let system = XThenY::new(Size::new(3, 2));
    assert_eq!(system.index_of_coord(Coord::new(-1, 0)), None);
    assert_eq!(system.index_of_coord(Coord::new(0, -1)), None);
    assert_eq!(system.index_of_coord(Coord::new(3, 0)), None);
    assert_eq!(system.index_of_coord(Coord::new(0, 2)), None);
    assert_eq!(system.index_of_coord(Coord::new(i32::MIN, i32::MAX)), None);
}

#[test]
fn coord_iter_is_in_index_order() {
    let system = XThenY::new(Size::new(3, 2));
    let coords = system.coord_iter();
    let expected = vec![
        Coord::new(0, 0),
        Coord::new(1, 0),
        Coord::new(2, 0),
        Coord::new(0, 1),
        Coord::new(1, 1),
        Coord::new(2, 1),
    ];
    assert_eq!(coords, expected);
    for (i, c) in coords.iter().enumerate() {
        assert_eq!(system.index_of_coord(*c), Some(i));
    }
}

#[test]
fn coord_iter_of_empty_sizes() {
    assert!(XThenY::new(Size::new(0, 0)).coord_iter().is_empty());
    assert!(XThenY::new(Size::new(4, 0)).coord_iter().is_empty());
}

#[test]
fn size_count_and_sides() {
    let size = Size::new(20, 7);
    assert_eq!(size.width(), 20);
    assert_eq!(size.height(), 7);
    assert_eq!(size.count(), 140);
}

#[test]
fn new_store_is_blue_with_coordinates_by_index() {
    let store = CellStore::new(Size::new(3, 2));
    assert_eq!(store.cells.len(), 6);
    let blue = bits(0.0, 0.0, 1.0);
    for (i, cell) in store.cells.iter().enumerate() {
        assert_eq!(cell.coord, Coord::new((i % 3) as i32, (i / 3) as i32));
        assert_eq!(cell.colour, blue);
    }
}

#[test]
fn pixel_grid_getters() {
    let mut store = CellStore::new(Size::new(4, 3));
    let grid = store.pixel_grid();
    assert_eq!(grid.width(), 4);
    assert_eq!(grid.height(), 3);
    assert_eq!(grid.len(), 12);
    assert_eq!(grid.size(), Size::new(4, 3));
    assert_eq!(grid.index_of_coord(Coord::new(3, 2)), Some(11));
    assert_eq!(grid.index_of_coord(Coord::new(4, 0)), None);
    assert_eq!(grid.coord_iter().len(), 12);
}

#[test]
fn get_mut_outside_gives_nothing_and_changes_nothing() {
    let mut store = CellStore::new(Size::new(2, 2));
    let before = store.cells.clone();
    {
        let mut grid = store.pixel_grid();
        assert!(grid.get_mut(Coord::new(2, 0)).is_none());
        assert!(grid.get_mut(Coord::new(0, -1)).is_none());
    }
    assert_eq!(store.cells, before);
}

#[test]
fn get_index_mut_writes_that_cell_only() {
    let mut store = CellStore::new(Size::new(2, 2));
    {
        let mut grid = store.pixel_grid();
        grid.get_index_mut(2).set_colour_array_u8([0, 255, 0]);
    }
    assert_eq!(store.cells[2].colour, bits(0.0, 1.0, 0.0));
    assert_eq!(store.cells[2].coord, Coord::new(0, 1));
    assert_eq!(store.cells[0].colour, bits(0.0, 0.0, 1.0));
    assert_eq!(store.cells[3].colour, bits(0.0, 0.0, 1.0));
}

#[test]
fn enumerate_mut_pairs_coordinates_with_their_cells() {
    let mut store = CellStore::new(Size::new(3, 2));
    {
        let mut grid = store.pixel_grid();
        let coords = grid.coord_iter();
        let mut pairs = grid.enumerate_mut();
        assert_eq!(pairs.len(), 6);
        for (i, (coord, pixel)) in pairs.iter_mut().enumerate() {
            assert_eq!(*coord, coords[i]);
            pixel.set_colour_array_u8([i as u8, (10 * coord.x) as u8, (20 * coord.y) as u8]);
        }
    }
    for (i, cell) in store.cells.iter().enumerate() {
        let expected = Colour::new(
            unit_bits_of_byte(i as u8),
            unit_bits_of_byte((10 * cell.coord.x) as u8),
            unit_bits_of_byte((20 * cell.coord.y) as u8),
        );
        assert_eq!(cell.colour, expected);
        assert_eq!(cell.coord, Coord::new((i % 3) as i32, (i / 3) as i32));
    }
}

#[test]
fn iter_mut_hands_out_each_cell_once() {
    let mut store = CellStore::new(Size::new(2, 1));
    {
        let mut grid = store.pixel_grid();
        let mut iter = grid.iter_mut();
        iter.next().unwrap().set_colour_array_u8([255, 255, 255]);
        iter.next().unwrap().set_colour_array_u8([0, 0, 0]);
        assert!(iter.next().is_none());
        assert!(iter.next().is_none());
    }
    assert_eq!(store.cells[0].colour, bits(1.0, 1.0, 1.0));
    assert_eq!(store.cells[1].colour, bits(0.0, 0.0, 0.0));
}

#[test]
fn bytes_red_matches_normalised_red() {
    let mut by_bytes = CellStore::new(Size::new(1, 1));
    let mut by_floats = CellStore::new(Size::new(1, 1));
    by_bytes.pixel_grid().get_index_mut(0).set_colour_array_u8([255, 0, 0]);
    by_floats.pixel_grid().get_index_mut(0).set_colour(bits(1.0, 0.0, 0.0));
    assert_eq!(by_bytes.cells, by_floats.cells);
    let stored = by_bytes.cells[0].colour;
    assert!((f32::from_bits(stored.r) - 1.0).abs() < 1e-6);
    assert!(f32::from_bits(stored.g).abs() < 1e-6);
    assert!(f32::from_bits(stored.b).abs() < 1e-6);
}

#[test]
fn unit_bits_match_float_division_for_every_byte() {
    for b in 0..=255u8 {
        assert_eq!(unit_bits_of_byte(b), (b as f32 / 255.0).to_bits(), "byte {}", b);
    }
    assert_eq!(unit_bits_of_byte(0), ZERO_BITS);
    assert_eq!(unit_bits_of_byte(255), ONE_BITS);
    assert_eq!(ONE_BITS, 1.0f32.to_bits());
}

#[test]
fn from_bytes_converts_each_channel() {
    let c = Colour::from_bytes([51, 102, 204]);
    assert_eq!(c, bits(0.2, 0.4, 0.8));
}

#[test]
fn closing_is_sticky() {
    let mut driver = FrameDriver::new(4);
    assert!(!driver.is_closed());
    assert_eq!(driver.after_events(false), Some(4));
    assert!(!driver.is_closed());
    assert_eq!(driver.after_events(true), None);
    assert!(driver.is_closed());
    assert_eq!(driver.after_events(false), None);
    assert!(driver.is_closed());
    assert_eq!(driver.after_events(true), None);
    assert!(driver.is_closed());
}

#[test]
fn two_by_two_frame_uploads_every_cell() {
    let size = Size::new(2, 2);
    let mut store = CellStore::new(size);
    let mut driver = FrameDriver::new(size.count());
    {
        let mut grid = store.pixel_grid();
        grid.get_mut(Coord::new(0, 0)).unwrap().set_colour(bits(1.0, 0.0, 0.0));
        grid.get_checked_mut(Coord::new(1, 1)).set_colour(bits(0.0, 1.0, 0.0));
    }
    let copied = driver.after_events(false).unwrap();
    assert_eq!(copied, 4);
    let device: Vec<_> = store.cells[..copied].to_vec();
    assert_eq!(device, store.cells);
    assert_eq!(device[0].colour, bits(1.0, 0.0, 0.0));
    assert_eq!(device[3].colour, bits(0.0, 1.0, 0.0));
    assert_eq!(device[3].coord, Coord::new(1, 1));
    assert_eq!(device[1].colour, bits(0.0, 0.0, 1.0));
    assert_eq!(device[2].colour, bits(0.0, 0.0, 1.0));
}

#[test]
fn one_cell_window_maps_far_corner_to_bottom_right() {
    let spec = WindowSpec::new("one".to_string(), Size::new(1, 1), Size::new(8, 16));
    assert_eq!(spec.title, "one");
    assert_eq!(spec.size_in_pixels(), (8, 16));
    let properties = spec.properties();
    assert_eq!(properties.window_width, 8);
    assert_eq!(properties.window_height, 16);
    assert_eq!(properties.cell_width, 8);
    assert_eq!(properties.cell_height, 16);
    let (px, py) = properties.corner_in_pixels(Coord::new(0, 0), 1, 1);
    assert_eq!((px, py), (8, 16));
    let p = properties.device_point(px, py);
    assert_eq!(p.x_num as f64 / p.x_den as f64, 1.0);
    assert_eq!(p.y_num as f64 / p.y_den as f64, -1.0);
    let origin = properties.device_point(0, 0);
    assert_eq!(origin.x_num as f64 / origin.x_den as f64, -1.0);
    assert_eq!(origin.y_num as f64 / origin.y_den as f64, 1.0);
}

#[test]
fn window_size_is_grid_times_cell() {
    let spec = WindowSpec::new("g".to_string(), Size::new(20, 20), Size::new(8, 16));
    assert_eq!(spec.size_in_pixels(), (160, 320));
    let properties = spec.properties();
    assert_eq!(properties.corner_in_pixels(Coord::new(19, 19), 1, 1), (160, 320));
    assert_eq!(properties.corner_in_pixels(Coord::new(3, 2), 0, 1), (24, 48));
}

#[test]
fn quad_template() {
    assert_eq!(quad_corners(), [[0, 0], [0, 1], [1, 1], [1, 0]]);
    assert_eq!(quad_indices(), [0, 1, 2, 2, 3, 0]);
}

#[test]
fn pixel_size_fits_only_within_u32() {
    let small = WindowSpec::new("s".to_string(), Size::new(20, 20), Size::new(8, 16));
    assert!(small.pixel_size_fits());
    let wide = WindowSpec::new("w".to_string(), Size::new(65536, 1), Size::new(65536, 1));
    assert!(!wide.pixel_size_fits());
    let edge = WindowSpec::new("e".to_string(), Size::new(65535, 1), Size::new(65537, 1));
    assert!(edge.pixel_size_fits());
}
