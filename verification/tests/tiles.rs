use softrender::geometry::{Coordinate, Dimensions};
use softrender::pipeline::stages::fragment::claim_tile;
use softrender::pipeline::tiles::{default_tile_size, plan_tiles, Tile};

fn tile(x0: u32, y0: u32, x1: u32, y1: u32) -> Tile {
    Tile { min: Coordinate::new(x0, y0), max: Coordinate::new(x1, y1) }
}

#[test]
fn default_tiles_are_128_pixels_wide_and_high() {
    assert_eq!(default_tile_size(), Dimensions::new(128, 128));
}

#[test]
fn plan_leaves_out_the_last_row_and_column() {
    let tiles = plan_tiles(Dimensions::new(4, 4), Dimensions::new(128, 128));
    assert_eq!(tiles, vec![tile(0, 0, 3, 3)]);
}

#[test]
fn plan_lists_the_tiles_row_by_row() {
    let tiles = plan_tiles(Dimensions::new(11, 6), Dimensions::new(4, 3));
    assert_eq!(
        tiles,
        vec![
            tile(0, 0, 4, 3),
            tile(4, 0, 8, 3),
            tile(8, 0, 10, 3),
            tile(0, 3, 4, 5),
            tile(4, 3, 8, 5),
            tile(8, 3, 10, 5),
        ]
    );
}

#[test]
fn plan_of_a_surface_that_the_tiles_divide() {
    let tiles = plan_tiles(Dimensions::new(9, 5), Dimensions::new(4, 4));
    assert_eq!(tiles, vec![tile(0, 0, 4, 4), tile(4, 0, 8, 4)]);
}

#[test]
fn surfaces_without_a_rasterized_pixel_have_no_tiles() {
    assert!(plan_tiles(Dimensions::new(0, 0), Dimensions::new(4, 4)).is_empty());
    assert!(plan_tiles(Dimensions::new(1, 1), Dimensions::new(4, 4)).is_empty());
    assert!(plan_tiles(Dimensions::new(1, 100), Dimensions::new(4, 4)).is_empty());
    assert!(plan_tiles(Dimensions::new(100, 1), Dimensions::new(4, 4)).is_empty());
    assert!(plan_tiles(Dimensions::new(0, 100), Dimensions::new(4, 4)).is_empty());
}

#[test]
fn plan_with_tiles_larger_than_the_numbers_go() {
    let tiles = plan_tiles(Dimensions::new(u32::MAX, 2), Dimensions::new(u32::MAX, u32::MAX));
    assert_eq!(tiles, vec![tile(0, 0, u32::MAX - 1, 1)]);
}

#[test]
fn tiles_partition_the_rasterized_surface() {
    for (width, height, tile_width, tile_height) in [(17, 9, 5, 4), (8, 8, 1, 1), (256, 3, 64, 64), (5, 40, 7, 3)] {
        let tiles = plan_tiles(Dimensions::new(width, height), Dimensions::new(tile_width, tile_height));
        for y in 0..height {
            for x in 0..width {
                let holders = tiles
                    .iter()
                    .filter(|t| t.min.x <= x && x < t.max.x && t.min.y <= y && y < t.max.y)
                    .count();
                let rasterized = x + 1 < width && y + 1 < height;
                assert_eq!(holders, if rasterized { 1 } else { 0 }, "pixel ({}, {})", x, y);
            }
        }
        for t in &tiles {
            assert!(t.max.x - t.min.x <= tile_width && t.max.y - t.min.y <= tile_height);
            assert!(t.min.x < t.max.x && t.min.y < t.max.y);
        }
    }
}

#[test]
fn claims_hand_out_every_tile_once() {
    let tiles = plan_tiles(Dimensions::new(11, 6), Dimensions::new(4, 3));
    let mut counter = 0;
    for expected in &tiles {
        assert_eq!(claim_tile(&tiles, &mut counter), Some(*expected));
    }
    assert_eq!(counter, 6);
    assert_eq!(claim_tile(&tiles, &mut counter), None);
    assert_eq!(claim_tile(&tiles, &mut counter), None);
    assert_eq!(counter, 8);
    let mut last = usize::MAX;
    assert_eq!(claim_tile(&tiles, &mut last), None);
    assert_eq!(last, 0);
}
