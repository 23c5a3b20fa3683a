use std::collections::HashSet;

use rgb_cube::grid::{
    byte_color, generate_grid, half_extent, lattice, ByteColor, LatticePoint, NormalizedColor,
    CELL_PITCH,
};

fn p(x: i32, y: i32, z: i32) -> LatticePoint {
    LatticePoint { x, y, z }
}

#[test]
fn half_extent_of_display_width() {
    assert_eq!(half_extent(1280, CELL_PITCH), 5);
    assert_eq!(half_extent(960, CELL_PITCH), 3);
    assert_eq!(half_extent(255, CELL_PITCH), 0);
}

#[test]
fn grid_of_one_has_eight_objects() {
    assert_eq!(generate_grid(1).len(), 8);
}

#[test]
fn grid_of_five_has_a_thousand_objects() {
    assert_eq!(generate_grid(5).len(), 1000);
}

#[test]
fn grid_of_zero_is_empty() {
    assert!(generate_grid(0).is_empty());
    assert!(lattice(0).is_empty());
}

#[test]
fn grid_covers_the_cube_exactly_once() {
    let g: i32 = 2;
    let grid = generate_grid(g as u16);
    let seen: HashSet<(i32, i32, i32)> =
        grid.iter().map(|o| (o.position.x, o.position.y, o.position.z)).collect();
    assert_eq!(seen.len(), grid.len());
    let mut expected = HashSet::new();
    for x in -g..g {
        for y in -g..g {
            for z in -g..g {
                expected.insert((x, y, z));
            }
        }
    }
    assert_eq!(seen, expected);
}

#[test]
fn lattice_order_is_x_then_y_then_z() {
    let pts = lattice(1);
    assert_eq!(
        pts,
        vec![
            p(-1, -1, -1),
            p(-1, -1, 0),
            p(-1, 0, -1),
            p(-1, 0, 0),
            p(0, -1, -1),
            p(0, -1, 0),
            p(0, 0, -1),
            p(0, 0, 0),
        ]
    );
}

#[test]
fn colours_are_coordinates_over_half_extent() {
    let g: u16 = 3;
    for o in generate_grid(g) {
        assert_eq!(
            o.color,
            NormalizedColor { r: o.position.x, g: o.position.y, b: o.position.z, scale: g }
        );
    }
}

#[test]
fn colour_boundaries_are_minus_one_and_just_below_one() {
    let g: u16 = 5;
    let grid = generate_grid(g);
    let low = grid.iter().find(|o| o.position == p(-5, -5, -5)).unwrap();
    assert_eq!(low.color.r as f32 / low.color.scale as f32, -1.0);
    let high = grid.iter().find(|o| o.position == p(4, 4, 4)).unwrap();
    let v = high.color.b as f32 / high.color.scale as f32;
    assert_eq!(v, 4.0 / 5.0);
    assert!(v < 1.0);
}

#[test]
fn byte_colours_scale_to_255_and_saturate_negatives() {
    let c = NormalizedColor { r: 4, g: 0, b: -5, scale: 5 };
    assert_eq!(byte_color(&c), ByteColor { r: 204, g: 0, b: 0 });
    let c = NormalizedColor { r: 1, g: 2, b: 3, scale: 5 };
    assert_eq!(byte_color(&c), ByteColor { r: 51, g: 102, b: 153 });
    let c = NormalizedColor { r: 6, g: -1, b: 2, scale: 7 };
    assert_eq!(byte_color(&c), ByteColor { r: 218, g: 0, b: 72 });
}

#[test]
fn byte_colours_of_the_grid_stay_in_range() {
    for o in generate_grid(5) {
        let b = byte_color(&o.color);
        assert!(b.r < 255 && b.g < 255 && b.b < 255);
        assert_eq!(b.r == 0, o.position.x <= 0);
    }
}
