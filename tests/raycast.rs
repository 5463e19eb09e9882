use pokemon_raycaster::color::Color;
use pokemon_raycaster::raycast::{
    cell_at, impact_color, is_goal_cell, is_position_valid, minimap_color, overlay_color,
    probe_cell, solid_hit, Probe,
};

fn grid() -> Vec<Vec<char>> {
    vec![
        vec!['+', '-', '-', '+'],
        vec!['|', 'p', 'g', '|'],
        vec!['+', '-', '-', '+'],
    ]
}

#[test]
fn cell_lookup() {
    let g = grid();
    assert_eq!(cell_at(&g, 1, 1), Some('p'));
    assert_eq!(cell_at(&g, 4, 1), None);
    assert_eq!(cell_at(&g, 0, 3), None);
    assert_eq!(cell_at(&vec![], 0, 0), None);
}

#[test]
fn cell_lookup_ragged_row() {
    let g = vec![vec![' ', ' ', ' '], vec![' ']];
    assert_eq!(cell_at(&g, 2, 0), Some(' '));
    assert_eq!(cell_at(&g, 2, 1), None);
}

#[test]
fn ray_stops_at_walls() {
    let g = grid();
    assert_eq!(probe_cell(&g, 0, 0), Probe::Wall('+'));
    assert_eq!(probe_cell(&g, 1, 0), Probe::Wall('-'));
    assert_eq!(probe_cell(&g, 0, 1), Probe::Wall('|'));
    assert_eq!(probe_cell(&g, 1, 1), Probe::Open);
    assert_eq!(probe_cell(&g, 2, 1), Probe::Open);
    assert_eq!(probe_cell(&g, 9, 9), Probe::Outside);
    assert_eq!(probe_cell(&g, 4, 0), Probe::Outside);
}

#[test]
fn fine_ray_stops_at_anything_but_floor() {
    let g = vec![vec![' ', 'g'], vec!['|', ' ']];
    assert_eq!(solid_hit(&g, 0, 0), None);
    assert_eq!(solid_hit(&g, 1, 0), Some('g'));
    assert_eq!(solid_hit(&g, 0, 1), Some('|'));
    assert_eq!(solid_hit(&g, 2, 0), Some('#'));
}

#[test]
fn walkable_cells() {
    let g = grid();
    assert!(is_position_valid(&g, 1, 1));
    assert!(is_position_valid(&g, 2, 1));
    assert!(!is_position_valid(&g, 0, 1));
    assert!(!is_position_valid(&g, 1, 0));
    assert!(!is_position_valid(&g, 5, 1));
}

#[test]
fn goal_cell() {
    let g = grid();
    assert!(is_goal_cell(&g, 2, 1));
    assert!(!is_goal_cell(&g, 1, 1));
    assert!(!is_goal_cell(&g, 7, 7));
}

#[test]
fn wall_colours_in_3d() {
    assert_eq!(impact_color('+'), Color::new(165, 42, 42, 255));
    assert_eq!(impact_color('-'), Color::new(128, 128, 128, 255));
    assert_eq!(impact_color('|'), Color::new(169, 169, 169, 255));
    assert_eq!(impact_color('x'), Color::new(255, 255, 255, 255));
}

#[test]
fn minimap_colours() {
    assert_eq!(minimap_color(' '), None);
    assert_eq!(minimap_color('-'), Some(Color::new(165, 42, 42, 255)));
    assert_eq!(minimap_color('g'), Some(Color::new(255, 215, 0, 255)));
    assert_eq!(minimap_color('s'), Some(Color::new(0, 255, 0, 255)));
    assert_eq!(minimap_color('p'), Some(Color::new(34, 139, 34, 100)));
    assert_eq!(overlay_color('|'), Color::new(165, 42, 42, 255));
    assert_eq!(overlay_color(' '), Color::new(200, 200, 200, 255));
    assert_eq!(overlay_color('g'), Color::new(255, 215, 0, 255));
}
