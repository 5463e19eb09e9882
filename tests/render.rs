use pokemon_raycaster::color::{Color, Palette};
use pokemon_raycaster::framebuffer::Framebuffer;
use pokemon_raycaster::render::{
    cell_to_color, draw_cell, draw_maze_2d, get_pokemon_floor_color, get_pokemon_sky_color,
    render_2d, render_column, render_wall_slice,
};

fn rgb(r: u8, g: u8, b: u8) -> Color {
    Color::new(r, g, b, 255)
}

fn black() -> Color {
    Palette::Black.color()
}

#[test]
fn framebuffer_starts_black_and_paints_white() {
    let mut fb = Framebuffer::new(4, 3);
    assert_eq!(fb.width(), 4);
    assert_eq!(fb.height(), 3);
    assert_eq!(fb.pixel(3, 2), black());
    assert_eq!(fb.current_color(), rgb(255, 255, 255));
    fb.set_pixel(1, 2);
    assert_eq!(fb.pixel(1, 2), rgb(255, 255, 255));
    assert_eq!(fb.pixel(2, 1), black());
}

#[test]
fn set_pixel_outside_changes_nothing() {
    let mut fb = Framebuffer::new(2, 2);
    fb.set_pixel(2, 0);
    fb.set_pixel_with_color(0, 2, rgb(1, 2, 3));
    for y in 0..2 {
        for x in 0..2 {
            assert_eq!(fb.pixel(x, y), black());
        }
    }
}

#[test]
fn clear_fills_with_background() {
    let mut fb = Framebuffer::new(3, 2);
    fb.set_pixel_with_color(0, 0, rgb(9, 9, 9));
    fb.set_background_color(rgb(50, 50, 100));
    fb.clear();
    assert_eq!(fb.pixel(0, 0), rgb(50, 50, 100));
    assert_eq!(fb.pixel(2, 1), rgb(50, 50, 100));
}

#[test]
fn current_colour_paints() {
    let mut fb = Framebuffer::new(3, 3);
    fb.set_current_color(Palette::Gold.color());
    fb.set_pixel(2, 2);
    assert_eq!(fb.pixel(2, 2), rgb(255, 215, 0));
}

#[test]
fn sky_bands() {
    assert_eq!(get_pokemon_sky_color(0, 0), rgb(135, 206, 250));
    assert_eq!(get_pokemon_sky_color(20, 0), rgb(176, 224, 230));
    assert_eq!(get_pokemon_sky_color(20, 15), rgb(173, 216, 230));
    assert_eq!(get_pokemon_sky_color(19, 14), rgb(135, 206, 250));
    assert_eq!(get_pokemon_sky_color(u32::MAX, u32::MAX), {
        let p = (u32::MAX / 20 + u32::MAX / 15) % 3;
        [rgb(135, 206, 250), rgb(176, 224, 230), rgb(173, 216, 230)][p as usize]
    });
}

#[test]
fn floor_bands() {
    assert_eq!(get_pokemon_floor_color(0, 0), rgb(34, 139, 34));
    assert_eq!(get_pokemon_floor_color(15, 0), rgb(50, 205, 50));
    assert_eq!(get_pokemon_floor_color(30, 0), rgb(46, 125, 50));
    assert_eq!(get_pokemon_floor_color(45, 0), rgb(76, 175, 80));
    assert_eq!(get_pokemon_floor_color(45, 20), rgb(34, 139, 34));
}

#[test]
fn cell_colours() {
    assert_eq!(cell_to_color('+'), rgb(165, 42, 42));
    assert_eq!(cell_to_color('-'), rgb(128, 128, 128));
    assert_eq!(cell_to_color('|'), rgb(169, 169, 169));
    assert_eq!(cell_to_color('g'), rgb(255, 215, 0));
    assert_eq!(cell_to_color('s'), rgb(0, 255, 0));
    assert_eq!(cell_to_color(' '), rgb(200, 200, 200));
    assert_eq!(cell_to_color('p'), rgb(200, 200, 200));
}

#[test]
fn draw_cell_wall_fills_block() {
    let mut fb = Framebuffer::new(8, 8);
    draw_cell(&mut fb, 2, 2, 4, '+');
    assert_eq!(fb.current_color(), rgb(165, 42, 42));
    assert_eq!(fb.pixel(2, 2), rgb(165, 42, 42));
    assert_eq!(fb.pixel(5, 5), rgb(165, 42, 42));
    assert_eq!(fb.pixel(6, 5), black());
    assert_eq!(fb.pixel(1, 2), black());
}

#[test]
fn draw_cell_goal_marks_centre() {
    let mut fb = Framebuffer::new(40, 40);
    draw_cell(&mut fb, 0, 0, 32, 'g');
    let gold = rgb(255, 215, 0);
    assert_eq!(fb.pixel(11, 11), gold);
    assert_eq!(fb.pixel(20, 20), gold);
    assert_eq!(fb.pixel(10, 11), black());
    assert_eq!(fb.pixel(21, 20), black());
    assert_eq!(fb.pixel(0, 0), black());
}

#[test]
fn draw_cell_open_floor_draws_nothing() {
    let mut fb = Framebuffer::new(8, 8);
    draw_cell(&mut fb, 0, 0, 8, ' ');
    assert_eq!(fb.pixel(3, 3), black());
    assert_eq!(fb.current_color(), rgb(255, 255, 255));
}

#[test]
fn draw_cell_clips_at_edge() {
    let mut fb = Framebuffer::new(4, 4);
    draw_cell(&mut fb, 2, 2, 32, '|');
    assert_eq!(fb.pixel(3, 3), rgb(169, 169, 169));
    assert_eq!(fb.pixel(1, 3), black());
}

#[test]
fn maze_from_above() {
    let mut fb = Framebuffer::new(64, 64);
    let maze = vec![vec!['+', ' '], vec!['g', '-']];
    draw_maze_2d(&mut fb, &maze, 32);
    assert_eq!(fb.pixel(0, 0), rgb(165, 42, 42));
    assert_eq!(fb.pixel(31, 31), rgb(165, 42, 42));
    assert_eq!(fb.pixel(40, 10), black());
    assert_eq!(fb.pixel(5, 40), black());
    assert_eq!(fb.pixel(15, 45), rgb(255, 215, 0));
    assert_eq!(fb.pixel(40, 40), rgb(128, 128, 128));
    assert_eq!(fb.current_color(), rgb(128, 128, 128));
}

#[test]
fn maze_from_above_current_colour_skips_floor() {
    let mut fb = Framebuffer::new(8, 8);
    draw_maze_2d(&mut fb, &vec![vec!['|', ' '], vec![' ', ' ']], 4);
    assert_eq!(fb.current_color(), rgb(169, 169, 169));
    let mut fb2 = Framebuffer::new(8, 8);
    draw_maze_2d(&mut fb2, &vec![vec![' ']], 4);
    assert_eq!(fb2.current_color(), rgb(255, 255, 255));
}

#[test]
fn player_marker_is_a_disc() {
    let mut fb = Framebuffer::new(16, 16);
    render_2d(&mut fb, &vec![], 8, 8);
    let red = rgb(255, 0, 0);
    assert_eq!(fb.current_color(), red);
    assert_eq!(fb.pixel(8, 8), red);
    assert_eq!(fb.pixel(4, 8), red);
    assert_eq!(fb.pixel(8, 4), red);
    assert_eq!(fb.pixel(4, 4), black());
    assert_eq!(fb.pixel(12, 8), black());
    assert_eq!(fb.pixel(11, 11), black());
    assert_eq!(fb.pixel(10, 11), red);
}

#[test]
fn player_marker_near_corner_starts_at_zero() {
    let mut fb = Framebuffer::new(16, 16);
    render_2d(&mut fb, &vec![], 1, 1);
    let red = rgb(255, 0, 0);
    assert_eq!(fb.pixel(4, 4), red);
    assert_eq!(fb.pixel(0, 4), red);
    assert_eq!(fb.pixel(0, 0), black());
}

#[test]
fn render_2d_draws_marker_over_maze() {
    let mut fb = Framebuffer::new(64, 64);
    let maze = vec![vec!['+', '+'], vec!['+', '+']];
    render_2d(&mut fb, &maze, 32, 32);
    assert_eq!(fb.pixel(32, 32), rgb(255, 0, 0));
    assert_eq!(fb.pixel(0, 0), rgb(165, 42, 42));
}

#[test]
fn wall_slice_layout() {
    let mut fb = Framebuffer::new(4, 12);
    render_wall_slice(&mut fb, '+', 4, 1, 10);
    let sky = rgb(135, 206, 235);
    assert_eq!(fb.pixel(1, 0), sky);
    assert_eq!(fb.pixel(1, 2), sky);
    assert_eq!(fb.pixel(1, 3), rgb(0, 128, 0));
    assert_eq!(fb.pixel(1, 6), rgb(0, 128, 0));
    assert_eq!(fb.pixel(1, 7), rgb(0, 100, 0));
    assert_eq!(fb.pixel(1, 9), rgb(0, 100, 0));
    assert_eq!(fb.pixel(1, 10), black());
    assert_eq!(fb.pixel(0, 5), black());
    assert_eq!(fb.current_color(), rgb(255, 255, 255));
}

#[test]
fn wall_slice_colours_by_hit() {
    for (hit, c) in [
        ('#', rgb(255, 0, 0)),
        ('-', rgb(0, 0, 255)),
        ('|', rgb(255, 255, 0)),
        ('g', rgb(255, 255, 255)),
    ] {
        let mut fb = Framebuffer::new(1, 10);
        render_wall_slice(&mut fb, hit, 10, 0, 10);
        assert_eq!(fb.pixel(0, 0), c);
        assert_eq!(fb.pixel(0, 9), c);
    }
}

#[test]
fn wall_slice_outside_buffer_draws_nothing() {
    let mut fb = Framebuffer::new(2, 4);
    render_wall_slice(&mut fb, '+', 2, 2, 4);
    for y in 0..4 {
        assert_eq!(fb.pixel(0, y), black());
        assert_eq!(fb.pixel(1, y), black());
    }
}

#[test]
fn column_with_plain_sky_and_floor() {
    let mut fb = Framebuffer::new(2, 10);
    let wall = rgb(10, 20, 30);
    render_column(&mut fb, 0, 3, 6, wall, false, false);
    assert_eq!(fb.pixel(0, 0), rgb(135, 206, 235));
    assert_eq!(fb.pixel(0, 2), rgb(135, 206, 235));
    assert_eq!(fb.pixel(0, 3), wall);
    assert_eq!(fb.pixel(0, 5), wall);
    assert_eq!(fb.pixel(0, 6), rgb(34, 139, 34));
    assert_eq!(fb.pixel(0, 9), rgb(34, 139, 34));
    assert_eq!(fb.pixel(1, 4), black());
    assert_eq!(fb.current_color(), rgb(34, 139, 34));
}

#[test]
fn column_with_banded_sky_and_floor() {
    let mut fb = Framebuffer::new(30, 40);
    let wall = rgb(1, 1, 1);
    render_column(&mut fb, 25, 16, 21, wall, true, true);
    assert_eq!(fb.pixel(25, 0), get_pokemon_sky_color(25, 0));
    assert_eq!(fb.pixel(25, 15), get_pokemon_sky_color(25, 15));
    assert_eq!(fb.pixel(25, 16), wall);
    assert_eq!(fb.pixel(25, 21), get_pokemon_floor_color(25, 21));
    assert_eq!(fb.pixel(25, 39), get_pokemon_floor_color(25, 39));
    assert_eq!(fb.current_color(), get_pokemon_floor_color(25, 39));
}

#[test]
fn column_wall_taller_than_screen() {
    let mut fb = Framebuffer::new(1, 10);
    let wall = rgb(7, 7, 7);
    render_column(&mut fb, 0, 0, usize::MAX, wall, true, true);
    for y in 0..10 {
        assert_eq!(fb.pixel(0, y), wall);
    }
    assert_eq!(fb.current_color(), wall);
}

#[test]
fn column_without_floor_leaves_last_sky_colour() {
    let mut fb = Framebuffer::new(1, 10);
    render_column(&mut fb, 0, 4, 10, rgb(7, 7, 7), false, false);
    assert_eq!(fb.current_color(), rgb(135, 206, 235));
}
