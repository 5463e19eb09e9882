use pokemon_raycaster::color::{Color, Palette};
use pokemon_raycaster::framebuffer::Framebuffer;
use pokemon_raycaster::sprites::{AnimatedSprite, SpriteManager};

#[test]
fn sprite_advances_once_its_time_is_up() {
    let mut s = AnimatedSprite::new(10, 10, 100);
    assert_eq!(s.current_frame(), 0);
    assert!(!s.update(60));
    assert_eq!(s.current_frame(), 0);
    assert!(s.update(40));
    assert_eq!(s.current_frame(), 1);
    assert!(!s.update(99));
    assert!(s.update(1));
    assert!(s.update(500));
    assert!(s.update(100));
    assert_eq!(s.current_frame(), 0);
}

#[test]
fn sprite_time_saturates() {
    let mut s = AnimatedSprite::new(0, 0, u64::MAX);
    assert!(!s.update(u64::MAX - 1));
    assert!(s.update(u64::MAX));
    assert_eq!(s.current_frame(), 1);
}

#[test]
fn sprite_draws_square_in_frame_colour() {
    let mut fb = Framebuffer::new(20, 20);
    let mut s = AnimatedSprite::new(10, 10, 1);
    s.draw_as_pixels(&mut fb);
    let yellow = Palette::Yellow.color();
    assert_eq!(fb.pixel(6, 6), yellow);
    assert_eq!(fb.pixel(13, 13), yellow);
    assert_eq!(fb.pixel(14, 13), Palette::Black.color());
    assert_eq!(fb.pixel(5, 10), Palette::Black.color());
    s.update(1);
    s.draw_as_pixels(&mut fb);
    assert_eq!(fb.pixel(10, 10), Color::new(255, 165, 0, 255));
    s.update(1);
    s.draw_as_pixels(&mut fb);
    assert_eq!(fb.pixel(10, 10), Color::new(255, 0, 0, 255));
    assert_eq!(fb.current_color(), Color::new(255, 255, 255, 255));
}

#[test]
fn sprite_clipped_at_top_left() {
    let mut fb = Framebuffer::new(8, 8);
    AnimatedSprite::new(-2, 1, 1).draw_as_pixels(&mut fb);
    assert_eq!(fb.pixel(0, 0), Palette::Yellow.color());
    assert_eq!(fb.pixel(1, 4), Palette::Yellow.color());
    assert_eq!(fb.pixel(2, 0), Palette::Black.color());
    assert_eq!(fb.pixel(0, 5), Palette::Black.color());
}

#[test]
fn sprite_manager_scene() {
    let mut m = SpriteManager::new();
    assert_eq!(m.sprites.len(), 3);
    m.update(450_000_000);
    let frames: Vec<usize> = m.sprites.iter().map(|s| s.current_frame()).collect();
    assert_eq!(frames, vec![0, 1, 0]);
    m.update(100_000_000);
    let frames: Vec<usize> = m.sprites.iter().map(|s| s.current_frame()).collect();
    assert_eq!(frames, vec![1, 1, 0]);
    let mut fb = Framebuffer::new(800, 600);
    m.draw(&mut fb);
    assert_eq!(fb.pixel(200, 300), Color::new(255, 165, 0, 255));
    assert_eq!(fb.pixel(600, 200), Color::new(255, 165, 0, 255));
    assert_eq!(fb.pixel(400, 450), Palette::Yellow.color());
    assert_eq!(fb.pixel(300, 300), Palette::Black.color());
}

#[test]
fn later_sprite_drawn_over_earlier() {
    let mut m = SpriteManager { sprites: vec![AnimatedSprite::new(5, 5, 1), AnimatedSprite::new(6, 6, 1)] };
    m.sprites[1].update(1);
    let mut fb = Framebuffer::new(12, 12);
    m.draw(&mut fb);
    assert_eq!(fb.pixel(5, 5), Color::new(255, 165, 0, 255));
    assert_eq!(fb.pixel(1, 1), Palette::Yellow.color());
}
