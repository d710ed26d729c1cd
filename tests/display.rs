use chip8::display::{Display, HEIGHT, WIDTH};

fn lit_pixels(display: &Display) -> Vec<(usize, usize)> {
    let mut lit = Vec::new();
    for y in 0..HEIGHT {
        for x in 0..WIDTH {
            if display.get_pixel(x, y) {
                lit.push((x, y));
            }
        }
    }
    lit
}

#[test]
fn new_lights_listed_pixels_only() {
    let display = Display::new(&[(3, 4), (63, 31)]);

    assert_eq!(lit_pixels(&display), vec![(3, 4), (63, 31)]);
}

#[test]
fn clear_turns_everything_off() {
    let mut display = Display::new(&[(0, 0), (10, 20)]);

    display.clear();

    assert_eq!(lit_pixels(&display), vec![]);
}

#[test]
fn full_row_wraps_at_right_edge() {
    let mut display = Display::default();

    let erased = display.xor_sprite(63, 0, &[0xFF]);

    assert!(!erased);
    assert!(display.get_pixel(63, 0));
    assert!(display.get_pixel(0, 0));
    assert_eq!(
        lit_pixels(&display),
        vec![(0, 0), (1, 0), (2, 0), (3, 0), (4, 0), (5, 0), (6, 0), (63, 0)]
    );
}

#[test]
fn rows_wrap_at_bottom_edge() {
    let mut display = Display::default();

    let erased = display.xor_sprite(5, 31, &[0x80, 0x40]);

    assert!(!erased);
    assert_eq!(lit_pixels(&display), vec![(6, 0), (5, 31)]);
}

#[test]
fn drawing_twice_restores_and_collides() {
    let mut display = Display::new(&[(1, 1), (40, 7)]);

    let first = display.xor_sprite(0, 1, &[0xF0, 0x81]);
    assert!(first);
    assert_eq!(
        lit_pixels(&display),
        vec![(0, 1), (2, 1), (3, 1), (0, 2), (7, 2), (40, 7)]
    );

    let second = display.xor_sprite(0, 1, &[0xF0, 0x81]);
    assert!(second);
    assert_eq!(lit_pixels(&display), vec![(1, 1), (40, 7)]);
}

#[test]
fn erasing_every_lit_pixel_reports_collision() {
    let mut display = Display::new(&[(8, 8), (9, 8)]);

    let erased = display.xor_sprite(8, 8, &[0xC0]);

    assert!(erased);
    assert_eq!(lit_pixels(&display), vec![]);
}

#[test]
fn empty_sprite_changes_nothing() {
    let mut display = Display::new(&[(2, 2)]);

    let erased = display.xor_sprite(2, 2, &[]);

    assert!(!erased);
    assert_eq!(lit_pixels(&display), vec![(2, 2)]);
}
