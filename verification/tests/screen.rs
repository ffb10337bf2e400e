use chip8::screen::{Sprite, StandardScreen, DIGITS};

fn create_screen() -> StandardScreen {
    StandardScreen::new()
}

#[test]
fn sprite_from_slice_shorter_than_max_length() {
    let bytes = vec![1; 1];
    let sprite = Sprite::from(bytes.as_slice());
    assert_eq!(sprite.bytes().to_vec(), bytes);
}

#[test]
fn sprite_from_slice_equal_to_max_length() {
    let bytes = vec![1; Sprite::MAX_LEN];
    let sprite = Sprite::from(bytes.as_slice());
    assert_eq!(sprite.bytes().to_vec(), bytes);
}

#[test]
fn sprite_from_slice_longer_than_max_length() {
    let bytes = vec![1; Sprite::MAX_LEN + 1];
    let sprite = Sprite::from(bytes.as_slice());
    assert_eq!(sprite.bytes().to_vec(), vec![1; Sprite::MAX_LEN]);
}

fn create_sprite_digit_zero() -> Sprite {
    Sprite::from(DIGITS[0].as_slice())
}

#[test]
fn screen_new_empty() {
    let screen = create_screen();
    assert!(screen.pixels.iter().all(|row| *row == 0));
}

#[test]
fn clear_screen() {
    let mut screen = create_screen();

    for row in &mut screen.pixels {
        *row = 0x42;
    }
    assert!(screen.pixels.iter().all(|row| *row != 0));
    screen.clear();
    assert!(screen.pixels.iter().all(|row| *row == 0));
}

#[test]
fn write_sprite_within_bounds() {
    let mut screen = StandardScreen::new();
    let sprite = create_sprite_digit_zero();

    let turned_off = screen.write_sprite(&sprite, 0, 0);
    assert!(!turned_off);
        let pixels: [u64;32] = [
        0b1111000000000000000000000000000000000000000000000000000000000000,
        0b1001000000000000000000000000000000000000000000000000000000000000,
        0b1001000000000000000000000000000000000000000000000000000000000000,
        0b1001000000000000000000000000000000000000000000000000000000000000,
        0b1111000000000000000000000000000000000000000000000000000000000000,
        0,0,0,0,0,0,0,0,0,0,0,0,0,0,0,0,0,0,0,0,0,0,0,0,0,0,0
    ];
    assert_eq!(screen.pixels, pixels);
}

#[test]
fn write_sprite_cut_horizontally() {
    let mut screen = StandardScreen::new();
    let sprite = create_sprite_digit_zero();

    let turned_off = screen.write_sprite(&sprite, 62, 0);
    assert!(!turned_off);
        let pixels: [u64;32] = [
        0b0000000000000000000000000000000000000000000000000000000000000011,
        0b0000000000000000000000000000000000000000000000000000000000000010,
        0b0000000000000000000000000000000000000000000000000000000000000010,
        0b0000000000000000000000000000000000000000000000000000000000000010,
        0b0000000000000000000000000000000000000000000000000000000000000011,
        0,0,0,0,0,0,0,0,0,0,0,0,0,0,0,0,0,0,0,0,0,0,0,0,0,0,0
    ];
    assert_eq!(screen.pixels, pixels);
}

#[test]
fn write_sprite_cut_vertically() {
    let mut screen = StandardScreen::new();
    let sprite = create_sprite_digit_zero();

    let turned_off = screen.write_sprite(&sprite, 0, 30);
    assert!(!turned_off);
        let pixels: [u64;32] = [
        0,0,0,0,0,0,0,0,0,0,0,0,0,0,0,0,0,0,0,0,0,0,0,0,0,0,0,
        0b0000000000000000000000000000000000000000000000000000000000000000,
        0b0000000000000000000000000000000000000000000000000000000000000000,
        0b0000000000000000000000000000000000000000000000000000000000000000,
        0b1111000000000000000000000000000000000000000000000000000000000000,
        0b1001000000000000000000000000000000000000000000000000000000000000,
    ];
    assert_eq!(screen.pixels, pixels);
}

#[test]
fn write_sprite_coords_out_bound() {
    let mut screen = StandardScreen::new();
    let sprite = create_sprite_digit_zero();

    let turned_off = screen.write_sprite(&sprite, 68, 36);
    assert!(!turned_off);
        let pixels: [u64;32] = [
        0,0,0,0,
        0b0000111100000000000000000000000000000000000000000000000000000000,
        0b0000100100000000000000000000000000000000000000000000000000000000,
        0b0000100100000000000000000000000000000000000000000000000000000000,
        0b0000100100000000000000000000000000000000000000000000000000000000,
        0b0000111100000000000000000000000000000000000000000000000000000000,
        0,0,0,0,0,0,0,0,0,0,0,0,0,0,0,0,0,0,0,0,0,0,0
    ];
    assert_eq!(screen.pixels, pixels);
}

#[test]
fn write_sprite_collision() {
    let mut screen = StandardScreen::new();
    let sprite_1 = create_sprite_digit_zero();
    let sprite_2 = create_sprite_digit_zero();

    let turned_off = screen.write_sprite(&sprite_1, 0, 0);
    assert!(!turned_off);
    let turned_off = screen.write_sprite(&sprite_2, 3, 0);
    assert!(turned_off);
        let pixels: [u64;32] = [
        0b1110111000000000000000000000000000000000000000000000000000000000,
        0b1000001000000000000000000000000000000000000000000000000000000000,
        0b1000001000000000000000000000000000000000000000000000000000000000,
        0b1000001000000000000000000000000000000000000000000000000000000000,
        0b1110111000000000000000000000000000000000000000000000000000000000,
        0,0,0,0,0,0,0,0,0,0,0,0,0,0,0,0,0,0,0,0,0,0,0,0,0,0,0,
    ];
    assert_eq!(screen.pixels, pixels);
}
