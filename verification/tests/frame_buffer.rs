use chip8::frame_buffer::{FrameBuffer, HEIGHT, PIXEL_COUNT, WIDTH};
use chip8::sprite::draw_row;

#[test]
fn frame_buffer_constants() {
    assert_eq!(WIDTH, 64);
    assert_eq!(HEIGHT, 32);
    assert_eq!(PIXEL_COUNT, 64 * 32);
}

#[test]
fn new_frame_buffer_is_blank() {
    let fb = FrameBuffer::new();
    assert_eq!(fb.buffer().len(), 2048);
    assert!(fb.buffer().iter().all(|p| *p == 0));
}

#[test]
fn flip_pixel_turns_on_then_off() {
    let mut fb = FrameBuffer::new();
    assert!(!fb.flip_pixel(10, 5));
    assert_eq!(fb.get_pixel(10, 5), 1);
    assert!(fb.flip_pixel(10, 5));
    assert_eq!(fb.get_pixel(10, 5), 0);
    assert!(!fb.flip_pixel(10, 5));
    assert_eq!(fb.get_pixel(10, 5), 1);
}

#[test]
fn flip_pixel_changes_one_pixel_only() {
    let mut fb = FrameBuffer::new();
    fb.flip_pixel(3, 2);
    let lit: Vec<usize> = fb
        .buffer()
        .iter()
        .enumerate()
        .filter(|(_, p)| **p == 1)
        .map(|(k, _)| k)
        .collect();
    assert_eq!(lit, vec![2 * 64 + 3]);
}

#[test]
fn buffer_is_row_major() {
    let mut fb = FrameBuffer::new();
    fb.flip_pixel(0, 0);
    fb.flip_pixel(63, 0);
    fb.flip_pixel(0, 1);
    fb.flip_pixel(63, 31);
    let pixels = fb.buffer();
    assert_eq!(pixels[0], 1);
    assert_eq!(pixels[63], 1);
    assert_eq!(pixels[64], 1);
    assert_eq!(pixels[2047], 1);
    assert_eq!(pixels.iter().filter(|p| **p == 1).count(), 4);
}

#[test]
fn clear_turns_every_pixel_off() {
    let mut fb = FrameBuffer::new();
    for y in 0..32 {
        for x in 0..64 {
            if (x + y) % 3 == 0 {
                fb.flip_pixel(x, y);
            }
        }
    }
    assert!(fb.buffer().iter().any(|p| *p == 1));
    fb.clear();
    assert!(fb.buffer().iter().all(|p| *p == 0));
    assert_eq!(fb.buffer().len(), 2048);
}

#[test]
fn rgba_shows_lit_pixels_white_and_others_black() {
    let mut fb = FrameBuffer::new();
    fb.flip_pixel(1, 0);
    fb.flip_pixel(63, 31);
    let frame = fb.rgba();
    assert_eq!(frame.len(), 2048 * 4);
    assert_eq!(&frame[0..4], &[0x00, 0x00, 0x00, 0xFF]);
    assert_eq!(&frame[4..8], &[0xFF, 0xFF, 0xFF, 0xFF]);
    assert_eq!(&frame[8..12], &[0x00, 0x00, 0x00, 0xFF]);
    assert_eq!(&frame[2047 * 4..2048 * 4], &[0xFF, 0xFF, 0xFF, 0xFF]);
    for k in 0..2048 {
        assert_eq!(frame[4 * k + 3], 0xFF);
    }
}

#[test]
fn draw_row_puts_the_high_bit_leftmost() {
    let mut fb = FrameBuffer::new();
    assert!(!draw_row(&mut fb, 0b1010_0001, 8, 3));
    let row: Vec<u8> = (8..16).map(|x| fb.get_pixel(x, 3)).collect();
    assert_eq!(row, vec![1, 0, 1, 0, 0, 0, 0, 1]);
    assert_eq!(fb.buffer().iter().filter(|p| **p == 1).count(), 3);
}

#[test]
fn draw_row_reports_an_erased_pixel() {
    let mut fb = FrameBuffer::new();
    fb.flip_pixel(9, 3);
    assert!(!draw_row(&mut fb, 0b1000_0000, 8, 3));
    assert!(draw_row(&mut fb, 0b0100_0000, 8, 3));
    assert_eq!(fb.get_pixel(8, 3), 1);
    assert_eq!(fb.get_pixel(9, 3), 0);
}

#[test]
fn draw_row_is_cut_off_at_the_right_edge() {
    let mut fb = FrameBuffer::new();
    assert!(!draw_row(&mut fb, 0xFF, 61, 4));
    assert_eq!(fb.get_pixel(61, 4), 1);
    assert_eq!(fb.get_pixel(62, 4), 1);
    assert_eq!(fb.get_pixel(63, 4), 1);
    assert_eq!(fb.buffer().iter().filter(|p| **p == 1).count(), 3);
    assert_eq!(fb.get_pixel(0, 4), 0);
    assert_eq!(fb.get_pixel(0, 5), 0);
}
