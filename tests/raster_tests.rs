use sound_image::raster::{pixel_of, sample_index};
use sound_image::{HEIGHT, RB_SIZE, WIDTH};

#[test]
fn pixel_to_sample_and_back() {
    assert_eq!(sample_index(3, 2, 10, 10), 23);
    assert_eq!(pixel_of(23, 10), (3, 2));
    assert_eq!(sample_index(WIDTH - 1, HEIGHT - 1, WIDTH, HEIGHT), RB_SIZE - 1);
    assert_eq!(pixel_of(0, WIDTH), (0, 0));
}

#[test]
fn ring_holds_one_frame() {
    assert_eq!(RB_SIZE, 250_000);
}
