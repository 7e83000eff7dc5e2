use image::{DynamicImage, GenericImageView, Rgb, RgbImage};
use imagetowebp::imaging::{needs_resize, resize_if_needed, Picture};

fn sample(width: u32, height: u32) -> DynamicImage {
    let mut img = RgbImage::new(width, height);
    for x in 0..width {
        for y in 0..height {
            img.put_pixel(x, y, Rgb([x as u8 % 255, y as u8 % 255, 128]));
        }
    }
    DynamicImage::ImageRgb8(img)
}

#[test]
fn resize_keeps_aspect_ratio_within_limit() {
    let picture = resize_if_needed(Picture::new(sample(400, 200)), Some(200));
    assert_eq!((picture.width(), picture.height()), (200, 100));
    let image = picture.into_image();
    assert_eq!(image.dimensions(), (200, 100));
}

#[test]
fn resize_square_to_limit() {
    let picture = resize_if_needed(Picture::new(sample(300, 300)), Some(200));
    assert_eq!((picture.width(), picture.height()), (200, 200));
}

#[test]
fn resize_tall_image() {
    let picture = resize_if_needed(Picture::new(sample(250, 500)), Some(200));
    assert_eq!((picture.width(), picture.height()), (100, 200));
}

#[test]
fn small_image_is_kept() {
    let picture = resize_if_needed(Picture::new(sample(50, 40)), Some(200));
    assert_eq!((picture.width(), picture.height()), (50, 40));
    let picture = resize_if_needed(Picture::new(sample(200, 200)), Some(200));
    assert_eq!((picture.width(), picture.height()), (200, 200));
    let picture = resize_if_needed(Picture::new(sample(400, 200)), None);
    assert_eq!((picture.width(), picture.height()), (400, 200));
}

#[test]
fn resize_decision() {
    assert!(needs_resize(201, 10, Some(200)));
    assert!(needs_resize(10, 201, Some(200)));
    assert!(!needs_resize(200, 200, Some(200)));
    assert!(!needs_resize(5000, 5000, None));
    assert!(needs_resize(1, 1, Some(0)));
}

#[test]
fn resizing_twice_is_resizing_once() {
    let once = resize_if_needed(Picture::new(sample(400, 200)), Some(200));
    let size = (once.width(), once.height());
    let twice = resize_if_needed(once, Some(200));
    assert_eq!((twice.width(), twice.height()), size);
}

#[test]
fn picture_reads_size() {
    let picture = Picture::new(sample(7, 3));
    assert_eq!((picture.width(), picture.height()), (7, 3));
}

#[test]
fn resize_rounds_the_shorter_side() {
    let picture = resize_if_needed(Picture::new(sample(333, 100)), Some(200));
    assert_eq!((picture.width(), picture.height()), (200, 60));
    let picture = resize_if_needed(Picture::new(sample(7, 1000)), Some(100));
    assert_eq!((picture.width(), picture.height()), (1, 100));
}
