use std::io::Cursor;
use threedge::fps_counter::{FpsCounter, FpsError};
use threedge::pressed_keys::{Key, PressedKeys};
use threedge::texture::{load_from_memory, mime_type_from_extension, Texture, TextureError, IMAGE_PNG};

fn png_bytes() -> Vec<u8> {
    let mut image = image::RgbaImage::new(2, 1);
    image.put_pixel(0, 0, image::Rgba([1, 2, 3, 4]));
    image.put_pixel(1, 0, image::Rgba([5, 6, 7, 8]));
    let mut out = Cursor::new(Vec::new());
    image.write_to(&mut out, image::ImageFormat::Png).unwrap();
    out.into_inner()
}

#[test]
fn png_decodes_to_rgba_pixels() {
    let texture = load_from_memory(IMAGE_PNG, &png_bytes()).unwrap();
    assert_eq!(texture.dimensions, (2, 1));
    assert_eq!(texture.image_data, vec![1, 2, 3, 4, 5, 6, 7, 8]);
}

#[test]
fn broken_png_is_an_image_error() {
    let result = load_from_memory("image/png", &[1, 2, 3]);
    assert!(matches!(result, Err(TextureError::Image(_))));
}

#[test]
fn other_mime_types_are_unsupported() {
    match load_from_memory("image/jpeg", &png_bytes()) {
        Err(TextureError::UnsupportedMimeType(m)) => assert_eq!(m, "image/jpeg"),
        other => panic!("unexpected: {:?}", other.map(|t| t.dimensions)),
    }
}

#[test]
fn mime_type_comes_from_the_extension() {
    assert_eq!(mime_type_from_extension(Some("png")).unwrap(), "image/png");
    match mime_type_from_extension(Some("gif")) {
        Err(TextureError::UnsupportedExtension(Some(e))) => assert_eq!(e, "gif"),
        _ => panic!("gif accepted"),
    }
    assert!(matches!(mime_type_from_extension(None), Err(TextureError::UnsupportedExtension(None))));
}

#[test]
fn texture_from_raw_keeps_its_parts() {
    let texture = Texture::from_raw(vec![9, 9, 9, 9], (1, 1));
    assert_eq!(texture.image_data, vec![9, 9, 9, 9]);
    assert_eq!(texture.dimensions, (1, 1));
}

#[test]
fn fps_counter_reports_after_a_second() {
    let mut counter = FpsCounter::new(1000);
    assert_eq!(counter.tick(1500), Ok(None));
    assert_eq!(counter.tick(2000), Ok(None));
    assert_eq!(counter.tick(2001), Ok(Some(3)));
    assert_eq!(counter.tick(2500), Ok(None));
    counter.reset(2600);
    assert_eq!(counter.tick(3601), Ok(Some(1)));
}

#[test]
fn fps_counter_refuses_time_going_back() {
    let mut counter = FpsCounter::new(1000);
    assert_eq!(counter.tick(999), Err(FpsError::ClockWentBackwards));
}

#[test]
fn pressed_keys_are_independent() {
    let mut keys = PressedKeys::new();
    assert!(!keys.test(Key::MoveLeft));
    keys.set(Key::MoveLeft, true);
    keys.set(Key::RollRight, true);
    assert!(keys.test(Key::MoveLeft));
    assert!(!keys.test(Key::MoveRight));
    assert!(keys.test(Key::RollRight));
    keys.set(Key::MoveLeft, false);
    assert!(!keys.test(Key::MoveLeft));
    assert!(keys.test(Key::RollRight));
}
