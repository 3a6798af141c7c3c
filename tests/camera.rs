use raytrace::camera::image_height;

#[test]
fn wide_screen_height() {
    assert_eq!(image_height(400, 16, 9), 225);
}

#[test]
fn height_truncates_toward_zero() {
    assert_eq!(image_height(401, 16, 9), 225);
    assert_eq!(image_height(15, 16, 9), 8);
}

#[test]
fn square_aspect_keeps_width() {
    assert_eq!(image_height(123, 1, 1), 123);
}

#[test]
fn tall_aspect_exceeds_width() {
    assert_eq!(image_height(u32::MAX, 1, u32::MAX), (u32::MAX as u64) * (u32::MAX as u64));
}

#[test]
fn zero_width_gives_zero_height() {
    assert_eq!(image_height(0, 16, 9), 0);
}
