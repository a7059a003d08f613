use raytracer::image::ImageTexture;

#[test]
fn test_image_texture_pixels() {
    // a 2x2 image: red, green / blue, white
    let data = vec![
        255, 0, 0, 0, 255, 0, //
        0, 0, 255, 255, 255, 255,
    ];
    let tex = ImageTexture::from_rgb_bytes(data, 2, 2);
    assert_eq!(tex.width(), 2);
    assert_eq!(tex.height(), 2);
    assert!(tex.has_data());

    assert_eq!(tex.pixel(0, 0), (255, 0, 0));
    assert_eq!(tex.pixel(1, 0), (0, 255, 0));
    assert_eq!(tex.pixel(0, 1), (0, 0, 255));
    assert_eq!(tex.pixel(1, 1), (255, 255, 255));
}

#[test]
fn test_image_texture_rows_not_columns() {
    // 3x1: three pixels across one row
    let data = vec![10, 11, 12, 20, 21, 22, 30, 31, 32];
    let tex = ImageTexture::from_rgb_bytes(data, 3, 1);
    assert_eq!(tex.pixel(0, 0), (10, 11, 12));
    assert_eq!(tex.pixel(1, 0), (20, 21, 22));
    assert_eq!(tex.pixel(2, 0), (30, 31, 32));
}

#[test]
fn test_image_texture_zero_rows() {
    // a claimed width with no rows decodes to no data at all
    let tex = ImageTexture::from_rgb_bytes(Vec::new(), 5, 0);
    assert_eq!(tex.width(), 5);
    assert_eq!(tex.height(), 0);
    assert!(!tex.has_data());
}

#[test]
fn test_image_texture_empty() {
    let tex = ImageTexture::empty();
    assert_eq!(tex.width(), 0);
    assert_eq!(tex.height(), 0);
    assert!(!tex.has_data());
}
