use raytracer::ppm::{Ppm, PpmColor};

#[test]
fn color_new_keeps_channels() {
    let c = PpmColor::new(12, 34, 56);
    assert_eq!((c.r(), c.g(), c.b()), (12, 34, 56));
}

#[test]
fn color_set_copies_other() {
    let mut c = PpmColor::new(1, 2, 3);
    c.set(&PpmColor::new(200, 100, 0));
    assert_eq!(c, PpmColor::new(200, 100, 0));
}

#[test]
fn color_default_is_black() {
    assert_eq!(PpmColor::default(), PpmColor::new(0, 0, 0));
}

#[test]
fn color_text_is_decimal_triple() {
    assert_eq!(PpmColor::new(12, 34, 56).to_text(), b"12 34 56\n".to_vec());
    assert_eq!(PpmColor::new(0, 7, 255).to_text(), b"0 7 255\n".to_vec());
}

#[test]
fn new_image_is_black() {
    let img = Ppm::new(3, 2, 256);
    assert_eq!(img.width(), 3);
    assert_eq!(img.height(), 2);
    assert_eq!(img.max_value(), 255);
    for y in 0..2 {
        for x in 0..3 {
            assert_eq!(img.pixel(x, y), PpmColor::new(0, 0, 0));
        }
    }
}

#[test]
fn set_writes_one_pixel_in_row_major_order() {
    let mut img = Ppm::new(3, 2, 256);
    img.set(2, 0, &PpmColor::new(9, 8, 7));
    img.set(0, 1, &PpmColor::new(1, 2, 3));
    assert_eq!(img.pixel(2, 0), PpmColor::new(9, 8, 7));
    assert_eq!(img.pixel(0, 1), PpmColor::new(1, 2, 3));
    assert_eq!(img.pixel(0, 0), PpmColor::new(0, 0, 0));
    assert_eq!(img.pixel(1, 1), PpmColor::new(0, 0, 0));
    let text = String::from_utf8(img.to_text()).unwrap();
    assert_eq!(text, "P3\n3 2\n255\n0 0 0\n0 0 0\n9 8 7\n1 2 3\n0 0 0\n0 0 0\n\n");
}

#[test]
fn set_twice_keeps_last() {
    let mut img = Ppm::new(1, 1, 256);
    img.set(0, 0, &PpmColor::new(5, 5, 5));
    img.set(0, 0, &PpmColor::new(6, 7, 8));
    assert_eq!(img.pixel(0, 0), PpmColor::new(6, 7, 8));
}

#[test]
fn empty_image_text_is_header_only() {
    let img = Ppm::new(0, 0, 1);
    assert_eq!(img.max_value(), 0);
    assert_eq!(img.to_text(), b"P3\n0 0\n0\n\n".to_vec());
}

#[test]
fn header_writes_large_sizes() {
    let img = Ppm::new(1200, 1, 65536);
    let text = img.to_text();
    assert!(text.starts_with(b"P3\n1200 1\n65535\n"));
    assert_eq!(text.len(), "P3\n1200 1\n65535\n".len() + 1200 * "0 0 0\n".len() + 1);
}
