use raytracing::ppm::{encode_ppm, ppm_header, write_color, Rgb8};

#[test]
fn header_names_size_and_depth() {
    assert_eq!(ppm_header(320, 180), b"P3\n320 180\n255\n".to_vec());
    assert_eq!(ppm_header(0, 7), b"P3\n0 7\n255\n".to_vec());
}

#[test]
fn color_line_in_decimal() {
    let mut out = b"x".to_vec();
    write_color(&mut out, Rgb8 { r: 0, g: 128, b: 255 });
    assert_eq!(out, b"x0 128 255\n".to_vec());
    write_color(&mut out, Rgb8 { r: 9, g: 10, b: 99 });
    assert_eq!(out, b"x0 128 255\n9 10 99\n".to_vec());
}

#[test]
fn whole_image_in_row_order() {
    let pixels = vec![Rgb8 { r: 1, g: 2, b: 3 }, Rgb8 { r: 40, g: 50, b: 60 }];
    let bytes = encode_ppm(2, 1, &pixels).unwrap();
    assert_eq!(bytes, b"P3\n2 1\n255\n1 2 3\n40 50 60\n".to_vec());
}

#[test]
fn whole_image_needs_every_pixel() {
    let pixels = vec![Rgb8 { r: 1, g: 2, b: 3 }];
    assert_eq!(encode_ppm(2, 1, &pixels), None);
    assert_eq!(encode_ppm(0, 0, &Vec::new()), Some(b"P3\n0 0\n255\n".to_vec()));
}
