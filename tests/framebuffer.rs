use raytracing::framebuffer::frame_copy;
use raytracing::ppm::Rgb8;

#[test]
fn frame_gets_opaque_rgba() {
    let pixels = vec![Rgb8 { r: 1, g: 2, b: 3 }, Rgb8 { r: 4, g: 5, b: 6 }, Rgb8 { r: 7, g: 8, b: 9 }];
    let mut frame = vec![0u8; 10];
    frame_copy(&pixels, &mut frame);
    assert_eq!(frame, vec![1, 2, 3, 255, 4, 5, 6, 255, 0, 0]);
}

#[test]
fn empty_frame_stays_empty() {
    let mut frame: Vec<u8> = Vec::new();
    frame_copy(&Vec::new(), &mut frame);
    assert!(frame.is_empty());
}
