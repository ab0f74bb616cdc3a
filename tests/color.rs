use raytracer::{pixel_line, ppm_header};

#[test]
fn ppm_header_small_image() {
    assert_eq!(ppm_header(2, 2), b"P3\n2 2\n255\n".to_vec());
}

#[test]
fn ppm_header_multi_digit_size() {
    assert_eq!(ppm_header(400, 225), b"P3\n400 225\n255\n".to_vec());
    assert_eq!(ppm_header(0, 10), b"P3\n0 10\n255\n".to_vec());
}

#[test]
fn pixel_line_channels() {
    assert_eq!(pixel_line(255, 0, 17), b"255 0 17\n".to_vec());
    assert_eq!(pixel_line(0, 0, 0), b"0 0 0\n".to_vec());
    assert_eq!(pixel_line(9, 10, 100), b"9 10 100\n".to_vec());
}

#[test]
fn ppm_text_is_reproducible() {
    let a: Vec<u8> = [ppm_header(2, 1), pixel_line(1, 2, 3), pixel_line(4, 5, 6)].concat();
    let b: Vec<u8> = [ppm_header(2, 1), pixel_line(1, 2, 3), pixel_line(4, 5, 6)].concat();
    assert_eq!(a, b);
    assert_eq!(a, b"P3\n2 1\n255\n1 2 3\n4 5 6\n".to_vec());
}
