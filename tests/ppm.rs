use pathtracer::ppm::{pixel_line, ppm_header};

#[test]
fn header_of_final_preset() {
    assert_eq!(ppm_header(800, 533), b"P3\n800 533\n255\n".to_vec());
}

#[test]
fn header_of_small_image() {
    assert_eq!(ppm_header(20, 11), b"P3\n20 11\n255\n".to_vec());
    assert_eq!(ppm_header(0, 7), b"P3\n0 7\n255\n".to_vec());
}

#[test]
fn header_of_largest_width() {
    let expected = format!("P3\n{} 1\n255\n", usize::MAX);
    assert_eq!(ppm_header(usize::MAX, 1), expected.into_bytes());
}

#[test]
fn line_of_white_and_black() {
    assert_eq!(pixel_line(255, 255, 255), b"255 255 255\n".to_vec());
    assert_eq!(pixel_line(0, 0, 0), b"0 0 0\n".to_vec());
}

#[test]
fn line_of_mixed_channels() {
    assert_eq!(pixel_line(9, 10, 100), b"9 10 100\n".to_vec());
    assert_eq!(pixel_line(127, 64, 3), b"127 64 3\n".to_vec());
}

#[test]
fn lines_match_decimal_formatting() {
    for v in 0..=255u8 {
        let expected = format!("{} {} {}\n", v, 255 - v, v / 2);
        assert_eq!(pixel_line(v, 255 - v, v / 2), expected.into_bytes());
    }
}
