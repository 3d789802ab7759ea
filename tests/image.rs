use raytracer::image::{header, pixel_at, pixel_line, push_decimal};

#[test]
fn header_names_size_and_channel_range() {
    assert_eq!(header(3, 2), b"P3\n3 2\n255\n".to_vec());
}

#[test]
fn header_of_wide_image() {
    assert_eq!(header(960, 540), b"P3\n960 540\n255\n".to_vec());
}

#[test]
fn header_of_empty_image() {
    assert_eq!(header(0, 0), b"P3\n0 0\n255\n".to_vec());
}

#[test]
fn pixel_line_separates_channels() {
    assert_eq!(pixel_line(255, 0, 17), b"255 0 17\n".to_vec());
}

#[test]
fn pixel_line_of_white() {
    assert_eq!(pixel_line(255, 255, 255), b"255 255 255\n".to_vec());
}

#[test]
fn pixel_line_of_black() {
    assert_eq!(pixel_line(0, 0, 0), b"0 0 0\n".to_vec());
}

#[test]
fn decimal_appends_after_existing_bytes() {
    let mut out = b"x=".to_vec();
    push_decimal(&mut out, 10);
    assert_eq!(out, b"x=10".to_vec());
}

#[test]
fn decimal_of_zero_is_one_digit() {
    let mut out = Vec::new();
    push_decimal(&mut out, 0);
    assert_eq!(out, b"0".to_vec());
}

#[test]
fn decimal_of_largest_size() {
    let mut out = Vec::new();
    push_decimal(&mut out, usize::MAX);
    assert_eq!(out, usize::MAX.to_string().into_bytes());
}

#[test]
fn scan_starts_at_top_left() {
    assert_eq!(pixel_at(4, 3, 0), (0, 2));
}

#[test]
fn scan_moves_along_a_row() {
    assert_eq!(pixel_at(4, 3, 3), (3, 2));
    assert_eq!(pixel_at(4, 3, 5), (1, 1));
}

#[test]
fn scan_ends_at_bottom_right() {
    assert_eq!(pixel_at(4, 3, 11), (3, 0));
}

#[test]
fn scan_visits_each_pixel_once() {
    let (width, height) = (5usize, 4usize);
    let mut seen = vec![false; width * height];
    for k in 0..width * height {
        let (i, j) = pixel_at(width, height, k);
        assert!(!seen[j * width + i]);
        seen[j * width + i] = true;
    }
    assert!(seen.iter().all(|s| *s));
}

#[test]
fn scan_matches_rows_from_top() {
    let (width, height) = (3usize, 2usize);
    let mut expected = Vec::new();
    for j in (0..height).rev() {
        for i in 0..width {
            expected.push((i, j));
        }
    }
    let got: Vec<(usize, usize)> = (0..width * height).map(|k| pixel_at(width, height, k)).collect();
    assert_eq!(got, expected);
}
