use rustshot::capture::{capture_buffer_len, capture_from_bitmap, crop_region, ScreenCapture};

fn capture_2x2() -> ScreenCapture {
    ScreenCapture {
        pixels: (0u8..16).collect(),
        width: 2,
        height: 2,
        offset_x: -100,
        offset_y: 50,
    }
}

#[test]
fn crop_inside_copies_pixels() {
    let c = capture_2x2();
    assert_eq!(crop_region(&c, 0, 0, 2, 2), (0u8..16).collect::<Vec<u8>>());
    assert_eq!(crop_region(&c, 1, 1, 1, 1), vec![12, 13, 14, 15]);
    assert_eq!(crop_region(&c, 1, 0, 1, 2), vec![4, 5, 6, 7, 12, 13, 14, 15]);
}

#[test]
fn crop_outside_columns_are_opaque_black() {
    let c = capture_2x2();
    assert_eq!(crop_region(&c, 1, 0, 2, 1), vec![4, 5, 6, 7, 0, 0, 0, 255]);
    assert_eq!(crop_region(&c, -1, 1, 2, 1), vec![0, 0, 0, 255, 8, 9, 10, 11]);
}

#[test]
fn crop_outside_rows_are_zero() {
    let c = capture_2x2();
    assert_eq!(crop_region(&c, 0, -1, 2, 2), vec![0, 0, 0, 0, 0, 0, 0, 0, 0, 1, 2, 3, 4, 5, 6, 7]);
    assert_eq!(crop_region(&c, 5, 3, 1, 1), vec![0, 0, 0, 0]);
}

#[test]
fn crop_of_nothing_is_empty() {
    let c = capture_2x2();
    assert!(crop_region(&c, 0, 0, 0, 2).is_empty());
    assert!(crop_region(&c, 0, 0, 2, 0).is_empty());
    assert!(crop_region(&c, 0, 0, -1, -1).is_empty());
}

#[test]
fn buffer_len_needs_area() {
    assert_eq!(capture_buffer_len(3, 2), Some(24));
    assert_eq!(capture_buffer_len(0, 2), None);
    assert_eq!(capture_buffer_len(3, -1), None);
}

#[test]
fn capture_assembly() {
    let c = capture_from_bitmap(vec![1, 2, 3, 4], 1, 1, -5, 7, 1).unwrap();
    assert_eq!((c.width, c.height, c.offset_x, c.offset_y), (1, 1, -5, 7));
    assert_eq!(c.pixels, vec![1, 2, 3, 4]);
    assert!(capture_from_bitmap(vec![1, 2, 3, 4], 1, 1, 0, 0, 0).is_none());
    assert!(capture_from_bitmap(vec![], 0, 1, 0, 0, 1).is_none());
}

#[test]
fn crop_of_a_capture_without_area() {
    let c = ScreenCapture { pixels: vec![], width: -3, height: 2, offset_x: 0, offset_y: 0 };
    assert_eq!(crop_region(&c, 0, 0, 1, 2), vec![0, 0, 0, 255, 0, 0, 0, 255]);
    let c = ScreenCapture { pixels: vec![9; 8], width: 2, height: -1, offset_x: 0, offset_y: 0 };
    assert_eq!(crop_region(&c, 0, 0, 1, 1), vec![0, 0, 0, 0]);
}

#[test]
fn crop_ignores_extra_buffer_bytes() {
    let c = ScreenCapture { pixels: (0u8..20).collect(), width: 2, height: 2, offset_x: 0, offset_y: 0 };
    assert_eq!(crop_region(&c, 0, 0, 2, 2), (0u8..16).collect::<Vec<u8>>());
    assert_eq!(crop_region(&c, 1, 1, 2, 1), vec![12, 13, 14, 15, 0, 0, 0, 255]);
}
