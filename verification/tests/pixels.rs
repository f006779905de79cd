use drag::pixels::{create_dragimage_bitmap, unpremultiply_to_bgra};

#[test]
fn pixels_are_unpremultiplied_and_reordered() {
    let image = [100u8, 50, 25, 128, 10, 20, 30, 0, 7, 8, 9, 255];
    let out = unpremultiply_to_bgra(&image, 3, 1, 12).unwrap();
    assert_eq!(out, vec![49, 99, 199, 128, 0, 0, 0, 0, 9, 8, 7, 255]);
}

#[test]
fn channel_above_alpha_keeps_the_low_byte() {
    let image = [200u8, 100, 2, 100];
    let out = unpremultiply_to_bgra(&image, 1, 1, 4).unwrap();
    assert_eq!(out, vec![5, 255, 254, 100]);
}

#[test]
fn rows_are_read_at_the_source_stride() {
    let image = [1u8, 2, 3, 255, 4, 5, 6, 255, 7, 8, 9, 255];
    let out = unpremultiply_to_bgra(&image, 2, 2, 4).unwrap();
    assert_eq!(out, vec![3, 2, 1, 255, 6, 5, 4, 255, 6, 5, 4, 255, 9, 8, 7, 255]);
    let same_row = unpremultiply_to_bgra(&image, 1, 3, 0).unwrap();
    assert_eq!(same_row, vec![3, 2, 1, 255, 3, 2, 1, 255, 3, 2, 1, 255]);
}

#[test]
fn short_sources_are_refused() {
    let image = [0u8; 11];
    assert_eq!(unpremultiply_to_bgra(&image, 3, 1, 12), None);
    assert_eq!(unpremultiply_to_bgra(&image, 1, 3, 4), None);
    assert_eq!(unpremultiply_to_bgra(&image, 1, 2, 4).map(|v| v.len()), Some(8));
    assert_eq!(unpremultiply_to_bgra(&image, 1, 2, 8), None);
    assert_eq!(unpremultiply_to_bgra(&image, usize::MAX, 1, 1), None);
    assert_eq!(unpremultiply_to_bgra(&image, 1, usize::MAX, usize::MAX), None);
    assert_eq!(unpremultiply_to_bgra(&image, 0, 5, 4), Some(Vec::new()));
    assert_eq!(unpremultiply_to_bgra(&image, 5, 0, 4), Some(Vec::new()));
    assert_eq!(unpremultiply_to_bgra(&[], 0, 0, 0), Some(Vec::new()));
}

#[test]
fn drag_bitmap_is_512_by_512() {
    assert_eq!(create_dragimage_bitmap(&vec![0u8; 132863]), None);
    let mut image = vec![0u8; 132864];
    image[0] = 10;
    image[1] = 20;
    image[2] = 30;
    image[3] = 255;
    image[256] = 1;
    image[257] = 2;
    image[258] = 3;
    image[259] = 255;
    let out = create_dragimage_bitmap(&image).unwrap();
    assert_eq!(out.len(), 512 * 512 * 4);
    assert_eq!(&out[0..4], &[30, 20, 10, 255]);
    assert_eq!(&out[2048..2052], &[3, 2, 1, 255]);
    assert_eq!(&out[256..260], &[3, 2, 1, 255]);
    assert_eq!(&out[4..8], &[0, 0, 0, 0]);
}
