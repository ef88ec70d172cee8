use pixelflut::canvas::PixelflutImage;
use pixelflut::pixel::RGBAPixel;

#[test]
fn new_canvas_is_transparent_black() {
    let img = PixelflutImage::new_with(4, 3);
    for y in 0..3 {
        for x in 0..4 {
            assert_eq!(img.get_pixel(x, y), RGBAPixel { r: 0, g: 0, b: 0, a: 0 });
        }
    }
}

#[test]
fn set_then_get_round_trip() {
    let mut img = PixelflutImage::new_with(16, 16);
    let p = RGBAPixel { r: 10, g: 20, b: 30, a: 40 };
    img.set_pixel(3, 4, p);
    assert_eq!(img.get_pixel(3, 4), p);
    // neighbours keep their value
    assert_eq!(img.get_pixel(4, 3), RGBAPixel { r: 0, g: 0, b: 0, a: 0 });
    assert_eq!(img.get_pixel(2, 4), RGBAPixel { r: 0, g: 0, b: 0, a: 0 });
}

#[test]
fn bounds_check_agrees_with_geometry() {
    let img = PixelflutImage::new_with(16, 8);
    assert!(img.bounds_check(0, 0));
    assert!(img.bounds_check(15, 7));
    assert!(!img.bounds_check(16, 0));
    assert!(!img.bounds_check(0, 8));
    assert!(!img.bounds_check(16, 8));
    assert!(!img.bounds_check(u32::MAX, 0));
}

#[test]
fn merge_copies_dirty_pixels_and_drains_source() {
    let mut dst = PixelflutImage::new_with(8, 8);
    let mut src = PixelflutImage::new_with(8, 8);
    let p1 = RGBAPixel { r: 1, g: 2, b: 3, a: 4 };
    let p2 = RGBAPixel { r: 5, g: 6, b: 7, a: 8 };
    let keep = RGBAPixel { r: 9, g: 9, b: 9, a: 9 };
    dst.set_pixel(0, 0, keep);
    src.set_pixel(1, 1, p1);
    src.set_pixel(7, 7, p2);
    dst.combine_with(&mut src);
    // every pixel dirty in the source now equals the source's value
    assert_eq!(dst.get_pixel(1, 1), p1);
    assert_eq!(dst.get_pixel(7, 7), p2);
    // a cell clean in the source keeps the destination's value
    assert_eq!(dst.get_pixel(0, 0), keep);
    // the source is drained: a second merge copies nothing
    let mut other = PixelflutImage::new_with(8, 8);
    other.set_pixel(1, 1, keep);
    other.combine_with(&mut src);
    assert_eq!(other.get_pixel(1, 1), keep);
}

#[test]
fn merge_keeps_destination_dirty_markers() {
    let mut dst = PixelflutImage::new_with(8, 8);
    let mut src = PixelflutImage::new_with(8, 8);
    let own = RGBAPixel { r: 3, g: 3, b: 3, a: 3 };
    dst.set_pixel(2, 2, own);
    src.set_pixel(5, 5, RGBAPixel { r: 4, g: 4, b: 4, a: 4 });
    dst.combine_with(&mut src);
    // the destination's own dirty marker survived the merge, while the
    // merged-in pixel did not become dirty: merging the destination
    // onward carries its own write only
    let mut third = PixelflutImage::new_with(8, 8);
    third.combine_with(&mut dst);
    assert_eq!(third.get_pixel(2, 2), own);
    assert_eq!(third.get_pixel(5, 5), RGBAPixel { r: 0, g: 0, b: 0, a: 0 });
}

#[test]
fn scanout_serializes_rgba_row_major() {
    let mut img = PixelflutImage::new_with(2, 2);
    img.set_pixel(0, 0, RGBAPixel { r: 1, g: 2, b: 3, a: 4 });
    img.set_pixel(1, 1, RGBAPixel { r: 5, g: 6, b: 7, a: 8 });
    assert_eq!(img.scanout_size(), 16);
    let mut buf: Vec<u8> = Vec::new();
    img.scanout(&mut buf);
    assert_eq!(
        buf,
        vec![1, 2, 3, 4, 0, 0, 0, 0, 0, 0, 0, 0, 5, 6, 7, 8]
    );
}
