use ul_next::bitmap::{check_pixel_buffer, BitmapError, BitmapFormat, OwnedBitmap};
use ul_next::rect::Rect;

#[test]
fn bytes_per_pixel_of_formats() {
    assert_eq!(BitmapFormat::A8Unorm.bytes_per_pixel(), 1);
    assert_eq!(BitmapFormat::Bgra8UnormSrgb.bytes_per_pixel(), 4);
}

#[test]
fn bitmap_format_raw_values_round_trip() {
    for f in [BitmapFormat::A8Unorm, BitmapFormat::Bgra8UnormSrgb] {
        assert_eq!(BitmapFormat::from_raw(f.to_raw()), Some(f));
    }
    assert_eq!(BitmapFormat::A8Unorm.to_raw(), 0);
    assert_eq!(BitmapFormat::Bgra8UnormSrgb.to_raw(), 1);
    assert_eq!(BitmapFormat::from_raw(2), None);
}

#[test]
fn pixel_buffer_of_exact_size_is_accepted() {
    assert_eq!(check_pixel_buffer(3, 2, BitmapFormat::Bgra8UnormSrgb, 24), Ok(12));
    assert_eq!(check_pixel_buffer(3, 2, BitmapFormat::A8Unorm, 6), Ok(3));
    assert_eq!(check_pixel_buffer(0, 0, BitmapFormat::A8Unorm, 0), Ok(0));
}

#[test]
fn pixel_buffer_of_wrong_size_is_refused() {
    assert_eq!(
        check_pixel_buffer(3, 2, BitmapFormat::Bgra8UnormSrgb, 23),
        Err(BitmapError::PixelBufferSizeMismatch { got: 23, required: 24 })
    );
    assert_eq!(
        check_pixel_buffer(4, 4, BitmapFormat::A8Unorm, 17),
        Err(BitmapError::PixelBufferSizeMismatch { got: 17, required: 16 })
    );
}

fn owned(pixels: Option<Vec<u8>>, is_empty: bool) -> OwnedBitmap {
    OwnedBitmap::from_bitmap_parts(2, 2, BitmapFormat::Bgra8UnormSrgb, 4, 8, 16, pixels, is_empty)
}

#[test]
fn owned_bitmap_keeps_its_parts() {
    let b = owned(Some((0..16).collect()), false);
    assert_eq!(b.width(), 2);
    assert_eq!(b.height(), 2);
    assert_eq!(b.format(), BitmapFormat::Bgra8UnormSrgb);
    assert_eq!(b.bpp(), 4);
    assert_eq!(b.row_bytes(), 8);
    assert_eq!(b.bytes_size(), 16);
    assert_eq!(b.pixels().unwrap().len(), 16);
    assert!(!b.is_empty());
}

#[test]
fn owned_bitmap_without_pixels_cannot_become_a_bitmap() {
    let b = owned(None, true);
    assert_eq!(b.pixels(), None);
    assert_eq!(b.to_bitmap_layout(), Err(BitmapError::EmptyBitmap));
}

#[test]
fn owned_bitmap_layout_gives_back_its_pixels() {
    let px: Vec<u8> = (0..16).collect();
    let b = owned(Some(px.clone()), false);
    let (pixels, row_bytes) = b.to_bitmap_layout().unwrap();
    assert_eq!(pixels, px.as_slice());
    assert_eq!(row_bytes, 8);
}

#[test]
fn owned_bitmap_layout_refuses_padded_pixels() {
    let b = owned(Some(vec![0; 20]), false);
    assert_eq!(
        b.to_bitmap_layout(),
        Err(BitmapError::PixelBufferSizeMismatch { got: 20, required: 16 })
    );
}

#[test]
fn owned_bitmap_pixels_can_be_written() {
    let mut b = owned(Some(vec![0; 16]), false);
    b.pixels_mut().unwrap()[3] = 9;
    assert_eq!(b.pixels().unwrap()[3], 9);
    let mut e = owned(None, true);
    assert!(e.pixels_mut().is_none());
}

#[test]
fn rect_is_empty_only_when_all_edges_are_zero() {
    assert!(Rect { left: 0, top: 0, right: 0, bottom: 0 }.is_empty());
    assert!(!Rect { left: 0, top: 0, right: 1, bottom: 0 }.is_empty());
    assert!(!Rect { left: -1, top: 0, right: 0, bottom: 0 }.is_empty());
}
