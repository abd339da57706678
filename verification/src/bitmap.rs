//! Bitmap container to hold raw pixels data.
use vstd::prelude::*;

verus! {

/// Errors can occur when creating bitmaps.
#[derive(Debug, Clone, PartialEq, Eq)]
pub enum BitmapError {
    /// The `Ultralight` library returned a null pointer.
    NullReference,
    /// The pixels passed to create the bitmap do not match the required size.
    PixelBufferSizeMismatch { got: usize, required: usize },
    /// Tried to swap red and blue channels on an unsupported format.
    UnsupportedOperationForPixelFormat,
    /// Could not write bitmap to PNG successfully.
    FailedPngWrite,
    /// Could not create bitmap because it is empty.
    EmptyBitmap,
}

/// The supported bitmap formats.
#[derive(Debug, Clone, Copy, PartialEq, Eq)]
pub enum BitmapFormat {
    /// Alpha channel only, 8-bits per pixel.
    A8Unorm,
    /// Blue Green Red Alpha channels, 32-bits per pixel.
    Bgra8UnormSrgb,
}

/// The value of `kBitmapFormat_A8_UNORM` in the C API.
pub const RAW_BITMAP_FORMAT_A8_UNORM: u32 = 0;
/// The value of `kBitmapFormat_BGRA8_UNORM_SRGB` in the C API.
pub const RAW_BITMAP_FORMAT_BGRA8_UNORM_SRGB: u32 = 1;

impl BitmapFormat {
    /// The number of bytes each pixel of this format takes.
    pub open spec fn spec_bytes_per_pixel(self) -> u32 {
        match self {
            BitmapFormat::A8Unorm => 1,
            BitmapFormat::Bgra8UnormSrgb => 4,
        }
    }

    /// The C API value of this format.
    pub open spec fn spec_raw(self) -> u32 {
        match self {
            BitmapFormat::A8Unorm => RAW_BITMAP_FORMAT_A8_UNORM,
            BitmapFormat::Bgra8UnormSrgb => RAW_BITMAP_FORMAT_BGRA8_UNORM_SRGB,
        }
    }

    /// Returns the number of bytes per pixel for the specific bitmap format.
    pub fn bytes_per_pixel(&self) -> (r: u32)
        ensures
            r == self.spec_bytes_per_pixel(),
    {
        match self {
            BitmapFormat::A8Unorm => 1,
            BitmapFormat::Bgra8UnormSrgb => 4,
        }
    }

    /// The C API value of this format.
    pub fn to_raw(&self) -> (r: u32)
        ensures
            r == self.spec_raw(),
    {
        match self {
            BitmapFormat::A8Unorm => RAW_BITMAP_FORMAT_A8_UNORM,
            BitmapFormat::Bgra8UnormSrgb => RAW_BITMAP_FORMAT_BGRA8_UNORM_SRGB,
        }
    }

    /// The format with the given C API value; `None` for an unknown value.
    pub fn from_raw(raw: u32) -> (r: Option<BitmapFormat>)
        ensures
            match r {
                Some(f) => f.spec_raw() == raw,
                None => forall|f: BitmapFormat| f.spec_raw() != raw,
            },
    {
        if raw == RAW_BITMAP_FORMAT_A8_UNORM {
            Some(BitmapFormat::A8Unorm)
        } else if raw == RAW_BITMAP_FORMAT_BGRA8_UNORM_SRGB {
            Some(BitmapFormat::Bgra8UnormSrgb)
        } else {
            None
        }
    }
}

/// Decoding the C API value of a format gives the format back.
pub proof fn lemma_bitmap_format_raw_roundtrip(f: BitmapFormat)
    ensures
        forall|g: BitmapFormat| g.spec_raw() == f.spec_raw() ==> g == f,
{
}

/// The number of bytes in one unpadded row: `width * bytes_per_pixel`.
pub open spec fn spec_row_bytes(width: u32, format: BitmapFormat) -> int {
    width * format.spec_bytes_per_pixel()
}

/// The number of bytes an unpadded pixel buffer holds: `height * width * bytes_per_pixel`.
pub open spec fn spec_pixels_size(width: u32, height: u32, format: BitmapFormat) -> int {
    height * spec_row_bytes(width, format)
}

/// Checks that a pixel buffer of `pixels_len` bytes holds exactly the pixels of a
/// `width` x `height` bitmap of the given format, with no row padding.
///
/// Returns the number of bytes per row on success.
pub fn check_pixel_buffer(width: u32, height: u32, format: BitmapFormat, pixels_len: usize) -> (r:
    Result<u32, BitmapError>)
    requires
        spec_row_bytes(width, format) <= u32::MAX,
        spec_pixels_size(width, height, format) <= u32::MAX,
    ensures
        match r {
            Ok(row_bytes) => row_bytes == spec_row_bytes(width, format) && pixels_len
                == spec_pixels_size(width, height, format),
            Err(e) => pixels_len != spec_pixels_size(width, height, format) && e
                == (BitmapError::PixelBufferSizeMismatch {
                got: pixels_len,
                required: spec_pixels_size(width, height, format) as usize,
            }),
        },
{
    let row_bytes = width * format.bytes_per_pixel();
    let bytes_size = (height * row_bytes) as usize;
    if pixels_len != bytes_size {
        return Err(BitmapError::PixelBufferSizeMismatch { got: pixels_len, required: bytes_size });
    }
    Ok(row_bytes)
}

/// A bitmap object that has an owned pixel buffer.
///
/// This is useful for using the raw pixels in any rust code without
/// binding to the underlying C library.
#[derive(Debug, Clone)]
pub struct OwnedBitmap {
    width: u32,
    height: u32,
    format: BitmapFormat,
    bpp: u32,
    row_bytes: u32,
    bytes_size: usize,
    pixels: Option<Vec<u8>>,
    is_empty: bool,
}

impl OwnedBitmap {
    pub closed spec fn spec_width(&self) -> u32 {
        self.width
    }

    pub closed spec fn spec_height(&self) -> u32 {
        self.height
    }

    pub closed spec fn spec_format(&self) -> BitmapFormat {
        self.format
    }

    pub closed spec fn spec_bpp(&self) -> u32 {
        self.bpp
    }

    pub closed spec fn spec_row_bytes(&self) -> u32 {
        self.row_bytes
    }

    pub closed spec fn spec_bytes_size(&self) -> usize {
        self.bytes_size
    }

    /// The pixel bytes, if the bitmap had a pixel buffer.
    pub closed spec fn spec_pixels(&self) -> Option<Seq<u8>> {
        match self.pixels {
            Some(p) => Some(p@),
            None => None,
        }
    }

    pub closed spec fn spec_is_empty(&self) -> bool {
        self.is_empty
    }

    /// Create an [`OwnedBitmap`] from the properties and the copied pixels of
    /// an `Ultralight` bitmap.
    pub fn from_bitmap_parts(
        width: u32,
        height: u32,
        format: BitmapFormat,
        bpp: u32,
        row_bytes: u32,
        bytes_size: usize,
        pixels: Option<Vec<u8>>,
        is_empty: bool,
    ) -> (r: OwnedBitmap)
        ensures
            r.spec_width() == width,
            r.spec_height() == height,
            r.spec_format() == format,
            r.spec_bpp() == bpp,
            r.spec_row_bytes() == row_bytes,
            r.spec_bytes_size() == bytes_size,
            r.spec_pixels() == (match pixels {
                Some(p) => Some(p@),
                None => None::<Seq<u8>>,
            }),
            r.spec_is_empty() == is_empty,
    {
        OwnedBitmap { width, height, format, bpp, row_bytes, bytes_size, pixels, is_empty }
    }

    /// Checks that this bitmap can be turned back into an `Ultralight` bitmap:
    /// it must have pixels, and they must fill an unpadded buffer exactly.
    ///
    /// Returns the pixels and the number of bytes per row.
    pub fn to_bitmap_layout(&self) -> (r: Result<(&[u8], u32), BitmapError>)
        requires
            spec_row_bytes(self.spec_width(), self.spec_format()) <= u32::MAX,
            spec_pixels_size(self.spec_width(), self.spec_height(), self.spec_format())
                <= u32::MAX,
        ensures
            match r {
                Ok((pixels, row_bytes)) => self.spec_pixels() == Some(pixels@) && row_bytes
                    == spec_row_bytes(self.spec_width(), self.spec_format()) && pixels@.len()
                    == spec_pixels_size(self.spec_width(), self.spec_height(), self.spec_format()),
                Err(e) => match self.spec_pixels() {
                    None => e == BitmapError::EmptyBitmap,
                    Some(p) => p.len() != spec_pixels_size(
                        self.spec_width(),
                        self.spec_height(),
                        self.spec_format(),
                    ) && e == (BitmapError::PixelBufferSizeMismatch {
                        got: p.len() as usize,
                        required: spec_pixels_size(
                            self.spec_width(),
                            self.spec_height(),
                            self.spec_format(),
                        ) as usize,
                    }),
                },
            },
    {
        match &self.pixels {
            Some(pixels) => {
                let row_bytes = check_pixel_buffer(
                    self.width,
                    self.height,
                    self.format,
                    pixels.len(),
                )?;
                Ok((pixels.as_slice(), row_bytes))
            },
            None => Err(BitmapError::EmptyBitmap),
        }
    }

    /// Get the width in pixels.
    pub fn width(&self) -> (r: u32)
        ensures
            r == self.spec_width(),
    {
        self.width
    }

    /// Get the height in pixels.
    pub fn height(&self) -> (r: u32)
        ensures
            r == self.spec_height(),
    {
        self.height
    }

    /// Get the pixel format.
    pub fn format(&self) -> (r: BitmapFormat)
        ensures
            r == self.spec_format(),
    {
        self.format
    }

    /// Get the number of bytes per pixel.
    pub fn bpp(&self) -> (r: u32)
        ensures
            r == self.spec_bpp(),
    {
        self.bpp
    }

    /// Get the number of bytes between each row of pixels.
    pub fn row_bytes(&self) -> (r: u32)
        ensures
            r == self.spec_row_bytes(),
    {
        self.row_bytes
    }

    /// Get the size in bytes of the pixel buffer.
    pub fn bytes_size(&self) -> (r: usize)
        ensures
            r == self.spec_bytes_size(),
    {
        self.bytes_size
    }

    /// Get the pixel buffer slice.
    pub fn pixels(&self) -> (r: Option<&[u8]>)
        ensures
            match r {
                Some(p) => self.spec_pixels() == Some(p@),
                None => self.spec_pixels() is None,
            },
    {
        match &self.pixels {
            Some(p) => Some(p.as_slice()),
            None => None,
        }
    }

    /// Get the mutable pixel buffer slice; what is written through it becomes
    /// the bitmap's pixels, and nothing else of the bitmap changes.
    pub fn pixels_mut(&mut self) -> (r: Option<&mut [u8]>)
        ensures
            match r {
                Some(p) => old(self).spec_pixels() == Some(p@) && final(self).spec_pixels()
                    == Some(final(p)@),
                None => old(self).spec_pixels() is None && final(self).spec_pixels() is None,
            },
            final(self).spec_width() == old(self).spec_width(),
            final(self).spec_height() == old(self).spec_height(),
            final(self).spec_format() == old(self).spec_format(),
            final(self).spec_bpp() == old(self).spec_bpp(),
            final(self).spec_row_bytes() == old(self).spec_row_bytes(),
            final(self).spec_bytes_size() == old(self).spec_bytes_size(),
            final(self).spec_is_empty() == old(self).spec_is_empty(),
    {
        match &mut self.pixels {
            Some(v) => Some(v.as_mut_slice()),
            None => None,
        }
    }

    /// Whether or not this bitmap is empty (no pixels allocated).
    pub fn is_empty(&self) -> (r: bool)
        ensures
            r == self.spec_is_empty(),
    {
        self.is_empty
    }
}

/// The C API value of each variant (`kBitmapFormat_*`): `A8Unorm` is 0, `Bgra8UnormSrgb` is 1.
/// An alpha pixel takes one byte and a BGRA pixel four.
pub proof fn lemma_bitmap_format_raw_values()
    ensures
        BitmapFormat::A8Unorm.spec_raw() == 0,
        BitmapFormat::Bgra8UnormSrgb.spec_raw() == 1,
        BitmapFormat::A8Unorm.spec_bytes_per_pixel() == 1,
        BitmapFormat::Bgra8UnormSrgb.spec_bytes_per_pixel() == 4,
{
}

} // verus!
