//! The preview image of a drag: what is known of it before it is decoded,
//! and the pixel layouts the native drag-image APIs expect.

use vstd::prelude::*;
use crate::Image;
use crate::error::Error;
use crate::window::Platform;

verus! {

/// What a backend knows of a preview image before decoding it.
#[derive(Debug, Clone, Copy, PartialEq, Eq, Structural)]
pub enum ImageProbe {
    /// Encoded bytes held in memory.
    Raw,
    /// A path to a file that exists.
    ExistingFile,
    /// A path to a file that does not exist.
    MissingFile,
}

impl ImageProbe {
    /// The probe of `image`, where `file_exists` says whether the file of an
    /// `Image::File` exists. It is not read for raw bytes.
    pub open spec fn of_spec(image: Image, file_exists: bool) -> ImageProbe {
        match image {
            Image::Raw(_) => ImageProbe::Raw,
            Image::File(_) => if file_exists {
                ImageProbe::ExistingFile
            } else {
                ImageProbe::MissingFile
            },
        }
    }

    /// The probe of `image`, where `file_exists` says whether the file of an
    /// `Image::File` exists. It is not read for raw bytes.
    pub fn of(image: &Image, file_exists: bool) -> (r: ImageProbe)
        ensures
            r == ImageProbe::of_spec(*image, file_exists),
    {
        match image {
            Image::Raw(_) => ImageProbe::Raw,
            Image::File(_) => if file_exists {
                ImageProbe::ExistingFile
            } else {
                ImageProbe::MissingFile
            },
        }
    }
}

/// What a drag shows under the cursor.
#[derive(Debug, Clone, Copy, PartialEq, Eq, Structural)]
pub enum Preview {
    /// The decoded preview image.
    Custom,
    /// Nothing of the caller's: the image could not be read or decoded.
    Missing,
}

/// Decides on the preview of a drag once the native decoder has run:
/// `decoded` says whether it produced a bitmap.
///
/// An image that cannot be read or decoded is no error; the drag goes on
/// without a custom image. The one exception is a file that does not exist
/// on AppKit, which checks before it creates anything.
pub fn resolve_preview(platform: Platform, probe: ImageProbe, decoded: bool) -> (r: Result<
    Preview,
    Error,
>)
    ensures
        r == (if platform == Platform::AppKit && probe == ImageProbe::MissingFile {
            Err::<Preview, Error>(Error::ImageNotFound)
        } else if decoded {
            Ok::<Preview, Error>(Preview::Custom)
        } else {
            Ok::<Preview, Error>(Preview::Missing)
        }),
{
    if platform.checks_image_eagerly() && probe == ImageProbe::MissingFile {
        Err(Error::ImageNotFound)
    } else if decoded {
        Ok(Preview::Custom)
    } else {
        Ok(Preview::Missing)
    }
}

/// The memory layout of a decoded frame in the 32-bit format the drag-image
/// API takes, and whether the frame must be converted to it first.
#[derive(Debug, Clone, Copy, PartialEq, Eq, Structural)]
pub struct BitmapPlan {
    pub width: u32,
    pub height: u32,
    /// Bytes per row.
    pub stride: u32,
    /// Bytes of the whole pixel buffer.
    pub buffer_len: u32,
    /// Whether the frame is in another pixel format and must be converted.
    pub convert: bool,
}

/// Whether the row size and the buffer size of a frame fit in 32 bits.
pub open spec fn fits_bitmap(width: u32, height: u32) -> bool {
    width * 4 <= u32::MAX && width * height * 4 <= u32::MAX
}

/// Plans the pixel buffer for a decoded frame of `width` by `height`
/// pixels, four bytes each. `is_target_format` says whether the frame is
/// already in premultiplied BGRA. `None` if the row size or the buffer size
/// does not fit in 32 bits.
pub fn decoder_to_hbitmap(width: u32, height: u32, is_target_format: bool) -> (r: Option<
    BitmapPlan,
>)
    ensures
        !fits_bitmap(width, height) ==> r is None,
        fits_bitmap(width, height) ==> r == Some(
            BitmapPlan {
                width,
                height,
                stride: (width * 4) as u32,
                buffer_len: (width * height * 4) as u32,
                convert: !is_target_format,
            },
        ),
{
    if width > 0x3FFF_FFFF {
        return None;
    }
    let stride: u32 = width * 4;
    assert(stride * height <= 0xFFFF_FFFF * 0xFFFF_FFFF) by (nonlinear_arith)
        requires
            0 <= stride <= 0xFFFF_FFFF,
            0 <= height <= 0xFFFF_FFFF,
    ;
    assert(width * height * 4 == stride * height) by (nonlinear_arith)
        requires
            stride == width * 4,
    ;
    let total: u64 = (stride as u64) * (height as u64);
    if total > 0xFFFF_FFFF {
        return None;
    }
    Some(BitmapPlan { width, height, stride, buffer_len: total as u32, convert: !is_target_format })
}

/// The size of a drag image when the bitmap cannot say its own.
pub const DEFAULT_DRAG_IMAGE_SIZE: i32 = 128;

/// The description of a drag image handed to the shell.
#[derive(Debug, Clone, Copy, PartialEq, Eq, Structural)]
pub struct DragImage {
    pub width: i32,
    pub height: i32,
    pub offset_x: i32,
    pub offset_y: i32,
    pub color_key: u32,
}

/// The size a bitmap reports.
#[derive(Debug, Clone, Copy, PartialEq, Eq, Structural)]
pub struct BitmapSize {
    pub width: i32,
    pub height: i32,
}

/// The drag image for a bitmap of the given size, 128 by 128 if the size
/// is unknown. It is anchored at its origin and has no transparent colour.
pub open spec fn drag_image_of(size: Option<BitmapSize>) -> DragImage {
    DragImage {
        width: match size {
            Some(s) => s.width,
            None => 128,
        },
        height: match size {
            Some(s) => s.height,
            None => 128,
        },
        offset_x: 0,
        offset_y: 0,
        color_key: 0,
    }
}

/// Describes the drag image for a decoded bitmap.
///
/// `bitmap` is `None` if the preview could not be decoded: the drag then
/// has no custom image, which is no error. Otherwise it holds the size the
/// bitmap reported, or `None` if the size query failed.
pub fn get_drag_image(bitmap: Option<Option<BitmapSize>>) -> (r: Option<DragImage>)
    ensures
        r == (match bitmap {
            None => None,
            Some(size) => Some(drag_image_of(size)),
        }),
{
    match bitmap {
        None => None,
        Some(size) => {
            let (width, height) = match size {
                Some(s) => (s.width, s.height),
                None => (DEFAULT_DRAG_IMAGE_SIZE, DEFAULT_DRAG_IMAGE_SIZE),
            };
            Some(DragImage { width, height, offset_x: 0, offset_y: 0, color_key: 0 })
        },
    }
}

} // verus!
