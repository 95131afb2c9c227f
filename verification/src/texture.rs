//! The texture of the shape: decoding the image, and how its pixels are
//! laid out for the copy into the texture.

use vstd::prelude::*;

verus! {

/// The error of the `image` crate.
#[verifier::external_type_specification]
#[verifier::external_body]
pub struct ExImageError(image::ImageError);

/// An image as rows of pixels, four bytes a pixel: red, green, blue, alpha.
#[derive(Debug, PartialEq, Eq)]
pub struct DecodedImage {
    /// Pixels in a row.
    pub width: u32,
    /// Rows.
    pub height: u32,
    /// The pixels, row after row.
    pub rgba: Vec<u8>,
}

/// Why no texture could be made of an image file.
#[derive(Clone, Copy, Debug, PartialEq, Eq, Structural)]
pub enum TextureError {
    /// The bytes are no image that can be decoded.
    Undecodable,
    /// A row of the image has more bytes than a row of a texture copy can
    /// count.
    TooWide,
}

/// `wgpu::Extent3d`, the size of a texture, with its fields as the crate
/// defines them.
#[verifier::external_type_specification]
pub struct ExExtent3d(wgpu::Extent3d);

/// How the bytes handed to a texture copy are laid out. A count of zero is
/// written as `None`.
#[derive(Clone, Copy, Debug, PartialEq, Eq)]
pub struct DataLayout {
    /// Where the first row starts.
    pub offset: u64,
    /// The bytes from one row to the next.
    pub bytes_per_row: Option<u32>,
    /// The rows from one image to the next.
    pub rows_per_image: Option<u32>,
}

/// Everything a copy into the texture needs.
#[derive(Debug, PartialEq, Eq)]
pub struct TextureUpload {
    /// The size of the texture.
    pub size: wgpu::Extent3d,
    /// The layout of `data`.
    pub layout: DataLayout,
    /// The pixels.
    pub data: Vec<u8>,
}

/// `n` as a count that is `None` when zero.
pub open spec fn nonzero(n: int) -> Option<u32> {
    if n == 0 {
        None
    } else {
        Some(n as u32)
    }
}

/// The size of the two-dimensional texture for an image.
pub open spec fn upload_size(width: u32, height: u32) -> wgpu::Extent3d {
    wgpu::Extent3d { width, height, depth_or_array_layers: 1 }
}

/// The layout of an image's pixels: rows of four bytes a pixel, one after
/// the other from the first byte on.
pub open spec fn upload_layout(width: u32, height: u32) -> DataLayout {
    DataLayout {
        offset: 0,
        bytes_per_row: nonzero(4 * width),
        rows_per_image: nonzero(height as int),
    }
}

/// What `image::load_from_memory` makes of `bytes`, as width, height and
/// eight-bit RGBA pixels; `None` where it fails.
pub uninterp spec fn decoded(bytes: Seq<u8>) -> Option<(u32, u32, Seq<u8>)>;

/// `image::load_from_memory`, with the image taken apart by
/// `GenericImageView::dimensions` and `DynamicImage::to_rgba8`. The format
/// is guessed from the first bytes and the whole image is decoded from
/// `bytes` alone. The pixel buffer that `to_rgba8` allocates has four
/// bytes for each pixel of the image.
#[verifier::external_body]
fn decode_rgba8(bytes: &[u8]) -> (r: Result<DecodedImage, image::ImageError>)
    ensures
        match r {
            Ok(img) => decoded(bytes@) == Some((img.width, img.height, img.rgba@))
                && img.rgba@.len() == 4 * img.width * img.height,
            Err(_) => decoded(bytes@) is None,
        },
{
    let image = image::load_from_memory(bytes)?;
    let (width, height) = image::GenericImageView::dimensions(&image);
    Ok(DecodedImage { width, height, rgba: image.to_rgba8().into_raw() })
}

/// The copy that puts `image` into a texture of its own size. It fails
/// where the bytes of a row cannot be counted in 32 bits.
pub fn texture_upload(image: DecodedImage) -> (r: Result<TextureUpload, TextureError>)
    ensures
        match r {
            Ok(upload) => {
                &&& 4 * image.width <= u32::MAX
                &&& upload.size == upload_size(image.width, image.height)
                &&& upload.layout == upload_layout(image.width, image.height)
                &&& upload.data@ == image.rgba@
            },
            Err(error) => error == TextureError::TooWide && 4 * image.width > u32::MAX,
        },
{
    if image.width > u32::MAX / 4 {
        return Err(TextureError::TooWide);
    }
    let bytes_per_row: u32 = 4 * image.width;
    Ok(
        TextureUpload {
            size: wgpu::Extent3d { width: image.width, height: image.height, depth_or_array_layers: 1 },
            layout: DataLayout {
                offset: 0,
                bytes_per_row: if bytes_per_row == 0 {
                    None
                } else {
                    Some(bytes_per_row)
                },
                rows_per_image: if image.height == 0 {
                    None
                } else {
                    Some(image.height)
                },
            },
            data: image.rgba,
        },
    )
}

/// Decodes an image file and lays its pixels out for the copy into a
/// texture. The pixels handed on fill the texture exactly.
pub fn load_texture(bytes: &[u8]) -> (r: Result<TextureUpload, TextureError>)
    ensures
        match decoded(bytes@) {
            None => r == Err::<TextureUpload, TextureError>(TextureError::Undecodable),
            Some((width, height, rgba)) => if 4 * width > u32::MAX {
                r == Err::<TextureUpload, TextureError>(TextureError::TooWide)
            } else {
                &&& r matches Ok(upload)
                &&& upload.size == upload_size(width, height)
                &&& upload.layout == upload_layout(width, height)
                &&& upload.data@ == rgba
                &&& upload.data@.len() == 4 * width * height
            },
        },
{
    match decode_rgba8(bytes) {
        Err(_) => Err(TextureError::Undecodable),
        Ok(image) => texture_upload(image),
    }
}

} // verus!
