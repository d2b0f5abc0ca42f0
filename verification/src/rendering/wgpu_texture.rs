//! Textures: from the bytes of an image file to what the graphics device is
//! asked to create and to copy.

use image::DynamicImage;
use image::ImageError;
use vstd::prelude::*;
use super::wgpu_pipeline::TextureFormat;

verus! {

/// How the pixels of a decoded image are stored.
#[derive(Debug, Copy, Clone, PartialEq, Eq, Hash, Structural)]
pub enum ImageKind {
    ImageLuma8,
    ImageLumaA8,
    ImageRgb8,
    ImageRgba8,
    ImageLuma16,
    ImageLumaA16,
    ImageRgb16,
    ImageRgba16,
    /// Any other storage, such as floating point samples.
    Other,
}

/// A decoded image: its kind, its dimensions in pixels and, for an image of
/// 8 bit RGBA pixels, the bytes of its pixels row by row.
#[derive(Debug)]
pub struct DecodedImage {
    pub kind: ImageKind,
    pub width: u32,
    pub height: u32,
    pub rgba8: Option<Vec<u8>>,
}

/// A decoded image as a value.
pub ghost struct DecodedImageView {
    pub kind: ImageKind,
    pub width: u32,
    pub height: u32,
    pub rgba8: Option<Seq<u8>>,
}

impl DecodedImage {
    pub open spec fn view(&self) -> DecodedImageView {
        DecodedImageView {
            kind: self.kind,
            width: self.width,
            height: self.height,
            rgba8: match self.rgba8 {
                Some(pixels) => Some(pixels@),
                None => None,
            },
        }
    }
}

/// The error type of the image decoder.
#[verifier::external_type_specification]
#[verifier::external_body]
pub struct ExImageError(ImageError);

/// Calls `image::load_from_memory`, which guesses the format of the file
/// and decodes it, and tells what came back: the variant of the
/// `DynamicImage`, its width and height, and a copy of the raw buffer that
/// `as_rgba8` gives. That buffer is there for the variant of 8 bit RGBA
/// pixels and for no other: this is all that is claimed of the result.
/// What the decoder makes of given bytes also depends on the formats that
/// it was built with and on the hooks that the process has registered with
/// it, so nothing is said of it.
#[verifier::external_body]
fn decode_image(bytes: &[u8]) -> (decoded: Result<DecodedImage, ImageError>)
    ensures
        decoded matches Ok(img) ==> (img.rgba8 is Some <==> img.kind == ImageKind::ImageRgba8),
{
    let img = image::load_from_memory(bytes)?;
    let kind = match &img {
        DynamicImage::ImageLuma8(_) => ImageKind::ImageLuma8,
        DynamicImage::ImageLumaA8(_) => ImageKind::ImageLumaA8,
        DynamicImage::ImageRgb8(_) => ImageKind::ImageRgb8,
        DynamicImage::ImageRgba8(_) => ImageKind::ImageRgba8,
        DynamicImage::ImageLuma16(_) => ImageKind::ImageLuma16,
        DynamicImage::ImageLumaA16(_) => ImageKind::ImageLumaA16,
        DynamicImage::ImageRgb16(_) => ImageKind::ImageRgb16,
        DynamicImage::ImageRgba16(_) => ImageKind::ImageRgba16,
        _ => ImageKind::Other,
    };
    let rgba8 = img.as_rgba8().map(|pixels| pixels.as_raw().clone());
    Ok(DecodedImage { kind, width: img.width(), height: img.height(), rgba8 })
}

/// The name of a kind of image.
pub fn image_type_descriptor_str(kind: ImageKind) -> (name: &'static str)
    ensures
        name@ == (match kind {
            ImageKind::ImageLuma8 => "ImageLuma8"@,
            ImageKind::ImageLumaA8 => "ImageLumaA8"@,
            ImageKind::ImageRgb8 => "ImageRgb8"@,
            ImageKind::ImageRgba8 => "ImageRgba8"@,
            ImageKind::ImageLuma16 => "ImageLuma16"@,
            ImageKind::ImageLumaA16 => "ImageLumaA16"@,
            ImageKind::ImageRgb16 => "ImageRgb16"@,
            ImageKind::ImageRgba16 => "ImageRgba16"@,
            ImageKind::Other => "Other"@,
        }),
{
    match kind {
        ImageKind::ImageLuma8 => "ImageLuma8",
        ImageKind::ImageLumaA8 => "ImageLumaA8",
        ImageKind::ImageRgb8 => "ImageRgb8",
        ImageKind::ImageRgba8 => "ImageRgba8",
        ImageKind::ImageLuma16 => "ImageLuma16",
        ImageKind::ImageLumaA16 => "ImageLumaA16",
        ImageKind::ImageRgb16 => "ImageRgb16",
        ImageKind::ImageRgba16 => "ImageRgba16",
        ImageKind::Other => "Other",
    }
}

/// The extent of a texture.
#[derive(Debug, Copy, Clone, PartialEq, Eq, Hash, Structural)]
pub struct Extent3d {
    pub width: u32,
    pub height: u32,
    pub depth_or_array_layers: u32,
}

/// Why no texture comes of some bytes.
#[derive(Debug, Copy, Clone, PartialEq, Eq, Hash, Structural)]
pub enum TextureError {
    /// The bytes are no image that the decoder reads.
    Decode,
    /// The image is not one of 8 bit RGBA pixels: only those are loaded.
    NotRgba8 { kind: ImageKind },
    /// A row of the image takes more bytes than a copy can be told.
    RowTooLong,
}

/// What the graphics device is asked for to bring an image into a texture:
/// an empty two-dimensional texture, a buffer filled with the pixels, and a
/// copy from the buffer to the texture.
#[derive(Debug)]
pub struct TextureUpload {
    pub label: Option<&'static str>,
    /// The extent of the texture and of the copy.
    pub size: Extent3d,
    pub mip_level_count: u32,
    pub sample_count: u32,
    pub format: TextureFormat,
    /// The content of the buffer that the pixels are copied from.
    pub data: Vec<u8>,
    /// The bytes that a row of pixels takes in the buffer, if any.
    pub bytes_per_row: Option<u32>,
    /// The rows of the image, if any.
    pub rows_per_image: Option<u32>,
}

/// `Some(n)` for a number other than zero.
pub open spec fn non_zero(n: u32) -> Option<u32> {
    if n == 0 {
        None
    } else {
        Some(n)
    }
}

/// The upload that an image asks for, or why it cannot be loaded.
pub open spec fn upload_of(
    img: DecodedImageView,
    label: Option<&'static str>,
    upload: Result<TextureUpload, TextureError>,
) -> bool {
    match img.rgba8 {
        None => upload == Err::<TextureUpload, TextureError>(TextureError::NotRgba8 { kind: img.kind }),
        Some(pixels) => if 4 * img.width > u32::MAX {
            upload == Err::<TextureUpload, TextureError>(TextureError::RowTooLong)
        } else {
            &&& upload is Ok
            &&& upload->Ok_0.label == label
            &&& upload->Ok_0.size == (Extent3d {
                width: img.width,
                height: img.height,
                depth_or_array_layers: 1,
            })
            &&& upload->Ok_0.mip_level_count == 1
            &&& upload->Ok_0.sample_count == 1
            &&& upload->Ok_0.format == TextureFormat::Rgba8Unorm
            &&& upload->Ok_0.data@ == pixels
            &&& upload->Ok_0.bytes_per_row == non_zero((4 * img.width) as u32)
            &&& upload->Ok_0.rows_per_image == non_zero(img.height)
        },
    }
}

impl TextureUpload {
    /// The upload for the image that the bytes of an image file hold: the
    /// error that the bytes are no image that the decoder reads, or the
    /// upload that `new_from_image` gives for the image that the decoder
    /// made of them, in which only the variant of 8 bit RGBA pixels has
    /// such pixels.
    pub fn new_from_bytes(bytes: &[u8], label: Option<&'static str>) -> (upload: Result<
        TextureUpload,
        TextureError,
    >)
        ensures
            upload == Err::<TextureUpload, TextureError>(TextureError::Decode) || exists|
                img: DecodedImageView,
            |
                (img.rgba8 is Some <==> img.kind == ImageKind::ImageRgba8) && #[trigger] upload_of(
                    img,
                    label,
                    upload,
                ),
    {
        match decode_image(bytes) {
            Ok(img) => Self::new_from_image(img, label),
            Err(_) => Err(TextureError::Decode),
        }
    }

    /// The upload for a decoded image. Only images of 8 bit RGBA pixels are
    /// loaded.
    pub fn new_from_image(img: DecodedImage, label: Option<&'static str>) -> (upload: Result<
        TextureUpload,
        TextureError,
    >)
        ensures
            upload_of(img@, label, upload),
    {
        let DecodedImage { kind, width, height, rgba8 } = img;
        let data = match rgba8 {
            Some(data) => data,
            None => {
                return Err(TextureError::NotRgba8 { kind });
            },
        };
        if width > u32::MAX / 4 {
            return Err(TextureError::RowTooLong);
        }
        let row: u32 = 4 * width;
        Ok(
            TextureUpload {
                label,
                size: Extent3d { width, height, depth_or_array_layers: 1 },
                mip_level_count: 1,
                sample_count: 1,
                format: TextureFormat::Rgba8Unorm,
                data,
                bytes_per_row: if row == 0 {
                    None
                } else {
                    Some(row)
                },
                rows_per_image: if height == 0 {
                    None
                } else {
                    Some(height)
                },
            },
        )
    }
}

} // verus!
