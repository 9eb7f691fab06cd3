//! Textures: raw RGBA8 pixels with their dimensions, decoded from image files
//! held in memory.

use vstd::prelude::*;

verus! {

/// Mime type of PNG images, the one format that textures are read from.
pub const IMAGE_PNG: &'static str = "image/png";

/// `image::ImageError`, kept opaque: carried as the cause of a failed decoding.
#[verifier::external_type_specification]
#[verifier::external_body]
pub struct ExImageError(image::ImageError);

/// The pixels of the PNG image held in `bytes`, as RGBA8 bytes row by row,
/// with its width and height; `None` when `bytes` is no PNG image that can
/// be decoded.
pub uninterp spec fn png_rgba8(bytes: Seq<u8>) -> Option<(Seq<u8>, u32, u32)>;

/// Relies on `image::load_from_memory_with_format` (with `ImageFormat::Png`)
/// followed by `DynamicImage::to_rgba8`: the decoded pixels, converted to
/// RGBA8, with the image's dimensions, or the decoding error; either way a
/// function of the bytes alone. The pixels take four bytes each.
#[verifier::external_body]
fn decode_png(bytes: &[u8]) -> (r: Result<(Vec<u8>, u32, u32), image::ImageError>)
    ensures
        match r {
            Ok((pixels, width, height)) => png_rgba8(bytes@) == Some((pixels@, width, height))
                && pixels@.len() == 4 * width * height,
            Err(_) => png_rgba8(bytes@) is None,
        },
{
    let image = image::load_from_memory_with_format(bytes, image::ImageFormat::Png)?.to_rgba8();
    let (width, height) = image.dimensions();
    Ok((image.into_raw(), width, height))
}

/// Why a texture could not be had.
#[derive(Debug)]
pub enum TextureError {
    /// The bytes could not be decoded.
    Image(image::ImageError),
    /// No decoder for this mime type.
    UnsupportedMimeType(String),
    /// No known mime type for this file extension.
    UnsupportedExtension(Option<String>),
}

/// Raw RGBA8 pixels, row by row, and the image's width and height.
pub struct Texture {
    pub image_data: Vec<u8>,
    pub dimensions: (u32, u32),
}

impl Texture {
    pub fn from_raw(image_data: Vec<u8>, dimensions: (u32, u32)) -> (r: Texture)
        ensures
            r.image_data@ == image_data@,
            r.dimensions == dimensions,
    {
        Texture { image_data, dimensions }
    }
}

/// Decodes a texture of type `mime_type` from `bytes`.
pub fn load_from_memory(mime_type: &str, bytes: &[u8]) -> (r: Result<Texture, TextureError>)
    ensures
        mime_type@ == IMAGE_PNG@ ==> match png_rgba8(bytes@) {
            Some((pixels, width, height)) => r is Ok && r->Ok_0.image_data@ == pixels
                && r->Ok_0.dimensions == (width, height) && pixels.len() == 4 * width * height,
            None => r matches Err(TextureError::Image(_)),
        },
        mime_type@ != IMAGE_PNG@ ==> match r {
            Err(TextureError::UnsupportedMimeType(m)) => m@ == mime_type@,
            _ => false,
        },
{
    let requested: String = mime_type.to_owned();
    let png: String = IMAGE_PNG.to_owned();
    if requested == png {
        match decode_png(bytes) {
            Ok((pixels, width, height)) => Ok(Texture::from_raw(pixels, (width, height))),
            Err(e) => Err(TextureError::Image(e)),
        }
    } else {
        Err(TextureError::UnsupportedMimeType(requested))
    }
}

/// The mime type of files with extension `ext`.
pub fn mime_type_from_extension(ext: Option<&str>) -> (r: Result<&'static str, TextureError>)
    ensures
        match ext {
            Some(e) => if e@ == "png"@ {
                match r {
                    Ok(m) => m@ == IMAGE_PNG@,
                    _ => false,
                }
            } else {
                match r {
                    Err(TextureError::UnsupportedExtension(Some(f))) => f@ == e@,
                    _ => false,
                }
            },
            None => r matches Err(TextureError::UnsupportedExtension(None)),
        },
{
    match ext {
        Some(e) => {
            let found: String = e.to_owned();
            let png: String = "png".to_owned();
            if found == png {
                Ok(IMAGE_PNG)
            } else {
                Err(TextureError::UnsupportedExtension(Some(found)))
            }
        },
        None => Err(TextureError::UnsupportedExtension(None)),
    }
}

} // verus!
