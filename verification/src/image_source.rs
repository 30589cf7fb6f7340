//! Turning a decoded image into a texture.
//!
//! Decoding is the `image` crate's work. Of a decoded image only one question
//! is asked here: whether it is laid out as four channels of eight bits. If it
//! is, its size and bytes become a [`TextureResource`]; if not, the image is
//! refused.

use vstd::prelude::*;
use crate::error::ResourceError;
use crate::texture::{TextureResource, MAX_EXTENT};

verus! {

/// A decoded image of the `image` crate, in any of its pixel layouts.
#[verifier::external_type_specification]
#[verifier::external_body]
pub struct ExDynamicImage(image::DynamicImage);

/// What an image holds if it is laid out as RGBA with eight bits per channel:
/// its width, its height and the bytes of its buffer. Nothing for an image in
/// any other layout.
pub uninterp spec fn rgba8_content(image: image::DynamicImage) -> Option<(u32, u32, Seq<u8>)>;

/// Calls `image::DynamicImage::as_rgba8` and, where it answers with a buffer,
/// copies out the buffer's `width()`, `height()` and `as_raw()` bytes.
///
/// Trusted, not proved: the contract only gives the result the name
/// [`rgba8_content`], which claims that it depends on the image alone. That
/// `as_rgba8` answers for the RGBA8 layout and for no other is the crate's
/// word; nothing here relies on it.
#[verifier::external_body]
fn rgba8_parts(image: &image::DynamicImage) -> (r: Option<(u32, u32, Vec<u8>)>)
    ensures
        r is Some <==> rgba8_content(*image) is Some,
        r matches Some(parts) ==> rgba8_content(*image) == Some((parts.0, parts.1, parts.2@)),
{
    match image.as_rgba8() {
        Some(buffer) => Some((buffer.width(), buffer.height(), buffer.as_raw().clone())),
        None => None,
    }
}

/// The texture for what an image holds: the refusal of a layout other than
/// RGBA8, or what [`TextureResource::new`] makes of size and bytes.
pub open spec fn texture_outcome(
    content: Option<(u32, u32, Seq<u8>)>,
    r: Result<TextureResource, ResourceError>,
) -> bool {
    match content {
        None => r == Err::<TextureResource, ResourceError>(ResourceError::UnsupportedImageFormat),
        Some((width, height, bytes)) => {
            if width == 0 || height == 0 || width > MAX_EXTENT || height > MAX_EXTENT {
                r == Err::<TextureResource, ResourceError>(ResourceError::UploadFailed)
            } else if bytes.len() != 4 * width * height {
                r == Err::<TextureResource, ResourceError>(ResourceError::UnsupportedImageFormat)
            } else {
                r matches Ok(t) && t.wf() && t.spec_width() == width && t.spec_height() == height
                    && t.bytes() == bytes
            }
        },
    }
}

/// The texture for the parts of an image, if it has the RGBA8 layout.
pub fn texture_from_parts(parts: Option<(u32, u32, Vec<u8>)>) -> (r: Result<
    TextureResource,
    ResourceError,
>)
    ensures
        texture_outcome(
            match parts {
                Some(p) => Some((p.0, p.1, p.2@)),
                None => None,
            },
            r,
        ),
{
    match parts {
        None => Err(ResourceError::UnsupportedImageFormat),
        Some((width, height, bytes)) => TextureResource::new(width, height, bytes),
    }
}

/// The texture for a decoded image. An image that is not laid out as RGBA
/// with eight bits per channel is refused as `UnsupportedImageFormat`.
pub fn texture_from_image(image: &image::DynamicImage) -> (r: Result<
    TextureResource,
    ResourceError,
>)
    ensures
        texture_outcome(rgba8_content(*image), r),
{
    texture_from_parts(rgba8_parts(image))
}

} // verus!
