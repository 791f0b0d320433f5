use vstd::prelude::*;
use crate::pipeline::CompareFunction;

verus! {

/// Bytes per pixel of an 8-bit RGBA image.
pub const RGBA8_PIXEL_BYTES: u32 = 4;

#[verifier::external_type_specification]
#[verifier::external_body]
pub struct ExImageError(image::ImageError);

/// What decoding `bytes` as a PNG image and converting it to 8-bit RGBA
/// gives: its width, its height and its pixels row by row, or `None` where
/// the bytes are no PNG image that the decoder reads.
pub uninterp spec fn decoded_rgba8(bytes: Seq<u8>) -> Option<(u32, u32, Seq<u8>)>;

/// Relies on `image::load_from_memory_with_format` with the built-in PNG
/// format, which decodes the bytes as PNG without consulting any registered
/// format-detection or decoding hook, and on `DynamicImage::to_rgba8`,
/// `dimensions` and `into_raw`, which convert the image to 8-bit RGBA and hand
/// out its size and pixels.
#[verifier::external_body]
fn decode_rgba8(bytes: &[u8]) -> (r: Result<(u32, u32, Vec<u8>), image::ImageError>)
    ensures
        r is Ok <==> decoded_rgba8(bytes@) is Some,
        r matches Ok((w, h, px)) ==> decoded_rgba8(bytes@) == Some((w, h, px@)),
{
    let rgba = image::load_from_memory_with_format(bytes, image::ImageFormat::Png)?.to_rgba8();
    let (w, h) = rgba.dimensions();
    Ok((w, h, rgba.into_raw()))
}

/// Why an image cannot become a texture.
#[derive(Clone, Copy, Debug, PartialEq, Eq, Structural)]
pub enum TextureError {
    /// The bytes are no PNG image the decoder reads.
    Decode,
    /// The image has no pixels.
    Empty,
    /// A row of the image holds more bytes than a copy to the GPU can describe.
    TooLarge,
    /// The pixel data is not four bytes for each pixel.
    SizeMismatch,
}

/// How an 8-bit RGBA image is copied into a two-dimensional GPU texture with
/// one mip level and one sample per pixel.
#[derive(Clone, Copy, Debug, PartialEq, Eq, Structural)]
pub struct UploadPlan {
    pub width: u32,
    pub height: u32,
    /// Bytes from the start of one row to the start of the next.
    pub bytes_per_row: u32,
    /// Rows in the image.
    pub rows_per_image: u32,
}

/// The plan that copies a `width` x `height` RGBA image held in `len` bytes,
/// or why there is none.
pub open spec fn upload_plan_for(width: u32, height: u32, len: nat) -> Result<UploadPlan, TextureError> {
    if width == 0 || height == 0 {
        Err(TextureError::Empty)
    } else if 4 * width > u32::MAX {
        Err(TextureError::TooLarge)
    } else if len != 4 * width * height {
        Err(TextureError::SizeMismatch)
    } else {
        Ok(
            UploadPlan {
                width,
                height,
                bytes_per_row: (4 * width) as u32,
                rows_per_image: height,
            },
        )
    }
}

/// An image ready for upload: the copy's plan and the pixels it copies.
#[derive(Clone, Debug)]
pub struct TextureImage {
    pub plan: UploadPlan,
    pub pixels: Vec<u8>,
}

/// Plans the upload of a decoded `width` x `height` RGBA image.
pub fn plan_upload(width: u32, height: u32, len: usize) -> (r: Result<UploadPlan, TextureError>)
    ensures
        r == upload_plan_for(width, height, len as nat),
{
    if width == 0 || height == 0 {
        return Err(TextureError::Empty);
    }
    if width > u32::MAX / RGBA8_PIXEL_BYTES {
        return Err(TextureError::TooLarge);
    }
    let bytes_per_row: u32 = RGBA8_PIXEL_BYTES * width;
    assert((bytes_per_row as u64) * (height as u64) <= (u32::MAX as u64) * (u32::MAX as u64))
        by (nonlinear_arith)
        requires
            bytes_per_row <= u32::MAX,
            height <= u32::MAX,
    ;
    let total: u64 = (bytes_per_row as u64) * (height as u64);
    if len as u64 != total {
        return Err(TextureError::SizeMismatch);
    }
    Ok(UploadPlan { width, height, bytes_per_row, rows_per_image: height })
}

/// Makes a texture image of decoded RGBA pixels: the image must have pixels,
/// and exactly four bytes for each.
pub fn texture_from_rgba8(width: u32, height: u32, pixels: Vec<u8>) -> (r: Result<
    TextureImage,
    TextureError,
>)
    ensures
        upload_plan_for(width, height, pixels@.len()) matches Err(e) ==> r == Err::<
            TextureImage,
            TextureError,
        >(e),
        upload_plan_for(width, height, pixels@.len()) matches Ok(p) ==> r matches Ok(t) && t.plan
            == p && t.pixels@ == pixels@,
{
    match plan_upload(width, height, pixels.len()) {
        Ok(plan) => Ok(TextureImage { plan, pixels }),
        Err(e) => Err(e),
    }
}

/// Decodes PNG bytes into a texture image. Bytes that do not decode are
/// refused, and so is an image with no pixels: no empty texture is ever
/// made.
pub fn load_texture(bytes: &[u8]) -> (r: Result<TextureImage, TextureError>)
    ensures
        decoded_rgba8(bytes@) is None ==> r == Err::<TextureImage, TextureError>(
            TextureError::Decode,
        ),
        decoded_rgba8(bytes@) matches Some((w, h, px)) ==> {
            &&& upload_plan_for(w, h, px.len()) matches Err(e) ==> r == Err::<
                TextureImage,
                TextureError,
            >(e)
            &&& upload_plan_for(w, h, px.len()) matches Ok(p) ==> r matches Ok(t) && t.plan == p
                && t.pixels@ == px
        },
        r matches Ok(t) ==> t.plan.width > 0 && t.plan.height > 0,
{
    match decode_rgba8(bytes) {
        Ok((width, height, pixels)) => texture_from_rgba8(width, height, pixels),
        Err(_) => Err(TextureError::Decode),
    }
}

/// How a texture's sampler filters; addressing always clamps to the edge.
#[derive(Clone, Copy, Debug, PartialEq, Eq, Structural)]
pub enum FilterMode {
    Nearest,
    Linear,
}

/// Sampler state of a texture.
#[derive(Clone, Copy, Debug, PartialEq, Eq, Structural)]
pub struct SamplerPolicy {
    pub mag_filter: FilterMode,
    pub min_filter: FilterMode,
    pub mipmap_filter: FilterMode,
    /// Comparison for a depth sampler; `None` for a color sampler.
    pub compare: Option<CompareFunction>,
}

/// Sampler of an image texture: linear magnification, nearest minification
/// and mip selection.
pub fn color_sampler() -> (r: SamplerPolicy)
    ensures
        r == (SamplerPolicy {
            mag_filter: FilterMode::Linear,
            min_filter: FilterMode::Nearest,
            mipmap_filter: FilterMode::Nearest,
            compare: None,
        }),
{
    SamplerPolicy {
        mag_filter: FilterMode::Linear,
        min_filter: FilterMode::Nearest,
        mipmap_filter: FilterMode::Nearest,
        compare: None,
    }
}

/// Sampler of the depth texture: linear magnification and minification,
/// nearest mip selection, less-or-equal comparison.
pub fn depth_sampler() -> (r: SamplerPolicy)
    ensures
        r == (SamplerPolicy {
            mag_filter: FilterMode::Linear,
            min_filter: FilterMode::Linear,
            mipmap_filter: FilterMode::Nearest,
            compare: Some(CompareFunction::LessEqual),
        }),
{
    SamplerPolicy {
        mag_filter: FilterMode::Linear,
        min_filter: FilterMode::Linear,
        mipmap_filter: FilterMode::Nearest,
        compare: Some(CompareFunction::LessEqual),
    }
}

} // verus!
