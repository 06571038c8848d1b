//! The GPU texture resource loader.
//!
//! The loader turns an encoded image payload into everything the GPU upload
//! needs: the device texture description, the matching sampling view
//! description, the queued-copy data layout, and the tightly packed RGBA8
//! pixel buffer. Decoding runs here, against the `image` crate; the
//! application performs the device-side part — creating the texture and
//! enqueueing the copy — from the returned [`TextureUpload`] alone.

use vstd::prelude::*;

use image::ImageFormat;

use crate::error::RenderError;

verus! {

/// The image encodings the loader accepts; decoding is attempted in the
/// stated encoding alone, never guessed from the payload.
#[derive(Clone, Copy, Debug, PartialEq, Eq, Structural)]
pub enum ImageEncoding {
    Png,
    Jpeg,
    Gif,
    WebP,
    Bmp,
    Tiff,
}

/// The one texel format the loader produces: four 8-bit channels per pixel,
/// red/green/blue/alpha, sRGB color space.
#[derive(Clone, Copy, Debug, PartialEq, Eq, Structural)]
pub enum TexelFormat {
    Rgba8UnormSrgb,
}

/// Description of the 2D device texture to allocate: sized to the decoded
/// image, one mip level, one sample, one layer, usable as a sampling source
/// and as a copy destination.
#[derive(Clone, Copy, Debug, PartialEq, Eq, Structural)]
pub struct TextureDesc {
    pub width: u32,
    pub height: u32,
    pub depth_or_array_layers: u32,
    pub mip_level_count: u32,
    pub sample_count: u32,
    pub two_dimensional: bool,
    pub format: TexelFormat,
    pub usage_texture_binding: bool,
    pub usage_copy_dst: bool,
}

/// The sampling view description matching the texture: a 2D view over the
/// full mip range (one level) and the full array range (one layer), all
/// aspects.
#[derive(Clone, Copy, Debug, PartialEq, Eq, Structural)]
pub struct ViewDesc {
    pub format: TexelFormat,
    pub two_dimensional: bool,
    pub all_aspects: bool,
    pub base_mip_level: u32,
    pub mip_level_count: u32,
    pub base_array_layer: u32,
    pub array_layer_count: u32,
}

/// Layout of the pixel buffer for the queued copy: row-major, no leading
/// offset, a row stride of four bytes per pixel, one image of the texture's
/// height.
#[derive(Clone, Copy, Debug, PartialEq, Eq, Structural)]
pub struct DataLayout {
    pub offset: u64,
    pub bytes_per_row: u64,
    pub rows_per_image: u64,
}

/// A decoded image ready for GPU upload: texture and view descriptions, the
/// copy layout, and the tightly packed RGBA8 pixels.
pub struct TextureUpload {
    pub desc: TextureDesc,
    pub view: ViewDesc,
    pub layout: DataLayout,
    pub pixels: Vec<u8>,
}

impl TextureUpload {
    /// Everything the loader's contract fixes about an upload, relative to
    /// its pixel dimensions: a 2D one-mip one-sample one-layer sRGB texture,
    /// sampleable and copy-destination; a matching full-range 2D view; a
    /// tight row-major layout of four bytes per pixel; and a pixel buffer of
    /// exactly four bytes per pixel.
    pub open spec fn well_formed(&self) -> bool {
        &&& self.desc.depth_or_array_layers == 1
        &&& self.desc.mip_level_count == 1
        &&& self.desc.sample_count == 1
        &&& self.desc.two_dimensional
        &&& self.desc.format == TexelFormat::Rgba8UnormSrgb
        &&& self.desc.usage_texture_binding
        &&& self.desc.usage_copy_dst
        &&& self.view == (ViewDesc {
            format: TexelFormat::Rgba8UnormSrgb,
            two_dimensional: true,
            all_aspects: true,
            base_mip_level: 0,
            mip_level_count: 1,
            base_array_layer: 0,
            array_layer_count: 1,
        })
        &&& self.layout.offset == 0
        &&& self.layout.bytes_per_row == 4 * self.desc.width
        &&& self.layout.rows_per_image == self.desc.height
        &&& self.pixels@.len() == 4 * self.desc.width * self.desc.height
    }
}

/// What decoding a payload yields: the pixel dimensions and the tightly
/// packed row-major RGBA8 pixels, or nothing when the payload cannot be
/// parsed in the tagged encoding. Decoding is a function of the encoding
/// and the bytes alone, so the outcome bears a name rather than a
/// definition.
pub uninterp spec fn decoded_rgba8(encoding_tag: int, bytes: Seq<u8>) -> Option<(u32, u32, Seq<u8>)>;

/// The tag distinguishing the encodings in the decode model.
pub open spec fn encoding_tag(e: ImageEncoding) -> int {
    match e {
        ImageEncoding::Png => 0,
        ImageEncoding::Jpeg => 1,
        ImageEncoding::Gif => 2,
        ImageEncoding::WebP => 3,
        ImageEncoding::Bmp => 4,
        ImageEncoding::Tiff => 5,
    }
}

/// Relies on `image::load_from_memory_with_format` and
/// `image::DynamicImage::to_rgba8`: decoding is attempted in the stated
/// encoding alone and depends on nothing but the encoding and the bytes; on
/// success the returned buffer begins with the decoded pixels, row-major,
/// four bytes (red, green, blue, alpha) per pixel — `image::ImageBuffer`
/// admits a backing container longer than its pixel data, never a shorter
/// one.
#[verifier::external_body]
fn decode_rgba8(encoding: ImageEncoding, bytes: &[u8]) -> (r: Option<(u32, u32, Vec<u8>)>)
    ensures
        r is Some <==> decoded_rgba8(encoding_tag(encoding), bytes@) is Some,
        r matches Some(d) ==> (decoded_rgba8(encoding_tag(encoding), bytes@) matches Some(m)
            && d.0 == m.0
            && d.1 == m.1
            && m.2.len() == 4 * (m.0 as int) * (m.1 as int)
            && d.2@.len() >= m.2.len()
            && m.2 == d.2@.subrange(0, m.2.len() as int)),
{
    let format = match encoding {
        ImageEncoding::Png => ImageFormat::Png,
        ImageEncoding::Jpeg => ImageFormat::Jpeg,
        ImageEncoding::Gif => ImageFormat::Gif,
        ImageEncoding::WebP => ImageFormat::WebP,
        ImageEncoding::Bmp => ImageFormat::Bmp,
        ImageEncoding::Tiff => ImageFormat::Tiff,
    };
    match image::load_from_memory_with_format(bytes, format) {
        Ok(img) => {
            let buf = img.to_rgba8();
            Some((buf.width(), buf.height(), buf.into_raw()))
        }
        Err(_) => None,
    }
}

/// Assemble the upload for an already decoded RGBA8 image: the texture is
/// sized exactly to the pixel dimensions, with the fixed sRGB format, view
/// and tight copy layout; the pixel buffer is taken over unchanged.
pub fn texture_from_rgba8(width: u32, height: u32, pixels: Vec<u8>) -> (t: TextureUpload)
    requires
        pixels@.len() == 4 * width * height,
    ensures
        t.desc == (TextureDesc {
            width,
            height,
            depth_or_array_layers: 1,
            mip_level_count: 1,
            sample_count: 1,
            two_dimensional: true,
            format: TexelFormat::Rgba8UnormSrgb,
            usage_texture_binding: true,
            usage_copy_dst: true,
        }),
        t.view == (ViewDesc {
            format: TexelFormat::Rgba8UnormSrgb,
            two_dimensional: true,
            all_aspects: true,
            base_mip_level: 0,
            mip_level_count: 1,
            base_array_layer: 0,
            array_layer_count: 1,
        }),
        t.layout == (DataLayout {
            offset: 0,
            bytes_per_row: (4 * width) as u64,
            rows_per_image: height as u64,
        }),
        t.pixels@ == pixels@,
        t.well_formed(),
{
    TextureUpload {
        desc: TextureDesc {
            width,
            height,
            depth_or_array_layers: 1,
            mip_level_count: 1,
            sample_count: 1,
            two_dimensional: true,
            format: TexelFormat::Rgba8UnormSrgb,
            usage_texture_binding: true,
            usage_copy_dst: true,
        },
        view: ViewDesc {
            format: TexelFormat::Rgba8UnormSrgb,
            two_dimensional: true,
            all_aspects: true,
            base_mip_level: 0,
            mip_level_count: 1,
            base_array_layer: 0,
            array_layer_count: 1,
        },
        layout: DataLayout {
            offset: 0,
            bytes_per_row: 4 * (width as u64),
            rows_per_image: height as u64,
        },
        pixels,
    }
}

/// The GPU texture resource loader, configured with the encoding of the
/// payloads it parses.
pub struct GpuTexture(pub ImageEncoding);

impl GpuTexture {
    /// Decode an image payload and assemble its GPU upload. Succeeds exactly
    /// when the payload decodes in this loader's encoding, and then returns
    /// the decode verbatim: texture sized to the decoded dimensions, the
    /// decoded pixels, fixed sRGB format, matching view, tight copy layout,
    /// four bytes per pixel. When the payload cannot be parsed, the one
    /// error is `DecodeError`, and no upload — hence no device texture —
    /// comes into being.
    pub fn parse(&self, bytes: &[u8]) -> (r: Result<TextureUpload, RenderError>)
        ensures
            r is Ok <==> decoded_rgba8(encoding_tag(self.0), bytes@) is Some,
            r matches Ok(t) ==> (decoded_rgba8(encoding_tag(self.0), bytes@) matches Some(m)
                && t.desc.width == m.0
                && t.desc.height == m.1
                && t.pixels@ == m.2
                && t.well_formed()),
            r matches Err(e) ==> e == RenderError::DecodeError,
    {
        match decode_rgba8(self.0, bytes) {
            None => Err(RenderError::DecodeError),
            Some((width, height, raw)) => {
                let mut pixels = raw;
                let n = pixels.len();
                proof {
                    let w = width as int;
                    let h = height as int;
                    assert(w * h >= 0) by (nonlinear_arith)
                        requires
                            w >= 0 && h >= 0,
                    ;
                    assert(4 * w * h == 4 * (w * h)) by (nonlinear_arith);
                    assert(4 * (w * h) <= n as int);
                    assert(w * h <= n as int);
                }
                let wh: usize = (width as usize) * (height as usize);
                let tight: usize = 4 * wh;
                pixels.truncate(tight);
                Ok(texture_from_rgba8(width, height, pixels))
            },
        }
    }
}

} // verus!
