use image::ImageEncoder;
use renderer::error::RenderError;
use renderer::tex::DataLayout;
use renderer::tex::GpuTexture;
use renderer::tex::ImageEncoding;
use renderer::tex::TexelFormat;
use renderer::tex::texture_from_rgba8;

fn png_bytes_4x4() -> (Vec<u8>, Vec<u8>) {
    let mut raw: Vec<u8> = Vec::new();
    for i in 0..64u32 {
        raw.push((i * 3 % 256) as u8);
    }
    let mut png: Vec<u8> = Vec::new();
    image::codecs::png::PngEncoder::new(&mut png)
        .write_image(&raw, 4, 4, image::ExtendedColorType::Rgba8)
        .unwrap();
    (raw, png)
}

#[test]
fn load_well_formed_4x4_rgba() {
    let (raw, png) = png_bytes_4x4();
    let loader = GpuTexture(ImageEncoding::Png);
    let upload = loader.parse(&png).unwrap();

    assert_eq!(upload.desc.width, 4);
    assert_eq!(upload.desc.height, 4);
    assert_eq!(upload.desc.depth_or_array_layers, 1);
    assert_eq!(upload.desc.mip_level_count, 1);
    assert_eq!(upload.desc.sample_count, 1);
    assert!(upload.desc.two_dimensional);
    assert_eq!(upload.desc.format, TexelFormat::Rgba8UnormSrgb);
    assert!(upload.desc.usage_texture_binding);
    assert!(upload.desc.usage_copy_dst);

    assert_eq!(upload.pixels.len(), 4 * 4 * 4);
    assert_eq!(
        upload.layout,
        DataLayout { offset: 0, bytes_per_row: 16, rows_per_image: 4 }
    );

    assert_eq!(upload.view.format, TexelFormat::Rgba8UnormSrgb);
    assert!(upload.view.two_dimensional);
    assert!(upload.view.all_aspects);
    assert_eq!(upload.view.base_mip_level, 0);
    assert_eq!(upload.view.mip_level_count, 1);
    assert_eq!(upload.view.base_array_layer, 0);
    assert_eq!(upload.view.array_layer_count, 1);

    // PNG is lossless: the decoded pixels are the encoded ones.
    assert_eq!(upload.pixels, raw);
}

#[test]
fn corrupt_stream_is_a_decode_error() {
    let garbage: Vec<u8> = vec![0xde, 0xad, 0xbe, 0xef, 0x00, 0x11, 0x22, 0x33];
    let loader = GpuTexture(ImageEncoding::Png);
    let r = loader.parse(&garbage);
    assert!(matches!(r, Err(RenderError::DecodeError)));
}

#[test]
fn truncated_stream_is_a_decode_error() {
    let (_, png) = png_bytes_4x4();
    let loader = GpuTexture(ImageEncoding::Png);
    let r = loader.parse(&png[..png.len() / 2]);
    assert!(matches!(r, Err(RenderError::DecodeError)));
}

#[test]
fn decoding_uses_the_stated_encoding_alone() {
    let (_, png) = png_bytes_4x4();
    let loader = GpuTexture(ImageEncoding::Jpeg);
    let r = loader.parse(&png);
    assert!(matches!(r, Err(RenderError::DecodeError)));
}

#[test]
fn texture_from_rgba8_exact_values() {
    let pixels: Vec<u8> = vec![7u8; 2 * 3 * 4];
    let t = texture_from_rgba8(2, 3, pixels.clone());
    assert_eq!(t.desc.width, 2);
    assert_eq!(t.desc.height, 3);
    assert_eq!(t.desc.depth_or_array_layers, 1);
    assert_eq!(
        t.layout,
        DataLayout { offset: 0, bytes_per_row: 8, rows_per_image: 3 }
    );
    assert_eq!(t.pixels, pixels);
}
