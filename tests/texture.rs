use quad_renderer::pipeline::CompareFunction;
use quad_renderer::texture::{
    color_sampler, depth_sampler, load_texture, plan_upload, texture_from_rgba8, FilterMode,
    TextureError, UploadPlan,
};

fn png_bytes(width: u32, height: u32) -> Vec<u8> {
    let pixels: Vec<u8> = (0..width * height * 4).map(|i| i as u8).collect();
    let img = image::RgbaImage::from_raw(width, height, pixels).unwrap();
    let mut out = std::io::Cursor::new(Vec::new());
    img.write_to(&mut out, image::ImageFormat::Png).unwrap();
    out.into_inner()
}

#[test]
fn corrupt_bytes_fail_to_load() {
    assert_eq!(load_texture(b"definitely not an image").unwrap_err(), TextureError::Decode);
    assert_eq!(load_texture(&[]).unwrap_err(), TextureError::Decode);
    let mut truncated = png_bytes(2, 2);
    truncated.truncate(20);
    assert_eq!(load_texture(&truncated).unwrap_err(), TextureError::Decode);
}

#[test]
fn png_loads_with_its_size() {
    let bytes = png_bytes(2, 3);
    let t = load_texture(&bytes).unwrap();
    assert_eq!(
        t.plan,
        UploadPlan { width: 2, height: 3, bytes_per_row: 8, rows_per_image: 3 }
    );
    assert_eq!(t.pixels.len(), 24);
    assert_eq!(t.pixels[5], 5);
    assert_ne!(t.pixels, bytes);
}

#[test]
fn upload_plan_errors() {
    assert_eq!(plan_upload(0, 4, 0), Err(TextureError::Empty));
    assert_eq!(plan_upload(4, 0, 0), Err(TextureError::Empty));
    assert_eq!(plan_upload(1 << 30, 1, 0), Err(TextureError::TooLarge));
    assert_eq!(plan_upload(2, 2, 15), Err(TextureError::SizeMismatch));
    assert_eq!(plan_upload(2, 2, 17), Err(TextureError::SizeMismatch));
    assert_eq!(
        plan_upload((1 << 30) - 1, 1, ((1u64 << 32) - 4) as usize),
        Ok(UploadPlan {
            width: (1 << 30) - 1,
            height: 1,
            bytes_per_row: u32::MAX - 3,
            rows_per_image: 1
        })
    );
}

#[test]
fn texture_from_pixels() {
    let t = texture_from_rgba8(1, 2, vec![9; 8]).unwrap();
    assert_eq!(t.plan.bytes_per_row, 4);
    assert_eq!(t.plan.rows_per_image, 2);
    assert_eq!(t.pixels, vec![9; 8]);
    assert_eq!(texture_from_rgba8(1, 2, vec![9; 7]).unwrap_err(), TextureError::SizeMismatch);
}

#[test]
fn sampler_policies() {
    let c = color_sampler();
    assert_eq!(c.mag_filter, FilterMode::Linear);
    assert_eq!(c.min_filter, FilterMode::Nearest);
    assert_eq!(c.mipmap_filter, FilterMode::Nearest);
    assert_eq!(c.compare, None);
    let d = depth_sampler();
    assert_eq!(d.mag_filter, FilterMode::Linear);
    assert_eq!(d.compare, Some(CompareFunction::LessEqual));
}
