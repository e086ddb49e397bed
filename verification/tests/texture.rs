//! Texture cache tests: PNG decoding normalized to the device layout,
//! identity-keyed memoization, and placeholder fallbacks.

use kakistocracy::io::StaticFile;
use kakistocracy::mwc::{CreateOutcome, MultiWindowContext};
use kakistocracy::texture_cache::{BasicTextureCache, FileReadError};

fn encode_png(width: u32, height: u32, color: png::ColorType, data: &[u8]) -> Vec<u8> {
    let mut buf: Vec<u8> = Vec::new();
    {
        let mut enc = png::Encoder::new(&mut buf, width, height);
        enc.set_color(color);
        enc.set_depth(png::BitDepth::Eight);
        let mut writer = enc.write_header().unwrap();
        writer.write_image_data(data).unwrap();
    }
    buf
}

#[test]
fn rgba_png_is_swizzled_to_bgra() {
    // Two pixels: opaque red-ish, translucent blue-ish.
    let pixels = [1u8, 2, 3, 255, 10, 20, 30, 40];
    let bytes = encode_png(2, 1, png::ColorType::Rgba, &pixels);
    let mut cache = BasicTextureCache::new(0, 0);
    let img = cache.get_texture_2d_keyed(1, &bytes);
    assert_eq!((img.width, img.height), (2, 1));
    assert_eq!(img.bgra, vec![3, 2, 1, 255, 30, 20, 10, 40]);
}

#[test]
fn rgb_png_gains_opaque_alpha() {
    let pixels = [9u8, 8, 7];
    let bytes = encode_png(1, 1, png::ColorType::Rgb, &pixels);
    let mut cache = BasicTextureCache::new(0, 0);
    let img = cache.get_texture_2d_keyed(1, &bytes);
    assert_eq!(img.bgra, vec![7, 8, 9, 255]);
}

#[test]
fn gray_png_fills_all_channels() {
    let bytes = encode_png(1, 2, png::ColorType::Grayscale, &[100, 200]);
    let mut cache = BasicTextureCache::new(0, 0);
    let img = cache.get_texture_2d_keyed(1, &bytes);
    assert_eq!(img.bgra, vec![100, 100, 100, 255, 200, 200, 200, 255]);
}

#[test]
fn gray_alpha_png_keeps_its_alpha() {
    let bytes = encode_png(1, 1, png::ColorType::GrayscaleAlpha, &[50, 60]);
    let mut cache = BasicTextureCache::new(0, 0);
    let img = cache.get_texture_2d_keyed(1, &bytes);
    assert_eq!(img.bgra, vec![50, 50, 50, 60]);
}

#[test]
fn invalid_png_yields_placeholder() {
    let mut cache = BasicTextureCache::new(0, 0);
    let img = cache.get_texture_2d_keyed(1, b"not a png at all");
    assert_eq!((img.width, img.height), (1, 1));
    // The placeholder pixel of the packed color 0xFF00FFFF, as the platform
    // texture upload laid it out.
    assert_eq!(img.bgra, vec![0xFF, 0xFF, 0xFF, 0x00]);
}

#[test]
fn entries_are_memoized_by_identity() {
    let bytes = encode_png(1, 1, png::ColorType::Rgba, &[1, 2, 3, 4]);
    let mut cache = BasicTextureCache::new(0, 0);
    let first = cache.get_texture_2d_keyed(7, &bytes);
    // Same identity key: the remembered entry is reused even for different
    // bytes — identity stands for one immutable buffer.
    let again = cache.get_texture_2d_keyed(7, b"ignored");
    assert_eq!(first.bgra, again.bgra);
    // A different identity is decoded on its own.
    let other = cache.get_texture_2d_keyed(8, b"junk");
    assert_eq!(other.bgra, vec![0xFF, 0xFF, 0xFF, 0x00]);
}

#[test]
fn dynamic_files_remember_read_outcomes() {
    let mut cache = BasicTextureCache::new(0, 0);
    let missing = cache.get_texture_2d_static_path(1, Err(FileReadError::NotFound));
    assert_eq!(missing.bgra, vec![0xFF, 0xFF, 0xFF, 0x00]);
    let broken = cache.get_texture_2d_static_path(2, Err(FileReadError::Other));
    assert_eq!(broken.bgra, vec![0xFF, 0xFF, 0xFF, 0x00]);
    let bytes = encode_png(1, 1, png::ColorType::Rgba, &[5, 6, 7, 8]);
    let good = cache.get_texture_2d_static_path(3, Ok(bytes));
    assert_eq!(good.bgra, vec![7, 6, 5, 8]);
    // The outcome is remembered: the key answers without a new read.
    let cached = cache.get_texture_2d_static_path(3, Err(FileReadError::Other));
    assert_eq!(cached.bgra, vec![7, 6, 5, 8]);
}

#[test]
fn manager_texture_needs_a_device() {
    let bytes = encode_png(1, 1, png::ColorType::Rgba, &[11, 22, 33, 44]);
    let leaked: &'static [u8] = Box::leak(bytes.into_boxed_slice());
    let file = StaticFile { path: "texture.png", data: leaked };

    let mut mwc = MultiWindowContext::new(CreateOutcome::Created).unwrap();
    let img = mwc.get_texture_2d_static_file(&file).unwrap();
    assert_eq!(img.bgra, vec![33, 22, 11, 44]);
    assert_eq!(file.len(), leaked.len());
    assert_eq!(file.path_str(), "texture.png");
    assert_eq!(file.as_bytes(), leaked);

    // The cache now holds exactly that one entry.
    let cache = mwc.texture_cache().unwrap();
    assert_eq!(cache.static_files.len(), 1);
}
