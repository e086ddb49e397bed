//! Texture cache: maps an immutable byte buffer, by identity, to a decoded
//! image normalized to the device's pixel layout, memoized for the lifetime
//! of the owning device.  Decode failure yields a visibly distinct
//! placeholder instead of an error: rendering code never branches on texture
//! loading.

use vstd::prelude::*;
use std::collections::HashMap;
use crate::error::Error;
use png::{ColorType, Decoder, Transformations};

verus! {

broadcast use vstd::std_specs::hash::group_hash_axioms;

/// The color layout of a decoded image's samples, eight bits each.
#[derive(Clone, Copy, Debug, PartialEq, Eq, Structural)]
pub enum ColorKind {
    /// One gray sample per pixel.
    Gray,
    /// A gray sample then an alpha sample.
    GrayAlpha,
    /// Red, green, blue.
    Rgb,
    /// Red, green, blue, alpha.
    Rgba,
}

/// Samples per pixel of each color layout.
pub open spec fn channels(color: ColorKind) -> nat {
    match color {
        ColorKind::Gray => 1,
        ColorKind::GrayAlpha => 2,
        ColorKind::Rgb => 3,
        ColorKind::Rgba => 4,
    }
}

/// A decoded image as the decoder hands it out: eight-bit samples in `color`
/// layout, row after row.
#[derive(Debug)]
pub struct DecodedPng {
    pub width: u32,
    pub height: u32,
    pub color: ColorKind,
    pub data: Vec<u8>,
}

/// What decoding a byte buffer as a PNG yields: `None` when the bytes are no
/// valid PNG, otherwise the image's width, height, color layout and samples.
/// The decode is a function of the bytes alone.
pub uninterp spec fn png_decoded(data: Seq<u8>) -> Option<(u32, u32, ColorKind, Seq<u8>)>;

/// Relies on `png::Decoder` and `png::Reader` with the transformations that
/// normalize every image to eight-bit samples: palettes are expanded and
/// sixteen-bit samples stripped, so the output layout is one of the four
/// `ColorKind`s and holds `width * height * channels` bytes
/// (`line_size * height`, where a line is `width * channels` bytes).
/// Decoding depends on the input bytes alone.
#[verifier::external_body]
fn decode_png(data: &[u8]) -> (r: Result<DecodedPng, Error>)
    ensures
        match r {
            Ok(img) => {
                &&& png_decoded(data@) == Some((img.width, img.height, img.color, img.data@))
                &&& img.data@.len() == img.width as nat * img.height as nat * channels(img.color)
            },
            Err(_) => png_decoded(data@) is None,
        },
{
    let mut d = Decoder::new(data);
    d.set_transformations(Transformations::normalize_to_color8());
    let e = Error::new("png::Reader", "", 0, "invalid png");
    let mut reader = match d.read_info() { Ok(r) => r, Err(_) => return Err(e) };
    let mut buf = vec![0; reader.output_buffer_size()];
    let info = match reader.next_frame(&mut buf) { Ok(i) => i, Err(_) => return Err(e) };
    buf.truncate(info.buffer_size());
    let color = match info.color_type {
        ColorType::Grayscale => ColorKind::Gray,
        ColorType::GrayscaleAlpha => ColorKind::GrayAlpha,
        ColorType::Rgb => ColorKind::Rgb,
        ColorType::Rgba => ColorKind::Rgba,
        ColorType::Indexed => return Err(e),
    };
    Ok(DecodedPng { width: info.width, height: info.height, color, data: buf })
}

/// One byte of the blue-green-red-alpha layout of pixel `i / 4` of an image
/// whose samples are `data` in `color` layout: byte `4p` is blue, `4p + 1`
/// green, `4p + 2` red, `4p + 3` alpha, with gray copied to all three color
/// bytes and a missing alpha read as fully opaque.
pub open spec fn bgra_byte(color: ColorKind, data: Seq<u8>, i: int) -> u8 {
    let p = i / 4;
    let c = i % 4;
    match color {
        ColorKind::Gray => if c == 3 {
            0xFFu8
        } else {
            data[p]
        },
        ColorKind::GrayAlpha => if c == 3 {
            data[2 * p + 1]
        } else {
            data[2 * p]
        },
        ColorKind::Rgb => if c == 0 {
            data[3 * p + 2]
        } else if c == 1 {
            data[3 * p + 1]
        } else if c == 2 {
            data[3 * p]
        } else {
            0xFFu8
        },
        ColorKind::Rgba => if c == 0 {
            data[4 * p + 2]
        } else if c == 1 {
            data[4 * p + 1]
        } else if c == 2 {
            data[4 * p]
        } else {
            data[4 * p + 3]
        },
    }
}

/// The blue-green-red-alpha bytes of all `pixels` pixels.
pub open spec fn bgra_seq(color: ColorKind, data: Seq<u8>, pixels: nat) -> Seq<u8> {
    Seq::new(4 * pixels, |i: int| bgra_byte(color, data, i))
}

/// Normalize eight-bit samples in `color` layout to the device layout:
/// blue, green, red, alpha per pixel.
pub fn to_bgra(color: ColorKind, data: &Vec<u8>, pixels: usize) -> (r: Vec<u8>)
    requires
        data@.len() == pixels * channels(color),
        4 * pixels <= usize::MAX,
    ensures
        r@ == bgra_seq(color, data@, pixels as nat),
{
    let mut out: Vec<u8> = Vec::new();
    let mut p: usize = 0;
    while p < pixels
        invariant
            p <= pixels,
            data@.len() == pixels * channels(color),
            4 * pixels <= usize::MAX,
            out@.len() == 4 * p,
            forall|i: int| 0 <= i < 4 * p ==> out@[i] == bgra_byte(color, data@, i),
        decreases pixels - p,
    {
        proof {
            assert(channels(color) * p < channels(color) * pixels) by (nonlinear_arith)
                requires
                    p < pixels,
                    1 <= channels(color),
            ;
            assert(channels(color) * (p + 1) <= channels(color) * pixels) by (nonlinear_arith)
                requires
                    p + 1 <= pixels,
                    1 <= channels(color),
            ;
        }
        let (b, g, r, a): (u8, u8, u8, u8) = match color {
            ColorKind::Gray => {
                proof {
                    assert(channels(color) == 1);
                    assert(1 * p < 1 * pixels);
                    assert(1 * pixels == pixels * channels(color)) by (nonlinear_arith)
                        requires
                            channels(color) == 1,
                    ;
                }
                let v = data[p];
                (v, v, v, 0xFF)
            },
            ColorKind::GrayAlpha => {
                proof {
                    assert(channels(color) == 2);
                    assert(2 * (p + 1) <= 2 * pixels);
                    assert(2 * pixels == pixels * channels(color)) by (nonlinear_arith)
                        requires
                            channels(color) == 2,
                    ;
                }
                let v = data[2 * p];
                (v, v, v, data[2 * p + 1])
            },
            ColorKind::Rgb => {
                proof {
                    assert(channels(color) == 3);
                    assert(3 * (p + 1) <= 3 * pixels);
                    assert(3 * pixels == pixels * channels(color)) by (nonlinear_arith)
                        requires
                            channels(color) == 3,
                    ;
                }
                (data[3 * p + 2], data[3 * p + 1], data[3 * p], 0xFF)
            },
            ColorKind::Rgba => {
                proof {
                    assert(channels(color) == 4);
                    assert(4 * (p + 1) <= 4 * pixels);
                    assert(4 * pixels == pixels * channels(color)) by (nonlinear_arith)
                        requires
                            channels(color) == 4,
                    ;
                }
                (data[4 * p + 2], data[4 * p + 1], data[4 * p], data[4 * p + 3])
            },
        };
        out.push(b);
        out.push(g);
        out.push(r);
        out.push(a);
        proof {
            assert forall|i: int| 0 <= i < 4 * (p + 1) implies out@[i] == bgra_byte(
                color,
                data@,
                i,
            ) by {
                if i >= 4 * p {
                    assert(i / 4 == p && (i % 4 == 0 || i % 4 == 1 || i % 4 == 2 || i % 4 == 3));
                }
            }
        }
        p = p + 1;
    }
    out
}

/// An image in the device's pixel layout: `width * height` pixels of four
/// bytes each, blue, green, red, alpha.
#[derive(Debug)]
pub struct ImageData {
    pub width: u32,
    pub height: u32,
    pub bgra: Vec<u8>,
}

impl ImageData {
    /// The byte buffer holds exactly one four-byte pixel per image pixel.
    pub open spec fn wf(self) -> bool {
        self.bgra@.len() == 4 * (self.width as nat * self.height as nat)
    }

    /// A one-by-one image, from a packed value whose bytes, low to high, are
    /// read as red, green, blue, alpha and stored in device order with the
    /// alpha byte first in memory, as the platform texture upload laid it
    /// out.
    pub fn solid_1x1(rgba: u32) -> (r: ImageData)
        ensures
            r.wf(),
            r.width == 1 && r.height == 1,
            r.bgra@ == seq![
                ((rgba >> 24) & 0xFF) as u8,
                (rgba & 0xFF) as u8,
                ((rgba >> 8) & 0xFF) as u8,
                ((rgba >> 16) & 0xFF) as u8,
            ],
    {
        proof {
            assert((rgba >> 24) & 0xFF <= 0xFF && rgba & 0xFF <= 0xFF && (rgba >> 8) & 0xFF
                <= 0xFF && (rgba >> 16) & 0xFF <= 0xFF) by (bit_vector);
        }
        let mut bgra: Vec<u8> = Vec::new();
        let b0: u8 = ((rgba >> 24) & 0xFF) as u8;
        let b1: u8 = (rgba & 0xFF) as u8;
        let b2: u8 = ((rgba >> 8) & 0xFF) as u8;
        let b3: u8 = ((rgba >> 16) & 0xFF) as u8;
        bgra.push(b0);
        bgra.push(b1);
        bgra.push(b2);
        bgra.push(b3);
        proof {
            assert(bgra@ =~= seq![b0, b1, b2, b3]);
            assert(4 * (1 as nat * 1 as nat) == 4) by (nonlinear_arith);
        }
        ImageData { width: 1, height: 1, bgra }
    }

    /// An exact copy.
    pub fn duplicate(&self) -> (r: ImageData)
        ensures
            r.width == self.width,
            r.height == self.height,
            r.bgra@ == self.bgra@,
    {
        let mut bgra: Vec<u8> = Vec::new();
        let n = self.bgra.len();
        let mut i: usize = 0;
        while i < n
            invariant
                n == self.bgra@.len(),
                i <= n,
                bgra@ == self.bgra@.take(i as int),
            decreases n - i,
        {
            bgra.push(self.bgra[i]);
            proof {
                assert(self.bgra@.take(i as int + 1) =~= self.bgra@.take(i as int).push(
                    self.bgra@[i as int],
                ));
            }
            i = i + 1;
        }
        proof {
            assert(self.bgra@.take(n as int) =~= self.bgra@);
        }
        ImageData { width: self.width, height: self.height, bgra }
    }
}

/// A cached texture: the image, and the decode error that led to a
/// placeholder, when one did.
#[derive(Debug)]
pub struct Entry2D {
    pub texture: ImageData,
    pub error: Option<Error>,
}

/// Why a file read handed bytes back instead of failing.
#[derive(Clone, Copy, Debug, PartialEq, Eq, Structural)]
pub enum FileReadError {
    /// The file does not exist.
    NotFound,
    /// Any other input error.
    Other,
}

/// Two images hold the same picture: same dimensions, same bytes.
pub open spec fn same_image(a: ImageData, b: ImageData) -> bool {
    a.width == b.width && a.height == b.height && a.bgra@ == b.bgra@
}

/// What the cache stores for a byte buffer: the decode of the bytes,
/// normalized to the device layout, or the error placeholder with an error
/// recorded when the bytes are no PNG the device could take.
pub open spec fn entry_matches(bytes: Seq<u8>, error_placeholder: ImageData, e: Entry2D) -> bool {
    match png_decoded(bytes) {
        Some((w, h, color, data)) => if 4 * (w as nat * h as nat) <= usize::MAX {
            &&& e.texture.width == w
            &&& e.texture.height == h
            &&& e.texture.bgra@ == bgra_seq(color, data, (w as nat * h as nat) as nat)
            &&& e.error is None
        } else {
            same_image(e.texture, error_placeholder) && e.error is Some
        },
        None => same_image(e.texture, error_placeholder) && e.error is Some,
    }
}

/// Maps a byte buffer, by the identity key the caller derives from it, to a
/// texture decoded once and remembered for the life of the owning device.
#[derive(Debug)]
pub struct BasicTextureCache {
    /// The device the cached textures were created against.
    pub device_id: u64,
    /// Distinguishes this cache from every cache constructed before it.
    pub instance: u64,
    /// Returned, and remembered, when bytes fail to decode.
    pub placeholder_2d_error: ImageData,
    /// Returned, and remembered, when a file was not found.
    pub placeholder_2d_missing: ImageData,
    /// Entries for embedded buffers, by identity key.
    pub static_files: HashMap<u128, Entry2D>,
    /// Entries for files read at run time, by the caller's file key.
    pub dynamic_files: HashMap<u64, Entry2D>,
}

/// The packed color of both placeholder textures.
pub const PLACEHOLDER_RGBA: u32 = 0xFF00FFFF;

impl BasicTextureCache {
    /// An empty cache for the device identified by `device_id`.
    pub fn new(device_id: u64, instance: u64) -> (r: BasicTextureCache)
        ensures
            r.device_id == device_id,
            r.instance == instance,
            r.placeholder_2d_error.wf(),
            r.placeholder_2d_missing.wf(),
            same_image(r.placeholder_2d_error, r.placeholder_2d_missing),
            r.static_files@ == Map::<u128, Entry2D>::empty(),
            r.dynamic_files@ == Map::<u64, Entry2D>::empty(),
    {
        BasicTextureCache {
            device_id,
            instance,
            placeholder_2d_error: ImageData::solid_1x1(PLACEHOLDER_RGBA),
            placeholder_2d_missing: ImageData::solid_1x1(PLACEHOLDER_RGBA),
            static_files: HashMap::new(),
            dynamic_files: HashMap::new(),
        }
    }

    /// Decode `bytes` into a texture, or fall back to the error placeholder.
    fn create_entry_2d_bytes(&self, bytes: &[u8]) -> (e: Entry2D)
        ensures
            entry_matches(bytes@, self.placeholder_2d_error, e),
    {
        match decode_png(bytes) {
            Ok(img) => {
                proof {
                    assert((img.width as int) * (img.height as int) <= 0xffff_ffff
                        * 0xffff_ffff) by (nonlinear_arith)
                        requires
                            0 <= img.width as int <= 0xffff_ffff,
                            0 <= img.height as int <= 0xffff_ffff,
                    ;
                }
                let wh: u128 = (img.width as u128) * (img.height as u128);
                let wide: u128 = 4u128 * wh;
                if wide <= usize::MAX as u128 {
                    let pixels: usize = wh as usize;
                    proof {
                        assert(pixels as nat == img.width as nat * img.height as nat);
                        assert(pixels as nat * channels(img.color) == img.data@.len());
                        assert(4 * pixels <= usize::MAX);
                    }
                    let bgra = to_bgra(img.color, &img.data, pixels);
                    Entry2D {
                        texture: ImageData { width: img.width, height: img.height, bgra },
                        error: None,
                    }
                } else {
                    Entry2D {
                        texture: self.placeholder_2d_error.duplicate(),
                        error: Some(Error::new("BasicTextureCache", "", 0, "image too large")),
                    }
                }
            },
            Err(e) => Entry2D {
                texture: self.placeholder_2d_error.duplicate(),
                error: Some(e),
            },
        }
    }

    /// The texture for the buffer identified by `key` and holding `bytes`:
    /// decoded on the first request for that identity, remembered and reused
    /// afterwards.  `key` must be the identity of `bytes`, so one identity
    /// always carries one content.
    pub fn get_texture_2d_keyed(&mut self, key: u128, bytes: &[u8]) -> (r: ImageData)
        ensures
            final(self).device_id == old(self).device_id,
            final(self).instance == old(self).instance,
            final(self).placeholder_2d_error == old(self).placeholder_2d_error,
            final(self).placeholder_2d_missing == old(self).placeholder_2d_missing,
            final(self).dynamic_files@ == old(self).dynamic_files@,
            old(self).static_files@.contains_key(key) ==> {
                &&& final(self).static_files@ == old(self).static_files@
                &&& same_image(r, old(self).static_files@[key].texture)
            },
            !old(self).static_files@.contains_key(key) ==> {
                &&& final(self).static_files@.dom() =~= old(self).static_files@.dom().insert(key)
                &&& entry_matches(
                    bytes@,
                    old(self).placeholder_2d_error,
                    final(self).static_files@[key],
                )
                &&& same_image(r, final(self).static_files@[key].texture)
            },
    {
        match self.static_files.get(&key) {
            Some(e) => e.texture.duplicate(),
            None => {
                let e = self.create_entry_2d_bytes(bytes);
                let r = e.texture.duplicate();
                self.static_files.insert(key, e);
                r
            },
        }
    }

    /// The texture for the embedded file `file`: its identity key is derived
    /// from the address and length of its bytes, so the same embedded buffer
    /// is decoded once.
    pub fn get_texture_2d_static_file(&mut self, file: &crate::io::StaticFile) -> (r: ImageData)
        ensures
            final(self).device_id == old(self).device_id,
            final(self).instance == old(self).instance,
            final(self).dynamic_files@ == old(self).dynamic_files@,
            exists|key: u128|
                {
                    &&& #[trigger] final(self).static_files@.contains_key(key)
                    &&& same_image(r, final(self).static_files@[key].texture)
                    &&& (!old(self).static_files@.contains_key(key) ==> entry_matches(
                        file.data@,
                        old(self).placeholder_2d_error,
                        final(self).static_files@[key],
                    ) && final(self).static_files@.dom() =~= old(self).static_files@.dom().insert(
                        key,
                    ))
                    &&& (old(self).static_files@.contains_key(key) ==> final(self).static_files@
                        == old(self).static_files@)
                },
    {
        let key = crate::utility::StaticBytesRef(file.as_bytes()).key();
        let r = self.get_texture_2d_keyed(key, file.as_bytes());
        proof {
            assert(final(self).static_files@.contains_key(key));
        }
        r
    }

    /// The texture for a file read at run time, keyed by the caller's file
    /// key; `read` is the outcome of reading the file's bytes.  A missing
    /// file yields the missing-file placeholder, any other read failure the
    /// error placeholder, and the outcome is remembered for the key either
    /// way.
    pub fn get_texture_2d_static_path(&mut self, path_key: u64, read: Result<Vec<u8>, FileReadError>) -> (r: ImageData)
        ensures
            final(self).device_id == old(self).device_id,
            final(self).instance == old(self).instance,
            final(self).static_files@ == old(self).static_files@,
            old(self).dynamic_files@.contains_key(path_key) ==> {
                &&& final(self).dynamic_files@ == old(self).dynamic_files@
                &&& same_image(r, old(self).dynamic_files@[path_key].texture)
            },
            !old(self).dynamic_files@.contains_key(path_key) ==> {
                &&& final(self).dynamic_files@.dom() =~= old(self).dynamic_files@.dom().insert(
                    path_key,
                )
                &&& same_image(r, final(self).dynamic_files@[path_key].texture)
                &&& match read {
                    Ok(bytes) => entry_matches(
                        bytes@,
                        old(self).placeholder_2d_error,
                        final(self).dynamic_files@[path_key],
                    ),
                    Err(FileReadError::NotFound) => same_image(
                        final(self).dynamic_files@[path_key].texture,
                        old(self).placeholder_2d_missing,
                    ) && final(self).dynamic_files@[path_key].error is Some,
                    Err(FileReadError::Other) => same_image(
                        final(self).dynamic_files@[path_key].texture,
                        old(self).placeholder_2d_error,
                    ) && final(self).dynamic_files@[path_key].error is Some,
                }
            },
    {
        match self.dynamic_files.get(&path_key) {
            Some(e) => e.texture.duplicate(),
            None => {
                let e = match read {
                    Ok(bytes) => self.create_entry_2d_bytes(bytes.as_slice()),
                    Err(FileReadError::NotFound) => Entry2D {
                        texture: self.placeholder_2d_missing.duplicate(),
                        error: Some(Error::new("BasicTextureCache", "", 0, "file not found")),
                    },
                    Err(FileReadError::Other) => Entry2D {
                        texture: self.placeholder_2d_error.duplicate(),
                        error: Some(Error::new("BasicTextureCache", "", 0, "file read failed")),
                    },
                };
                let r = e.texture.duplicate();
                self.dynamic_files.insert(path_key, e);
                r
            },
        }
    }
}

} // verus!
